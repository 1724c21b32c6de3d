use spacecan::function_management::{Argument, Function, FunctionManagementService};
use spacecan::services::{
    st17_test, PacketUtilizationServiceController, ServiceRoute, TestControllerEvent,
    TestServiceController, TestServiceResponder,
};

#[test]
fn test_st17_test() {
    st17_test();
}

#[test]
fn test_packet_service_initialization() {
    // The router carries no state; constructing it cannot fail.
    let _service = PacketUtilizationServiceController::new();
    assert!(true);
}

#[test]
fn test_packet_routing() {
    let controller = PacketUtilizationServiceController::new();
    // Service byte one routes to request verification with subtype two.
    match controller.received_packet(vec![1, 2, 3, 4], 1) {
        ServiceRoute::RequestVerification { subtype, payload } => {
            assert_eq!(subtype, 2);
            assert_eq!(payload, vec![3, 4]);
        }
        _ => panic!("service one routes to request verification"),
    }
}

#[test]
fn test_route_by_service_byte() {
    let router = PacketUtilizationServiceController::new();
    match router.received_packet(vec![1, 7, 0xAA], 1) {
        ServiceRoute::RequestVerification { subtype, payload } => {
            assert_eq!(subtype, 7);
            assert_eq!(payload, vec![0xAA]);
        }
        _ => panic!("service one routes to request verification"),
    }
    assert!(matches!(
        router.received_packet(vec![3, 25], 1),
        ServiceRoute::Housekeeping { subtype: 25, .. }
    ));
    assert!(matches!(
        router.received_packet(vec![8, 1], 1),
        ServiceRoute::FunctionManagement { subtype: 1, .. }
    ));
    assert!(matches!(
        router.received_packet(vec![17, 1], 1),
        ServiceRoute::Test { subtype: 1, .. }
    ));
    assert!(matches!(
        router.received_packet(vec![20, 3], 1),
        ServiceRoute::ParameterManagement { subtype: 3, .. }
    ));
    assert!(matches!(
        router.received_packet(vec![9, 9], 1),
        ServiceRoute::Unknown { service: 9, subtype: 9 }
    ));
    assert!(matches!(
        router.received_packet(vec![17], 1),
        ServiceRoute::TooShort
    ));
}

#[test]
fn test_connection_test_exchange() {
    let controller = TestServiceController::new();
    let responder = TestServiceResponder::new();

    let command = controller.send_connection_test(1);
    assert_eq!(command.data, vec![17, 1]);

    let replies = responder.process(17, 1, vec![], 1);
    assert_eq!(replies.len(), 1);
    assert_eq!(replies[0].data, vec![17, 2]);

    match controller.process(17, 2, vec![], 1) {
        TestControllerEvent::ConnectionTestReport { node_id } => assert_eq!(node_id, 1),
        _ => panic!("the report should reach the controller"),
    }
}

#[test]
fn test_application_connection_test_exchange() {
    let controller = TestServiceController::new();
    let responder = TestServiceResponder::new();

    let command = controller.send_application_connection_test(1, 42);
    assert_eq!(command.data, vec![17, 3, 42]);

    let replies = responder.process(17, 3, vec![42], 1);
    assert_eq!(replies.len(), 1);
    assert_eq!(replies[0].data, vec![17, 4, 42]);

    match controller.process(17, 4, vec![42], 1) {
        TestControllerEvent::ApplicationConnectionTestReport { node_id, apid } => {
            assert_eq!(node_id, 1);
            assert_eq!(apid, 42);
        }
        _ => panic!("the report should reach the controller"),
    }

    // A test command without its application id byte produces no reply.
    assert!(responder.process(17, 3, vec![], 1).is_empty());
    // An unrelated subtype produces no reply either.
    assert!(responder.process(17, 9, vec![], 1).is_empty());
}

#[test]
fn test_function_pool() {
    let mut service = FunctionManagementService::new();
    assert!(service.get_function(1).is_none());

    let args = vec![
        Argument::new(1, String::from("threshold"), String::from("f64")),
        Argument::new(2, String::from("mode"), String::from("u8")),
    ];
    let function = Function::new(7, String::from("set_mode"), Some(args));
    assert!(function.get_argument(1).is_some());
    assert!(function.get_argument(2).is_some());
    assert!(function.get_argument(3).is_none());
    assert_eq!(function.get_argument(1).unwrap().get_encoded_size(), 8);

    service.add_function(function);
    assert!(service.get_function(7).is_some());
    assert!(service.get_function(8).is_none());
}
