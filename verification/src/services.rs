//! Packet utilization services: the routing of application packets to the
//! service a packet's first byte names, and the connection test service
//! with its controller and responder sides. Handlers are data-driven; the
//! routing and the packets each side produces are the logic stated here.

use vstd::prelude::*;
use vstd::slice::slice_to_vec;

verus! {

/// An application-level service packet.
#[derive(Debug)]
pub struct Packet {
    /// The packet bytes: service, subtype, then the payload.
    pub data: Vec<u8>,
}

impl View for Packet {
    type V = Seq<u8>;

    open spec fn view(&self) -> Seq<u8> {
        self.data@
    }
}

impl Packet {
    /// Wraps packet bytes.
    pub fn new(data: Vec<u8>) -> (r: Self)
        ensures
            r@ == data@,
    {
        Packet { data }
    }
}

/// Where a received application packet is routed: to the service its first
/// byte names, with the subtype and remaining payload.
#[derive(Debug)]
pub enum ServiceRoute {
    /// Request verification reports.
    RequestVerification { subtype: u8, payload: Vec<u8> },
    /// Housekeeping reports.
    Housekeeping { subtype: u8, payload: Vec<u8> },
    /// Function management commands.
    FunctionManagement { subtype: u8, payload: Vec<u8> },
    /// Connection test commands and reports.
    Test { subtype: u8, payload: Vec<u8> },
    /// Parameter management commands.
    ParameterManagement { subtype: u8, payload: Vec<u8> },
    /// A service byte no known service claims.
    Unknown { service: u8, subtype: u8 },
    /// Too short to carry the two service bytes.
    TooShort,
}

/// Receive-side router of the packet utilization services.
pub struct PacketUtilizationServiceController {
}

impl PacketUtilizationServiceController {
    /// A router.
    pub fn new() -> (r: Self) {
        PacketUtilizationServiceController {  }
    }

    /// Routes one received packet by its leading service byte: the second
    /// byte is the subtype, everything after the payload. A packet without
    /// the two leading bytes is reported too short.
    pub fn received_packet(&self, data: Vec<u8>, _node_id: u32) -> (r: ServiceRoute)
        ensures
            ({
                let n = data@.len();
                match r {
                    ServiceRoute::TooShort => n < 2,
                    ServiceRoute::RequestVerification { subtype, payload } => n >= 2 && data@[0]
                        == 1 && subtype == data@[1] && payload@ == data@.subrange(2, n as int),
                    ServiceRoute::Housekeeping { subtype, payload } => n >= 2 && data@[0] == 3
                        && subtype == data@[1] && payload@ == data@.subrange(2, n as int),
                    ServiceRoute::FunctionManagement { subtype, payload } => n >= 2 && data@[0]
                        == 8 && subtype == data@[1] && payload@ == data@.subrange(2, n as int),
                    ServiceRoute::Test { subtype, payload } => n >= 2 && data@[0] == 17 && subtype
                        == data@[1] && payload@ == data@.subrange(2, n as int),
                    ServiceRoute::ParameterManagement { subtype, payload } => n >= 2 && data@[0]
                        == 20 && subtype == data@[1] && payload@ == data@.subrange(2, n as int),
                    ServiceRoute::Unknown { service, subtype } => n >= 2 && service == data@[0]
                        && subtype == data@[1] && data@[0] != 1 && data@[0] != 3 && data@[0] != 8
                        && data@[0] != 17 && data@[0] != 20,
                }
            }),
    {
        if data.len() < 2 {
            return ServiceRoute::TooShort;
        }
        let service = data[0];
        let subtype = data[1];
        let payload = slice_to_vec(vstd::slice::slice_subrange(data.as_slice(), 2, data.len()));
        match service {
            1u8 => ServiceRoute::RequestVerification { subtype, payload },
            3u8 => ServiceRoute::Housekeeping { subtype, payload },
            8u8 => ServiceRoute::FunctionManagement { subtype, payload },
            17u8 => ServiceRoute::Test { subtype, payload },
            20u8 => ServiceRoute::ParameterManagement { subtype, payload },
            _ => ServiceRoute::Unknown { service, subtype },
        }
    }
}

/// Request verification reporting, as the responder's services use it.
pub trait RequestVerification {
    /// Reports that a request was accepted.
    fn send_success_acceptance_report(&self, args: &[u8]);

    /// Reports that a request completed.
    fn send_success_completion_report(&self, args: &[u8]);

    /// Reports that a request was not accepted.
    fn send_fail_acceptance_report(&self, args: &[u8]);

    /// Reports that a request failed to complete.
    fn send_fail_completion_report(&self, args: &[u8]);
}

/// Placeholder request verification responder; the real reports are the
/// application's concern.
pub struct RequestVerificationServiceResponder {
}

impl RequestVerificationServiceResponder {
    /// A report sink that discards every report.
    pub fn new() -> (r: Self) {
        RequestVerificationServiceResponder {  }
    }
}

impl RequestVerification for RequestVerificationServiceResponder {
    fn send_success_acceptance_report(&self, _args: &[u8]) {
    }

    fn send_success_completion_report(&self, _args: &[u8]) {
    }

    fn send_fail_acceptance_report(&self, _args: &[u8]) {
    }

    fn send_fail_completion_report(&self, _args: &[u8]) {
    }
}

/// What the test service's controller side reads out of a report packet.
#[derive(Debug)]
pub enum TestControllerEvent {
    /// A connection test report arrived from a node.
    ConnectionTestReport { node_id: u32 },
    /// An application connection test report arrived from a node.
    ApplicationConnectionTestReport { node_id: u32, apid: u8 },
    /// Not a test report this side handles; a report lacking its
    /// application id byte is skipped too.
    Ignored,
}

/// Controller side of the connection test service.
pub struct TestServiceController {
}

impl TestServiceController {
    /// A controller-side test service.
    pub fn new() -> (r: Self) {
        TestServiceController {  }
    }

    /// Reads one routed test packet: subtype two is a connection test
    /// report, subtype four an application connection test report carrying
    /// the application id in its first payload byte.
    pub fn process(&self, service: u8, subtype: u8, data: Vec<u8>, node_id: u32) -> (r:
        TestControllerEvent)
        ensures
            match r {
                TestControllerEvent::ConnectionTestReport { node_id: n } => service == 17
                    && subtype == 2 && n == node_id,
                TestControllerEvent::ApplicationConnectionTestReport { node_id: n, apid } => service
                    == 17 && subtype == 4 && data@.len() >= 1 && n == node_id && apid == data@[0],
                TestControllerEvent::Ignored => !(service == 17 && subtype == 2) && !(service == 17
                    && subtype == 4 && data@.len() >= 1),
            },
    {
        if service == 17 && subtype == 2 {
            TestControllerEvent::ConnectionTestReport { node_id }
        } else if service == 17 && subtype == 4 {
            if data.len() >= 1 {
                let apid = data[0];
                TestControllerEvent::ApplicationConnectionTestReport { node_id, apid }
            } else {
                TestControllerEvent::Ignored
            }
        } else {
            TestControllerEvent::Ignored
        }
    }

    /// The connection test command packet.
    pub fn send_connection_test(&self, _node_id: u32) -> (r: Packet)
        ensures
            r@ == seq![17u8, 1u8],
    {
        let mut data: Vec<u8> = Vec::new();
        data.push(17);
        data.push(1);
        assert(data@ =~= seq![17u8, 1u8]);
        Packet::new(data)
    }

    /// The application connection test command packet for one application.
    pub fn send_application_connection_test(&self, _node_id: u32, apid: u8) -> (r: Packet)
        ensures
            r@ == seq![17u8, 3u8, apid],
    {
        let mut data: Vec<u8> = Vec::new();
        data.push(17);
        data.push(3);
        data.push(apid);
        assert(data@ =~= seq![17u8, 3u8, apid]);
        Packet::new(data)
    }
}

/// Responder side of the connection test service.
pub struct TestServiceResponder {
    request_verification: RequestVerificationServiceResponder,
}

impl TestServiceResponder {
    /// A responder-side test service with its report sink.
    pub fn new() -> (r: Self) {
        TestServiceResponder { request_verification: RequestVerificationServiceResponder::new() }
    }

    /// Handles one routed test packet and returns the reply packets to
    /// send, in order: a connection test is answered with its report; an
    /// application connection test carrying its application id byte is run
    /// and, on success, answered with its report. Anything else, including
    /// a test command lacking its application id, produces no reply.
    pub fn process(&self, service: u8, subtype: u8, data: Vec<u8>, node_id: u32) -> (r: Vec<Packet>)
        ensures
            ({
                if service == 17 && subtype == 1 {
                    r@.len() == 1 && r@[0]@ == seq![17u8, 2u8]
                } else if service == 17 && subtype == 3 && data@.len() >= 1 {
                    r@.len() == 1 && r@[0]@ == seq![17u8, 4u8, data@[0]]
                } else {
                    r@.len() == 0
                }
            }),
    {
        let args = [service, subtype];
        let mut replies: Vec<Packet> = Vec::new();
        if service == 17 && subtype == 1 {
            self.request_verification.send_success_acceptance_report(args.as_slice());
            replies.push(self.send_connection_test_report(node_id));
            self.request_verification.send_success_completion_report(args.as_slice());
        } else if service == 17 && subtype == 3 {
            if data.len() >= 1 {
                let apid = data[0];
                self.request_verification.send_success_acceptance_report(args.as_slice());
                if self.received_application_connection_test(apid) {
                    replies.push(self.send_application_connection_test_report(node_id, apid));
                    self.request_verification.send_success_completion_report(args.as_slice());
                } else {
                    self.request_verification.send_fail_completion_report(args.as_slice());
                }
            }
        }
        replies
    }

    /// The connection test report packet.
    pub fn send_connection_test_report(&self, _node_id: u32) -> (r: Packet)
        ensures
            r@ == seq![17u8, 2u8],
    {
        let mut data: Vec<u8> = Vec::new();
        data.push(17);
        data.push(2);
        assert(data@ =~= seq![17u8, 2u8]);
        Packet::new(data)
    }

    /// The application connection test report packet for one application.
    pub fn send_application_connection_test_report(&self, _node_id: u32, apid: u8) -> (r: Packet)
        ensures
            r@ == seq![17u8, 4u8, apid],
    {
        let mut data: Vec<u8> = Vec::new();
        data.push(17);
        data.push(4);
        data.push(apid);
        assert(data@ =~= seq![17u8, 4u8, apid]);
        Packet::new(data)
    }

    /// Runs the application connection test; this placeholder reports
    /// success for every application id.
    pub fn received_application_connection_test(&self, _apid: u8) -> (r: bool)
        ensures
            r,
    {
        true
    }
}

/// Walks the connection test service through its two exchanges: the
/// controller's commands are built, and the responder answers each with
/// exactly its report.
pub fn st17_test() {
    let controller = TestServiceController::new();
    let responder = TestServiceResponder::new();
    let node_id: u32 = 1;

    let connection_test = controller.send_connection_test(node_id);
    let application_test = controller.send_application_connection_test(node_id, 42);

    let replies = responder.process(17, 1, Vec::new(), node_id);
    assert(replies@.len() == 1);
    assert(replies@[0]@ == seq![17u8, 2u8]);

    let mut apid_data: Vec<u8> = Vec::new();
    apid_data.push(42);
    let replies = responder.process(17, 3, apid_data, node_id);
    assert(replies@.len() == 1);
    assert(replies@[0]@ == seq![17u8, 4u8, 42u8]);

    let route = PacketUtilizationServiceController::new().received_packet(
        connection_test.data,
        node_id,
    );
    let is_test = match route {
        ServiceRoute::Test { subtype, payload: _ } => subtype == 1,
        _ => false,
    };
    assert(is_test);
    let _ = application_test;
}

} // verus!
