use spacecan::bus::BusImpl;
use spacecan::controller::{Controller, ControllerEvent};
use spacecan::frame::{CanFrame, FULL_MASK, FUNCTION_MASK, ID_HEARTBEAT, ID_SCET, ID_SYNC, ID_TC,
    ID_TM, ID_UTC};
use spacecan::packet::{AssemblyStatus, Packet};
use spacecan::responder::{Responder, ResponderEvent};

#[test]
fn test_controller_filters() {
    let controller: Controller<BusImpl> = Controller::new(None, None, false);
    assert_eq!(controller.filters(), vec![(ID_TM, FUNCTION_MASK)]);
}

#[test]
fn test_responder_filters() {
    let responder: Responder<BusImpl> = Responder::new(5, None, 3, None, false);
    assert_eq!(
        responder.filters(),
        vec![
            (ID_HEARTBEAT, FULL_MASK),
            (ID_SYNC, FULL_MASK),
            (ID_SCET, FULL_MASK),
            (ID_UTC, FULL_MASK),
            (ID_TC + 5, FULL_MASK),
        ]
    );
}

#[test]
fn test_controller_receives_telemetry() {
    let mut controller: Controller<BusImpl> = Controller::new(None, None, false);
    let frame = CanFrame::new(ID_TM + 3, Some(vec![1, 2])).unwrap();
    match controller.received_frame(frame) {
        ControllerEvent::Telemetry { data, node_id, assembly } => {
            assert_eq!(data, vec![1, 2]);
            assert_eq!(node_id, 3);
            assert!(matches!(assembly, AssemblyStatus::NotRun));
        }
        ControllerEvent::Ignored => panic!("telemetry should be dispatched"),
    }
    // A frame outside the telemetry band is ignored.
    let frame = CanFrame::new(ID_HEARTBEAT, None).unwrap();
    assert!(matches!(
        controller.received_frame(frame),
        ControllerEvent::Ignored
    ));
}

#[test]
fn test_controller_reassembles_telemetry_packet() {
    let mut controller: Controller<BusImpl> = Controller::new(None, None, true);
    let payload: Vec<u8> = (0..10).collect();
    let chunks = Packet::new(Some(payload.clone())).split();

    let mut completed: Option<Vec<u8>> = None;
    for chunk in &chunks {
        let frame = CanFrame::new(ID_TM + 7, Some(chunk.clone())).unwrap();
        match controller.received_frame(frame) {
            ControllerEvent::Telemetry { assembly, node_id, .. } => {
                assert_eq!(node_id, 7);
                if let AssemblyStatus::Complete(packet) = assembly {
                    completed = Some(packet.data);
                }
            }
            ControllerEvent::Ignored => panic!("telemetry should be dispatched"),
        }
    }
    assert_eq!(completed.unwrap(), payload);
}

#[test]
fn test_controller_send_scet_frame() {
    let mut controller: Controller<BusImpl> = Controller::new(None, None, false);
    controller.connect(BusImpl::new(), BusImpl::new());
    controller.start();
    assert!(controller.send_scet(0x01020304, 0x050607).is_ok());
    // The SCET frame sits on the loopback bus: poll it back out; the
    // controller ignores it (wrong band), but the dispatch ran.
    assert!(controller.process().is_some());
    assert!(controller.process().is_none());
}

#[test]
fn test_controller_send_telecommand_too_long() {
    let mut controller: Controller<BusImpl> = Controller::new(None, None, false);
    controller.connect(BusImpl::new(), BusImpl::new());
    assert!(controller.send_telecommand(vec![0; 9], 1).is_err());
    assert!(controller.send_telecommand(vec![0; 8], 1).is_ok());
}

#[test]
fn test_responder_heartbeat_refreshes_liveness() {
    let mut responder: Responder<BusImpl> = Responder::new(1, Some(100), 3, None, false);
    // No heartbeat seen yet: liveness lost.
    assert_eq!(responder.check_heartbeat(0), Some(true));
    let frame = CanFrame::new(ID_HEARTBEAT, None).unwrap();
    assert!(matches!(
        responder.received_frame(frame, 50),
        ResponderEvent::Heartbeat
    ));
    // Within the window (period 100 times 3 misses): live.
    assert_eq!(responder.check_heartbeat(300), Some(false));
    // Past the window: lost again.
    assert_eq!(responder.check_heartbeat(351), Some(true));
}

#[test]
fn test_responder_decodes_time_frames() {
    let mut responder: Responder<BusImpl> = Responder::new(1, None, 0, None, false);
    // SCET: three bytes of fine time, four of coarse time, big end first.
    let frame = CanFrame::new(ID_SCET, Some(vec![0x05, 0x06, 0x07, 0x01, 0x02, 0x03, 0x04]))
        .unwrap();
    match responder.received_frame(frame, 0) {
        ResponderEvent::Scet { coarse_time, fine_time } => {
            assert_eq!(fine_time, 0x050607);
            assert_eq!(coarse_time, 0x01020304);
        }
        _ => panic!("SCET frame should be decoded"),
    }
    // UTC: two bytes sub-milliseconds, four milliseconds of day, two days.
    let frame = CanFrame::new(
        ID_UTC,
        Some(vec![0x00, 0x2A, 0x01, 0x02, 0x03, 0x04, 0x00, 0x07]),
    )
    .unwrap();
    match responder.received_frame(frame, 0) {
        ResponderEvent::Utc { day, ms_of_day, sub_ms } => {
            assert_eq!(sub_ms, 0x2A);
            assert_eq!(ms_of_day, 0x01020304);
            assert_eq!(day, 7);
        }
        _ => panic!("UTC frame should be decoded"),
    }
    // A short time frame is skipped, not an error.
    let frame = CanFrame::new(ID_SCET, Some(vec![1, 2])).unwrap();
    assert!(matches!(
        responder.received_frame(frame, 0),
        ResponderEvent::Ignored
    ));
}

#[test]
fn test_responder_filters_foreign_telecommands() {
    let mut responder: Responder<BusImpl> = Responder::new(2, None, 0, None, true);
    // A telecommand addressed to another node is silently filtered.
    let frame = CanFrame::new(ID_TC + 3, Some(vec![0, 0, 1])).unwrap();
    assert!(matches!(
        responder.received_frame(frame, 0),
        ResponderEvent::Ignored
    ));
    // One addressed to this node is dispatched and reassembled.
    let frame = CanFrame::new(ID_TC + 2, Some(vec![0, 0, 9])).unwrap();
    match responder.received_frame(frame, 0) {
        ResponderEvent::Telecommand { data, node_id, assembly } => {
            assert_eq!(data, vec![0, 0, 9]);
            assert_eq!(node_id, 2);
            match assembly {
                AssemblyStatus::Complete(packet) => assert_eq!(packet.data, vec![9]),
                _ => panic!("single-segment packet should complete"),
            }
        }
        _ => panic!("own telecommand should be dispatched"),
    }
}

#[test]
fn test_round_trip_telecommand_packet() {
    // The controller splits and sends a packet; the responder reassembles
    // exactly the original payload from the addressed frames.
    let mut controller: Controller<BusImpl> = Controller::new(None, None, false);
    controller.connect(BusImpl::new(), BusImpl::new());
    controller.start();

    let payload: Vec<u8> = (10..30).collect();
    let chunks = Packet::new(Some(payload.clone())).split();
    assert!(controller.send_packet(chunks.clone(), 4).is_ok());

    let mut responder: Responder<BusImpl> = Responder::new(4, None, 0, None, true);
    let mut completed: Option<Vec<u8>> = None;
    for chunk in &chunks {
        let frame = CanFrame::new(ID_TC + 4, Some(chunk.clone())).unwrap();
        if let ResponderEvent::Telecommand { assembly: AssemblyStatus::Complete(p), .. } =
            responder.received_frame(frame, 0)
        {
            completed = Some(p.data);
        }
    }
    assert_eq!(completed.unwrap(), payload);
}

#[test]
fn test_responder_send_telemetry() {
    let mut responder: Responder<BusImpl> = Responder::new(6, None, 0, None, false);
    responder.connect(BusImpl::new(), BusImpl::new());
    responder.start();
    assert!(responder.send_telemetry(vec![1, 2, 3]).is_ok());
    assert!(responder.send_telemetry(vec![0; 9]).is_err());
    // The frame went out on the responder's telemetry identifier.
    assert!(responder.process(0).is_some());
}

#[test]
fn test_node_switch_bus_discards_pending() {
    let mut responder: Responder<BusImpl> = Responder::new(1, None, 0, None, false);
    responder.connect(BusImpl::new(), BusImpl::new());
    responder.start();
    responder.send_telemetry(vec![1]).unwrap();
    responder.switch_bus();
    // The pending frame of the deactivated bus is never delivered.
    assert!(responder.process(0).is_none());
}
