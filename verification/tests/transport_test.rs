use spacecan::frame::CanFrame;
use spacecan::frame_buffer::{FrameBuffer, PyboardCanBus};
use spacecan::mock::MockTransport;
use spacecan::protocol::{SpaceCANError, SpaceCANFrame};

#[test]
fn test_frame_buffer_fifo_order() {
    let mut buffer = FrameBuffer::new(4);
    assert!(!buffer.any());
    for id in [0x101u32, 0x102, 0x103] {
        let frame = CanFrame::new(id, None).unwrap();
        assert!(buffer.buffer_frame(frame));
    }
    assert!(buffer.any());
    assert_eq!(buffer.get().unwrap().can_id(), 0x101);
    assert_eq!(buffer.get().unwrap().can_id(), 0x102);
    assert_eq!(buffer.get().unwrap().can_id(), 0x103);
    assert!(buffer.get().is_none());
}

#[test]
fn test_frame_buffer_overflow_refused() {
    let mut buffer = FrameBuffer::new(3);
    let frame = CanFrame::new(0x100, None).unwrap();
    assert!(buffer.buffer_frame(frame.clone()));
    assert!(buffer.buffer_frame(frame.clone()));
    // The third frame exceeds the two-frame capacity and is refused.
    assert!(!buffer.buffer_frame(frame.clone()));
    buffer.clear();
    assert!(!buffer.any());
    assert!(buffer.buffer_frame(frame));
}

#[test]
fn test_pyboard_bus_filter_banks() {
    let mut bus = PyboardCanBus::new(1);
    let filters = vec![(0x700, 0x7FF), (0x080, 0x7FF), (0x280, 0x7FF)];
    assert!(bus.set_filters(filters).is_ok());
    bus.disconnect();
}

#[test]
fn test_pyboard_bus_too_many_filters() {
    let mut bus = PyboardCanBus::new(2);
    let filters = vec![(0x100, 0x7FF); 15];
    assert!(bus.set_filters(filters).is_err());
    let filters = vec![(0x100, 0x7FF); 14];
    assert!(bus.set_filters(filters).is_ok());
}

#[test]
fn test_mock_transport_replay() {
    let mut transport = MockTransport::new();
    assert!(transport.receive().is_err());
    transport.send(&[1, 2, 3]);
    assert_eq!(transport.receive().unwrap(), vec![1, 2, 3]);
    transport.send(&[9]);
    assert_eq!(transport.receive().unwrap(), vec![9]);
}

#[test]
fn test_protocol_frame_padding() {
    let frame = SpaceCANFrame::new(0x01, &[1, 2, 3, 4]).unwrap();
    assert_eq!(frame.command_id, 0x01);
    assert_eq!(frame.payload_len, 4);
    assert_eq!(frame.payload, [1, 2, 3, 4, 0, 0, 0, 0]);
}

#[test]
fn test_protocol_frame_payload_too_large() {
    match SpaceCANFrame::new(0x01, &[0; 9]) {
        Err(SpaceCANError::PayloadTooLarge) => {}
        _ => panic!("nine bytes exceed the frame capacity"),
    }
}
