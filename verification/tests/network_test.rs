use spacecan::bus::BusImpl;
use spacecan::frame::CanFrame;
use spacecan::network::{BusSelection, Network};

#[test]
fn test_switch_twice_restores_selection() {
    let mut network = Network::new(1, BusImpl::new(), BusImpl::new());
    network.start();
    network.switch_bus();
    network.switch_bus();
    // Two switches later, traffic flows over the primary bus again: a frame
    // sent now comes back from the loopback, as at the start.
    let frame = CanFrame::new(0x100, Some(vec![1])).unwrap();
    assert!(network.send(&frame).is_ok());
    let delivered = network.process().unwrap();
    assert_eq!(delivered.can_id(), 0x100);
}

#[test]
fn test_switch_discards_stale_frames() {
    let mut network = Network::new(1, BusImpl::new(), BusImpl::new());
    network.start();
    // Two frames reach the selected bus's buffer but are not yet processed.
    let frame = CanFrame::new(0x180, Some(vec![1, 2])).unwrap();
    network.send(&frame).unwrap();
    network.send(&frame).unwrap();
    // Failover: the stale bus's buffer is flushed, the other bus starts
    // empty, so neither frame is ever delivered.
    network.switch_bus();
    assert!(network.process().is_none());
    // Even switching back does not revive them: the switch drained them.
    network.switch_bus();
    assert!(network.process().is_none());
}

#[test]
fn test_send_goes_through_selected_bus_only() {
    let mut network = Network::new(1, BusImpl::new(), BusImpl::new());
    network.start();
    network.switch_bus();
    let frame = CanFrame::new(0x123, Some(vec![7])).unwrap();
    network.send(&frame).unwrap();
    // The frame sits on the now-selected secondary bus.
    let delivered = network.process().unwrap();
    assert_eq!(delivered.can_id(), 0x123);
    assert_eq!(*delivered.data(), vec![7]);
}

#[test]
fn test_selection_values_differ() {
    assert_ne!(BusSelection::Primary, BusSelection::Secondary);
}

#[test]
fn test_stop_drains_selected_bus() {
    let mut network = Network::new(1, BusImpl::new(), BusImpl::new());
    network.start();
    let frame = CanFrame::new(0x100, None).unwrap();
    network.send(&frame).unwrap();
    network.stop();
    assert!(network.process().is_none());
}
