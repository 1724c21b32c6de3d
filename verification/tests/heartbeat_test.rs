use spacecan::bus::BusImpl;
use spacecan::frame::ID_HEARTBEAT;
use spacecan::heartbeat::{Heartbeat, HeartbeatConsumer, HeartbeatProducer};
use spacecan::network::Network;

#[test]
fn test_heartbeat_producer_send() {
    let producer = HeartbeatProducer::new().unwrap();
    let mut network = Network::new(0, BusImpl::new(), BusImpl::new());
    assert!(producer.send(&mut network).is_ok());
    let frame = network.process().unwrap();
    assert_eq!(frame.can_id(), ID_HEARTBEAT);
    assert_eq!(frame.len(), 0);
}

#[test]
fn test_heartbeat_consumer_receive() {
    let mut consumer = HeartbeatConsumer::new(2000);
    consumer.received(0);

    assert!(!consumer.check_timeout(0)); // Should not timeout immediately
}

#[test]
fn test_heartbeat_consumer_timeout() {
    let consumer = HeartbeatConsumer::new(100);

    assert!(consumer.check_timeout(200)); // Should detect timeout
}

#[test]
fn test_heartbeat_timeout_phases() {
    let mut consumer = HeartbeatConsumer::new(100);
    // Before any signal: timed out.
    assert!(consumer.check_timeout(0));
    // Immediately after a signal: live.
    consumer.received(50);
    assert!(!consumer.check_timeout(50));
    // Within the window: still live.
    assert!(!consumer.check_timeout(150));
    // Past the window: timed out again.
    assert!(consumer.check_timeout(151));
}

#[test]
fn test_heartbeat_producer_schedule() {
    let mut producer = HeartbeatProducer::new().unwrap();
    let mut network = Network::new(0, BusImpl::new(), BusImpl::new());

    producer.start(100);
    // The first poll fires immediately.
    assert!(producer.poll(0, &mut network).is_some());
    // Polling again within the period does not fire.
    assert!(producer.poll(50, &mut network).is_none());
    // A full period later it fires again.
    assert!(producer.poll(100, &mut network).is_some());
    // Stopping silences the schedule.
    producer.stop();
    assert!(producer.poll(300, &mut network).is_none());

    // Exactly the two fired beats went out on the selected bus.
    assert!(network.process().is_some());
    assert!(network.process().is_some());
    assert!(network.process().is_none());
}

#[test]
fn test_heartbeat_report_payload() {
    let report = Heartbeat { uptime: 42, status: 0b0000_0001 };
    assert_eq!(report.to_payload(), vec![0, 0, 0, 42, 1]);
}
