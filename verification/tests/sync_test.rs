use spacecan::bus::BusImpl;
use spacecan::frame::ID_SYNC;
use spacecan::network::Network;
use spacecan::sync::{SyncConsumer, SyncProducer};

#[test]
fn test_sync_producer_send() {
    let producer = SyncProducer::new().unwrap();
    let mut network = Network::new(0, BusImpl::new(), BusImpl::new());
    assert!(producer.send(&mut network).is_ok());
    let frame = network.process().unwrap();
    assert_eq!(frame.can_id(), ID_SYNC);
    assert_eq!(frame.len(), 0);
}

#[test]
fn test_sync_consumer_receive() {
    let mut consumer = SyncConsumer::new(2000);
    consumer.received(0);

    assert!(!consumer.check_timeout(0)); // Should not timeout immediately
}

#[test]
fn test_sync_consumer_timeout() {
    let consumer = SyncConsumer::new(100);

    assert!(consumer.check_timeout(200)); // Should detect timeout
}
