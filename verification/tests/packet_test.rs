use spacecan::frame::CanFrame;
use spacecan::packet::{Packet, PacketAssembler};

#[test]
fn test_packet_split() {
    let data = vec![1, 2, 3, 4, 5, 6, 7, 8, 9, 10];
    let packet = Packet::new(Some(data.clone()));
    let frames = packet.split();

    assert!(!frames.is_empty());
    let mut rejoined: Vec<u8> = Vec::new();
    for frame in &frames {
        rejoined.extend_from_slice(&frame[2..]);
    }
    assert_eq!(rejoined, data);
}

#[test]
fn test_packet_reassembly() {
    let mut assembler = PacketAssembler::new();
    let can_frames = vec![
        CanFrame::new(0x100, Some(vec![2, 0, 1, 2, 3])).unwrap(),
        CanFrame::new(0x100, Some(vec![2, 1, 4, 5, 6])).unwrap(),
        CanFrame::new(0x100, Some(vec![2, 2, 7, 8, 9, 10])).unwrap(),
    ];

    let mut assembled: Option<Packet> = None;
    for frame in &can_frames {
        if let Some(packet) = assembler.process_frame(frame.clone()).unwrap() {
            assembled = Some(packet);
        }
    }

    let assembled_packet = assembled.unwrap();
    assert_eq!(assembled_packet.data, vec![1, 2, 3, 4, 5, 6, 7, 8, 9, 10]);

    // The key was removed on completion: the same segment delivered again
    // starts a fresh buffer and does not complete a packet.
    assert!(assembler.process_frame(can_frames[2].clone()).unwrap().is_none());
}

#[test]
fn test_incomplete_packet() {
    let mut assembler = PacketAssembler::new();
    let can_frames = vec![
        CanFrame::new(0x100, Some(vec![2, 0, 1, 2, 3])).unwrap(),
        CanFrame::new(0x100, Some(vec![2, 1, 4, 5, 6])).unwrap(),
    ];

    for frame in &can_frames {
        assert!(assembler.process_frame(frame.clone()).unwrap().is_none());
    }

    assert!(assembler.process_frame(can_frames[1].clone()).unwrap().is_none());
}

#[test]
fn test_reassembly_order_independent() {
    let data: Vec<u8> = (1..=14).collect();
    let packet = Packet::new(Some(data.clone()));
    let frames = packet.split();
    assert_eq!(frames.len(), 3);

    let orders: [[usize; 3]; 6] =
        [[0, 1, 2], [0, 2, 1], [1, 0, 2], [1, 2, 0], [2, 0, 1], [2, 1, 0]];
    for order in orders.iter() {
        let mut assembler = PacketAssembler::new();
        let mut assembled: Option<Packet> = None;
        for &i in order.iter() {
            let frame = CanFrame::new(0x2F1, Some(frames[i].clone())).unwrap();
            if let Some(p) = assembler.process_frame(frame).unwrap() {
                assembled = Some(p);
            }
        }
        assert_eq!(assembled.unwrap().data, data);
    }
}

#[test]
fn test_split_ten_bytes_chunks_of_six() {
    let data = vec![1, 2, 3, 4, 5, 6, 7, 8, 9, 10];
    let packet = Packet::new(Some(data.clone()));
    let frames = packet.split();

    assert_eq!(frames.len(), 2);
    assert_eq!(frames[0], vec![1, 0, 1, 2, 3, 4, 5, 6]);
    assert_eq!(frames[1], vec![1, 1, 7, 8, 9, 10]);

    // Reassembling the two chunks in either order returns the ten bytes.
    for order in [[0, 1], [1, 0]].iter() {
        let mut assembler = PacketAssembler::new();
        let mut assembled: Option<Packet> = None;
        for &i in order.iter() {
            let frame = CanFrame::new(0x301, Some(frames[i].clone())).unwrap();
            if let Some(p) = assembler.process_frame(frame).unwrap() {
                assembled = Some(p);
            }
        }
        assert_eq!(assembled.unwrap().data, data);
    }
}

#[test]
fn test_split_empty_payload() {
    let packet = Packet::new(None);
    let frames = packet.split();
    assert_eq!(frames.len(), 1);
    assert_eq!(frames[0], vec![0, 0]);
}

#[test]
fn test_malformed_segment_rejected() {
    let mut assembler = PacketAssembler::new();
    // Header declares a single-segment packet but carries index two.
    let frame = CanFrame::new(0x100, Some(vec![0, 2, 9])).unwrap();
    assert!(assembler.process_frame(frame).is_err());
    // The buffer was untouched: a well-formed single segment completes.
    let frame = CanFrame::new(0x100, Some(vec![0, 0, 7, 8])).unwrap();
    let packet = assembler.process_frame(frame).unwrap().unwrap();
    assert_eq!(packet.data, vec![7, 8]);
}

#[test]
fn test_duplicate_segment_overwrites() {
    let mut assembler = PacketAssembler::new();
    let first = CanFrame::new(0x100, Some(vec![1, 0, 1, 2])).unwrap();
    assert!(assembler.process_frame(first).unwrap().is_none());
    // The same index again with other bytes: the later bytes win, and the
    // duplicate does not count as a second distinct index.
    let again = CanFrame::new(0x100, Some(vec![1, 0, 9, 9])).unwrap();
    assert!(assembler.process_frame(again).unwrap().is_none());
    let last = CanFrame::new(0x100, Some(vec![1, 1, 3])).unwrap();
    let packet = assembler.process_frame(last).unwrap().unwrap();
    assert_eq!(packet.data, vec![9, 9, 3]);
}

#[test]
fn test_segments_with_distinct_keys_kept_apart() {
    let mut assembler = PacketAssembler::new();
    let a0 = CanFrame::new(0x101, Some(vec![1, 0, 1])).unwrap();
    let b0 = CanFrame::new(0x102, Some(vec![1, 0, 2])).unwrap();
    let b1 = CanFrame::new(0x102, Some(vec![1, 1, 3])).unwrap();
    assert!(assembler.process_frame(a0).unwrap().is_none());
    assert!(assembler.process_frame(b0).unwrap().is_none());
    let packet = assembler.process_frame(b1).unwrap().unwrap();
    assert_eq!(packet.data, vec![2, 3]);
    // The first key still waits for its second segment.
    let a1 = CanFrame::new(0x101, Some(vec![1, 1, 4])).unwrap();
    let packet = assembler.process_frame(a1).unwrap().unwrap();
    assert_eq!(packet.data, vec![1, 4]);
}
