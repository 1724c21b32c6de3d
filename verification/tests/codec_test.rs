use spacecan::frame::{CanFrame, CanFrameError};
use spacecan::parser::{decode_frame, encode_frame};

#[test]
fn test_encode_invalid_identifier_error() {
    // Every identifier beyond the 11-bit space is rejected, with the
    // offending identifier carried in the error.
    for id in [0x800u32, 0x801, 0xFFFF, u32::MAX] {
        match CanFrame::new(id, None) {
            Err(CanFrameError::InvalidCanId(bad)) => assert_eq!(bad, id),
            _ => panic!("identifier should have been rejected"),
        }
    }
}

#[test]
fn test_encode_payload_too_long_error() {
    for len in [9usize, 10, 100] {
        match CanFrame::new(0x100, Some(vec![0; len])) {
            Err(CanFrameError::DataTooLong) => {}
            _ => panic!("payload should have been rejected"),
        }
    }
    // Eight bytes are still fine.
    assert!(CanFrame::new(0x100, Some(vec![0; 8])).is_ok());
}

#[test]
fn test_round_trip_identifier_and_payload() {
    let cases: Vec<(u32, Vec<u8>)> = vec![
        (0x000, vec![]),
        (0x001, vec![0xFF]),
        (0x080, vec![]),
        (0x100, vec![1, 2, 3, 4]),
        (0x2A5, vec![1, 2, 3, 4, 5, 6, 7, 8]),
        (0x700, vec![9]),
        (0x7FF, vec![0, 0, 0]),
    ];
    for (id, payload) in cases {
        let frame = CanFrame::new(id, Some(payload.clone())).unwrap();
        let bytes = frame.to_bytes();
        let decoded = CanFrame::from_bytes(&bytes).unwrap();
        assert_eq!(decoded.can_id(), id);
        assert_eq!(*decoded.data(), payload);
    }
}

#[test]
fn test_scet_band_example_encoding() {
    // Encoding identifier 0x100 with payload [1, 2, 3, 4] gives the two
    // identifier bytes 0x20, 0x00 followed by the payload.
    let frame = CanFrame::new(0x100, Some(vec![1, 2, 3, 4])).unwrap();
    assert_eq!(frame.to_bytes(), vec![0x20, 0x00, 1, 2, 3, 4]);

    let decoded = CanFrame::from_bytes(&[0x20, 0x00, 1, 2, 3, 4]).unwrap();
    assert_eq!(decoded.get_node_id(), 0x100 & 0x7F);
    assert_eq!(decoded.get_func_id(), (0x100 & 0x780) >> 7);
    assert_eq!(*decoded.data(), vec![1, 2, 3, 4]);
}

#[test]
fn test_decode_too_short() {
    assert!(CanFrame::from_bytes(&[]).is_err());
    assert!(CanFrame::from_bytes(&[0x20]).is_err());
    match CanFrame::from_bytes(&[0x20]) {
        Err(CanFrameError::InvalidCanId(id)) => assert_eq!(id, 0),
        _ => panic!("short input should report an invalid identifier"),
    }
}

#[test]
fn test_decode_too_long() {
    match CanFrame::from_bytes(&[0x20, 0x00, 1, 2, 3, 4, 5, 6, 7, 8, 9]) {
        Err(CanFrameError::DataTooLong) => {}
        _ => panic!("over-length input should be rejected"),
    }
}

#[test]
fn test_parser_round_trip() {
    let frame = CanFrame::new(0x2A5, Some(vec![1, 2, 3])).unwrap();
    let bytes = encode_frame(&frame).unwrap();
    let decoded = decode_frame(&bytes).unwrap();
    assert_eq!(decoded.can_id(), 0x2A5);
    assert_eq!(*decoded.data(), vec![1, 2, 3]);
}

#[test]
fn test_parser_error_messages() {
    match decode_frame(&[0x20]) {
        Err(message) => assert_eq!(message, "Invalid CAN ID: 0"),
        Ok(_) => panic!("short input should fail"),
    }
    match decode_frame(&[0x20, 0x00, 1, 2, 3, 4, 5, 6, 7, 8, 9]) {
        Err(message) => assert_eq!(message, "Data length exceeds 8 bytes"),
        Ok(_) => panic!("over-length input should fail"),
    }
    assert_eq!(
        CanFrameError::InvalidCanId(2048).message(),
        "Invalid CAN ID: 2048"
    );
    assert_eq!(CanFrameError::SendFailed.message(), "CAN frame send failed");
}
