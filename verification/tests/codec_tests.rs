use ibapi::errors::{BusError, DecodeErrorKind};
use ibapi::framer::{decode_frame, decode_frame_header, encode_frame, MAX_FRAME};
use ibapi::messages::{IncomingKind, RequestMessage, ResponseMessage};

#[test]
fn frame_has_big_endian_length_prefix() {
    let frame = encode_frame(&vec![7u8, 8, 9]).unwrap();
    assert_eq!(frame, vec![0, 0, 0, 3, 7, 8, 9]);
}

#[test]
fn frame_round_trip() {
    let payload = b"9\x001\x00100\x00".to_vec();
    let frame = encode_frame(&payload).unwrap();
    assert_eq!(decode_frame(&frame).unwrap(), payload);
}

#[test]
fn empty_payload_frames_and_decodes() {
    let payload: Vec<u8> = Vec::new();
    let frame = encode_frame(&payload).unwrap();
    assert_eq!(frame, vec![0, 0, 0, 0]);
    assert_eq!(decode_frame(&frame).unwrap(), payload);
}

#[test]
fn oversized_payload_is_refused() {
    let payload = vec![0u8; MAX_FRAME + 1];
    assert!(matches!(encode_frame(&payload), Err(BusError::FrameTooLarge)));
}

#[test]
fn header_decodes_and_bounds_length() {
    let four_k = [0u8, 0, 16, 0];
    assert_eq!(decode_frame_header(&four_k).unwrap(), 4096);
    let huge = [0xffu8, 0, 0, 0];
    assert!(matches!(decode_frame_header(&huge), Err(BusError::FrameTooLarge)));
}

#[test]
fn truncated_frame_is_refused() {
    let mut frame = encode_frame(&b"abc".to_vec()).unwrap();
    frame.pop();
    assert!(matches!(decode_frame(&frame), Err(BusError::TransportClosed)));
}

#[test]
fn fields_round_trip_with_trailing_empty() {
    let mut req = RequestMessage::new();
    req.push_str("a");
    req.push_str("");
    req.push_int(-1);
    req.push_str("");
    let payload = req.encode();
    assert_eq!(payload, b"a\x00\x00-1\x00\x00".to_vec());
    let msg = ResponseMessage::from_payload(&payload);
    assert_eq!(msg.field_count(), 4);
    assert_eq!(msg.peek_string(0).unwrap(), "a");
    assert_eq!(msg.peek_string(1).unwrap(), "");
    assert_eq!(msg.peek_string(2).unwrap(), "-1");
    assert_eq!(msg.peek_string(3).unwrap(), "");
}

#[test]
fn builder_encodes_typed_fields() {
    let mut req = RequestMessage::new();
    req.push_int(13);
    req.push_bool(true);
    req.push_bool(false);
    req.push_optional_int(None);
    req.push_optional_int(Some(-5));
    assert_eq!(req.field_count(), 5);
    assert_eq!(req.encode(), b"13\x001\x000\x00\x00-5\x00".to_vec());
}

#[test]
fn builder_renders_extreme_integers() {
    let mut req = RequestMessage::new();
    req.push_int(i32::MIN);
    req.push_int(i32::MAX);
    req.push_int(0);
    assert_eq!(req.encode(), b"-2147483648\x002147483647\x000\x00".to_vec());
}

#[test]
fn parse_int_fields() {
    let msg = ResponseMessage::from(
        "42\x00-1\x00\x00abc\x002147483647\x002147483648\x00-2147483648\x00",
    );
    assert_eq!(msg.peek_int(0).unwrap(), 42);
    assert_eq!(msg.peek_int(1).unwrap(), -1);
    assert_eq!(
        msg.peek_int(2),
        Err(BusError::Decode { field_index: 2, kind: DecodeErrorKind::NotAnInteger })
    );
    assert_eq!(
        msg.peek_int(3),
        Err(BusError::Decode { field_index: 3, kind: DecodeErrorKind::NotAnInteger })
    );
    assert_eq!(msg.peek_int(4).unwrap(), 2147483647);
    assert_eq!(
        msg.peek_int(5),
        Err(BusError::Decode { field_index: 5, kind: DecodeErrorKind::OutOfRange })
    );
    assert_eq!(msg.peek_int(6).unwrap(), -2147483648);
    assert_eq!(
        msg.peek_int(7),
        Err(BusError::Decode { field_index: 7, kind: DecodeErrorKind::MissingField })
    );
}

#[test]
fn leading_zeros_are_accepted() {
    let msg = ResponseMessage::from("0013\x00-007\x00");
    assert_eq!(msg.peek_int(0).unwrap(), 13);
    assert_eq!(msg.peek_int(1).unwrap(), -7);
}

#[test]
fn cursor_walks_fields() {
    let mut msg = ResponseMessage::from("9\x001\x00100\x00");
    assert_eq!(msg.next_int().unwrap(), 9);
    msg.skip();
    assert_eq!(msg.next_int().unwrap(), 100);
    assert_eq!(
        msg.next_int(),
        Err(BusError::Decode { field_index: 3, kind: DecodeErrorKind::MissingField })
    );
}

#[test]
fn next_string_checks_utf8() {
    let mut msg = ResponseMessage::from_payload(&vec![0xff, 0x00, b'a', 0x00]);
    assert_eq!(
        msg.next_string(),
        Err(BusError::Decode { field_index: 0, kind: DecodeErrorKind::InvalidUtf8 })
    );
    assert_eq!(msg.next_string().unwrap(), "a");
}

#[test]
fn message_kind_classification() {
    assert_eq!(ResponseMessage::from("3\x0013\x00").message_type(), IncomingKind::OrderStatus);
    assert_eq!(ResponseMessage::from("4\x002\x00").message_type(), IncomingKind::Error);
    assert_eq!(ResponseMessage::from("5\x0013\x00").message_type(), IncomingKind::OpenOrder);
    assert_eq!(ResponseMessage::from("9\x001\x00").message_type(), IncomingKind::NextValidId);
    assert_eq!(ResponseMessage::from("11\x00-1\x00").message_type(), IncomingKind::ExecutionData);
    assert_eq!(ResponseMessage::from("15\x001\x00").message_type(), IncomingKind::ManagedAccounts);
    assert_eq!(ResponseMessage::from("53\x001\x00").message_type(), IncomingKind::OpenOrderEnd);
    assert_eq!(
        ResponseMessage::from("55\x001\x007\x00").message_type(),
        IncomingKind::ExecutionDataEnd
    );
    assert_eq!(
        ResponseMessage::from("59\x001\x00").message_type(),
        IncomingKind::CommissionsReport
    );
    assert_eq!(ResponseMessage::from("99\x001\x00").message_type(), IncomingKind::Other);
    assert_eq!(ResponseMessage::from("x\x001\x00").message_type(), IncomingKind::NotValid);
    assert_eq!(ResponseMessage::from("").message_type(), IncomingKind::NotValid);
}

#[test]
fn request_and_order_ids_by_kind() {
    let exec = ResponseMessage::from("11\x00-1\x0013\x00");
    assert_eq!(exec.order_id(), Some(13));
    assert_eq!(exec.request_id(), Some(-1));
    let open = ResponseMessage::from("5\x0013\x0076792991\x00");
    assert_eq!(open.order_id(), Some(13));
    assert_eq!(open.request_id(), None);
    let status = ResponseMessage::from("3\x0013\x00PreSubmitted\x00");
    assert_eq!(status.order_id(), Some(13));
    let tick = ResponseMessage::from("1\x002\x007\x00");
    assert_eq!(tick.order_id(), None);
    assert_eq!(tick.request_id(), Some(7));
}

#[test]
fn reencoding_splits_back_to_the_same_fields() {
    let msg = ResponseMessage::from("5\x0013\x00\x00TSLA\x00");
    let payload = msg.encode();
    assert_eq!(payload, b"5\x0013\x00\x00TSLA\x00".to_vec());
    let again = ResponseMessage::from_payload(&payload);
    assert_eq!(again.field_count(), 4);
    assert_eq!(again.peek_string(2).unwrap(), "");
    assert_eq!(again.peek_string(3).unwrap(), "TSLA");
}

#[test]
fn payload_at_the_frame_bound_is_accepted() {
    let payload = vec![b'x'; MAX_FRAME];
    let frame = encode_frame(&payload).unwrap();
    assert_eq!(frame.len(), MAX_FRAME + 4);
    assert_eq!(decode_frame(&frame).unwrap(), payload);
}

#[test]
fn unicode_fields_round_trip() {
    let mut req = RequestMessage::new();
    req.push_str("café");
    req.push_str("日本");
    let payload = req.encode();
    let msg = ResponseMessage::from_payload(&payload);
    assert_eq!(msg.peek_string(0).unwrap(), "café");
    assert_eq!(msg.peek_string(1).unwrap(), "日本");
}
