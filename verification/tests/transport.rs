use ledger_apdu::{APDUAnswerError, APDUCommand};
use ledger_transport_tcp::apdu::{frame_command, read_answer};
use ledger_transport_tcp::errors::TransportError;
use ledger_transport_tcp::frame::encode_frame;
use ledger_transport_tcp::protocol::{interpret_read, ReadOutcome, RESPONSE_CAPACITY};

#[test]
fn frame_of_empty_payload_is_zero_prefix() {
    let frame = encode_frame(&Vec::new());
    assert_eq!(frame, vec![0, 0, 0, 0]);
}

#[test]
fn frame_is_length_prefix_then_payload() {
    let frame = encode_frame(&vec![1, 2, 3]);
    assert_eq!(frame, vec![0, 0, 0, 3, 1, 2, 3]);
}

#[test]
fn frame_prefix_is_big_endian() {
    let payload: Vec<u8> = vec![0xaa; 258];
    let frame = encode_frame(&payload);
    assert_eq!(frame.len(), 262);
    assert_eq!(&frame[..4], &[0, 0, 1, 2]);
    assert_eq!(&frame[4..], payload.as_slice());
}

#[test]
fn frame_command_serializes_then_frames() {
    let command = APDUCommand { cla: 0xe0, ins: 0x01, p1: 0x02, p2: 0x03, data: vec![9, 8] };
    let frame = frame_command(&command).expect("a short command always has a frame");
    assert_eq!(frame, vec![0, 0, 0, 7, 0xe0, 0x01, 0x02, 0x03, 2, 9, 8]);
}

#[test]
fn zero_byte_read_is_connection_closed() {
    let outcome = ReadOutcome::Filled { buf: vec![0; RESPONSE_CAPACITY], count: 0 };
    let r = interpret_read(outcome);
    assert!(matches!(r, Err(TransportError::ConnectionClosed)));
}

#[test]
fn would_block_read_surfaces_as_read_would_block() {
    let r = interpret_read(ReadOutcome::WouldBlock);
    assert!(matches!(r, Err(TransportError::ReadWouldBlock)));
}

#[test]
fn failed_read_keeps_its_cause() {
    let outcome = ReadOutcome::Failed { cause: String::from("reset by peer") };
    match interpret_read(outcome) {
        Err(TransportError::IoFailure(cause)) => assert_eq!(cause, "reset by peer"),
        other => panic!("expected an IoFailure, got {:?}", other),
    }
}

#[test]
fn read_yields_exactly_the_delivered_bytes() {
    let mut buf = vec![0u8; RESPONSE_CAPACITY];
    buf[0] = 0x90;
    buf[1] = 0x00;
    let r = interpret_read(ReadOutcome::Filled { buf, count: 2 });
    assert_eq!(r.unwrap(), vec![0x90, 0x00]);
}

#[test]
fn read_never_yields_more_than_the_buffer() {
    let buf: Vec<u8> = (0..RESPONSE_CAPACITY).map(|i| (i % 251) as u8).collect();
    let expected = buf.clone();
    let r = interpret_read(ReadOutcome::Filled { buf, count: RESPONSE_CAPACITY });
    let resp = r.unwrap();
    assert_eq!(resp.len(), RESPONSE_CAPACITY);
    assert_eq!(resp, expected);
}

#[test]
fn two_byte_echo_parses_to_empty_answer_with_retcode() {
    let mut buf = vec![0u8; RESPONSE_CAPACITY];
    buf[0] = 0x90;
    buf[1] = 0x00;
    let answer = read_answer(ReadOutcome::Filled { buf, count: 2 })
        .expect("a delivery is no transport failure")
        .expect("two bytes are enough for a return code");
    assert_eq!(answer.data(), &[] as &[u8]);
    assert_eq!(answer.retcode(), 0x9000);
}

#[test]
fn answer_payload_precedes_the_retcode() {
    let mut buf = vec![0u8; RESPONSE_CAPACITY];
    buf[0] = 5;
    buf[1] = 6;
    buf[2] = 0x6a;
    buf[3] = 0x80;
    let answer = read_answer(ReadOutcome::Filled { buf, count: 4 })
        .expect("a delivery is no transport failure")
        .expect("four bytes are enough for a return code");
    assert_eq!(answer.data(), &[5, 6]);
    assert_eq!(answer.retcode(), 0x6a80);
}

#[test]
fn one_byte_answer_is_too_short() {
    let mut buf = vec![0u8; RESPONSE_CAPACITY];
    buf[0] = 0x90;
    let inner = read_answer(ReadOutcome::Filled { buf, count: 1 })
        .expect("a delivery is no transport failure");
    assert_eq!(inner.unwrap_err(), APDUAnswerError::TooShort);
}

#[test]
fn zero_byte_read_closes_before_any_parse() {
    let r = read_answer(ReadOutcome::Filled { buf: vec![0; RESPONSE_CAPACITY], count: 0 });
    assert!(matches!(r, Err(TransportError::ConnectionClosed)));
}

#[test]
fn error_constructors_build_their_kind() {
    assert!(matches!(TransportError::connection_refused(), TransportError::ConnectionRefused));
    assert!(matches!(TransportError::connection_closed(), TransportError::ConnectionClosed));
    assert!(matches!(TransportError::read_would_block(), TransportError::ReadWouldBlock));
    match TransportError::io_failure(String::from("lost carrier")) {
        TransportError::IoFailure(cause) => assert_eq!(cause, "lost carrier"),
        other => panic!("expected an IoFailure, got {:?}", other),
    }
}
