//! Wire-protocol tests: framing, round trips, partial frames.

use gpm::connection::{FrameBuffer, FrameOutcome, ProtocolError};
use gpm::sgcp::{decode_request, encode_frame, encode_request, push_be_bytes, read_be_u64, Request, Resource, TaskData};

fn request(resource: Resource, code: &str, data: Option<TaskData>) -> Request {
    Request { resource, task_code: code.to_string(), task_data: data }
}

#[test]
fn round_trip_without_data() {
    let req = request(Resource::Maestro, "OPEN_FIST", None);
    let frame = encode_frame(&req);
    let mut conn = FrameBuffer::new();
    match conn.read_frame(&frame, false) {
        FrameOutcome::Frame(decoded) => assert_eq!(decoded, req),
        _ => panic!("expected a decoded frame"),
    }
    assert_eq!(conn.len(), 0);
}

#[test]
fn round_trip_with_payload() {
    let req = request(Resource::Emg, "CALIBRATE", Some(TaskData::Emg(vec![1, 2, 3, 250])));
    let frame = encode_frame(&req);
    let mut conn = FrameBuffer::new();
    match conn.read_frame(&frame, false) {
        FrameOutcome::Frame(decoded) => assert_eq!(decoded, req),
        _ => panic!("expected a decoded frame"),
    }
}

#[test]
fn round_trip_multibyte_task_code() {
    // a task code with multi-byte UTF-8 characters survives the byte trip
    let req = request(Resource::Bms, "GRIP_Ø_ÅBC", None);
    let frame = encode_frame(&req);
    let mut conn = FrameBuffer::new();
    match conn.read_frame(&frame, false) {
        FrameOutcome::Frame(decoded) => {
            assert_eq!(decoded.task_code, "GRIP_Ø_ÅBC");
            assert_eq!(decoded, req);
        },
        _ => panic!("expected a decoded frame"),
    }
}

#[test]
fn round_trip_mismatched_payload_variant_is_carried() {
    // the codec carries any payload variant; only the manager drops it
    let req = request(Resource::Bms, "GET_HEALTH_METRICS", Some(TaskData::Maestro(vec![7])));
    let frame = encode_frame(&req);
    let mut conn = FrameBuffer::new();
    match conn.read_frame(&frame, false) {
        FrameOutcome::Frame(decoded) => assert_eq!(decoded, req),
        _ => panic!("expected a decoded frame"),
    }
}

#[test]
fn partial_frame_yields_nothing_until_complete() {
    let req = request(Resource::Emg, "IDLE", None);
    let frame = encode_frame(&req);
    let mut conn = FrameBuffer::new();
    // every strict prefix leaves the reader waiting
    let outcome = conn.read_frame(&frame[..frame.len() - 1], false);
    assert!(matches!(outcome, FrameOutcome::Pending));
    // the last byte completes the frame
    match conn.read_frame(&frame[frame.len() - 1..], false) {
        FrameOutcome::Frame(decoded) => assert_eq!(decoded, req),
        _ => panic!("expected a decoded frame"),
    }
}

#[test]
fn short_length_prefix_keeps_waiting() {
    let mut conn = FrameBuffer::new();
    let outcome = conn.read_frame(&[0, 0, 0], false);
    assert!(matches!(outcome, FrameOutcome::Pending));
    assert_eq!(conn.len(), 3);
}

#[test]
fn mid_frame_close_is_a_protocol_error() {
    let req = request(Resource::Emg, "IDLE", None);
    let frame = encode_frame(&req);
    let mut conn = FrameBuffer::new();
    let outcome = conn.read_frame(&frame[..frame.len() - 2], false);
    assert!(matches!(outcome, FrameOutcome::Pending));
    let closed = conn.read_frame(&[], true);
    assert!(matches!(closed, FrameOutcome::Failed(ProtocolError::Truncated)));
}

#[test]
fn clean_close_with_empty_buffer() {
    let mut conn = FrameBuffer::new();
    let outcome = conn.read_frame(&[], true);
    assert!(matches!(outcome, FrameOutcome::Closed));
}

#[test]
fn oversized_stated_length_only_waits() {
    // a corrupt prefix stating a huge length must read as "not yet", not as an error
    let mut conn = FrameBuffer::new();
    let prefix: Vec<u8> = vec![0xff, 0xff, 0xff, 0xff, 0xff, 0xff, 0xff, 0xff, 1, 2, 3];
    let outcome = conn.read_frame(&prefix, false);
    assert!(matches!(outcome, FrameOutcome::Pending));
    assert_eq!(conn.len(), prefix.len());
}

#[test]
fn malformed_payload_fails_the_connection() {
    // a complete frame whose payload starts with an unknown resource tag
    let mut frame: Vec<u8> = vec![0, 0, 0, 0, 0, 0, 0, 12];
    frame.extend_from_slice(&[0xff; 12]);
    let mut conn = FrameBuffer::new();
    let outcome = conn.read_frame(&frame, false);
    assert!(matches!(outcome, FrameOutcome::Failed(ProtocolError::Malformed)));
}

#[test]
fn trailing_bytes_stay_buffered_for_the_next_frame() {
    let first = request(Resource::Maestro, "OPEN_FIST", None);
    let second = request(Resource::Maestro, "CLOSE_FIST", None);
    let mut stream = encode_frame(&first);
    stream.extend_from_slice(&encode_frame(&second));
    let mut conn = FrameBuffer::new();
    match conn.read_frame(&stream, false) {
        FrameOutcome::Frame(decoded) => assert_eq!(decoded, first),
        _ => panic!("expected the first frame"),
    }
    match conn.read_frame(&[], false) {
        FrameOutcome::Frame(decoded) => assert_eq!(decoded, second),
        _ => panic!("expected the second frame"),
    }
    assert_eq!(conn.len(), 0);
}

#[test]
fn payload_decode_rejects_trailing_garbage() {
    let req = request(Resource::Bms, "GET_HEALTH_METRICS", None);
    let mut payload = encode_request(&req);
    assert!(decode_request(&payload).is_some());
    payload.push(0);
    assert!(decode_request(&payload).is_none());
}

#[test]
fn invalid_utf8_task_code_is_rejected() {
    // resource tag 0, task-code length 1, the invalid byte 0xff, no data
    let payload: Vec<u8> = vec![0, 0, 0, 0, 0, 0, 0, 0, 1, 0xff, 0];
    assert!(decode_request(&payload).is_none());
    // the same bytes with a valid one-byte code decode fine
    let payload: Vec<u8> = vec![0, 0, 0, 0, 0, 0, 0, 0, 1, b'A', 0];
    let decoded = decode_request(&payload).expect("valid payload");
    assert_eq!(decoded.task_code, "A");
    assert_eq!(decoded.resource, Resource::Bms);
    assert!(decoded.task_data.is_none());
}

#[test]
fn length_prefix_is_big_endian() {
    let mut out: Vec<u8> = Vec::new();
    push_be_bytes(0x0102030405060708, 8, &mut out);
    assert_eq!(out, vec![1, 2, 3, 4, 5, 6, 7, 8]);
    assert_eq!(read_be_u64(&out, 0), 0x0102030405060708);

    let req = request(Resource::Emg, "IDLE", None);
    let payload = encode_request(&req);
    let frame = encode_frame(&req);
    assert_eq!(read_be_u64(&frame, 0), payload.len() as u64);
    assert_eq!(&frame[8..], &payload[..]);
}
