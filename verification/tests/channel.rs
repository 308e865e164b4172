use attested_net::chat::{Delivery, RequestTable};
use attested_net::errors::SendError;
use attested_net::frame::{decode_frame, encode_frame};

#[test]
fn frame_layout_is_id_then_length_then_payload() {
    let payload = vec![104u8, 105u8];
    let frame = encode_frame(7, &payload);
    assert_eq!(
        frame,
        vec![0, 0, 0, 0, 0, 0, 0, 7, 0, 0, 0, 2, 104, 105]
    );
}

#[test]
fn frame_round_trip_returns_id_and_payload() {
    let payload = vec![1u8, 2, 3, 4, 5];
    let frame = encode_frame(0xDEAD_BEEF_0123_4567, &payload);
    let (id, got) = decode_frame(&frame).expect("frame must decode");
    assert_eq!(id, 0xDEAD_BEEF_0123_4567);
    assert_eq!(got, payload);
}

#[test]
fn empty_payload_round_trips() {
    let frame = encode_frame(0, &vec![]);
    assert_eq!(frame.len(), 12);
    let (id, got) = decode_frame(&frame).expect("frame must decode");
    assert_eq!(id, 0);
    assert!(got.is_empty());
}

#[test]
fn truncated_or_mislabeled_frames_are_rejected() {
    assert!(decode_frame(&vec![0u8; 11]).is_none());
    let mut frame = encode_frame(1, &vec![9u8, 9, 9]);
    frame.pop();
    assert!(decode_frame(&frame).is_none());
}

#[test]
fn correlation_ids_are_unique_and_sequential() {
    let mut table = RequestTable::new();
    assert_eq!(table.begin_request(), Ok(0));
    assert_eq!(table.begin_request(), Ok(1));
    assert_eq!(table.begin_request(), Ok(2));
    assert_eq!(table.outstanding(), 3);
}

#[test]
fn cancelled_request_discards_its_late_response() {
    // Cancelling an in-flight request removes its waiter; a late
    // response for that id is discarded without touching other waiters.
    let mut table = RequestTable::new();
    let a = table.begin_request().unwrap();
    let b = table.begin_request().unwrap();
    assert!(table.cancel(a));
    assert_eq!(table.outstanding(), 1);
    assert_eq!(table.on_response(a), Delivery::Discarded);
    assert_eq!(table.outstanding(), 1);
    assert_eq!(table.on_response(b), Delivery::Delivered);
    assert_eq!(table.outstanding(), 0);
}

#[test]
fn send_request_frames_under_a_fresh_id() {
    let mut table = RequestTable::new();
    let payload = vec![0xAAu8, 0xBB];
    let (id, bytes) = table.send_request(&payload).expect("channel is live");
    assert_eq!(id, 0);
    assert_eq!(bytes, encode_frame(id, &payload));
    let (decoded_id, decoded_payload) = decode_frame(&bytes).unwrap();
    assert_eq!(decoded_id, id);
    assert_eq!(decoded_payload, payload);
    assert_eq!(table.outstanding(), 1);
}

#[test]
fn each_response_is_delivered_at_most_once() {
    let mut table = RequestTable::new();
    let id = table.begin_request().unwrap();
    assert_eq!(table.on_response(id), Delivery::Delivered);
    assert_eq!(table.on_response(id), Delivery::Discarded);
}

#[test]
fn cancelling_an_unknown_id_changes_nothing() {
    let mut table = RequestTable::new();
    let id = table.begin_request().unwrap();
    assert!(!table.cancel(id + 100));
    assert_eq!(table.outstanding(), 1);
}

#[test]
fn channel_error_fails_every_outstanding_request() {
    let mut table = RequestTable::new();
    let a = table.begin_request().unwrap();
    let b = table.begin_request().unwrap();
    let c = table.begin_request().unwrap();
    let failed = table.on_channel_error();
    assert_eq!(failed, vec![a, b, c]);
    assert_eq!(table.outstanding(), 0);
    assert!(table.is_invalidated());
    assert_eq!(table.begin_request(), Err(SendError::Disconnected));
}
