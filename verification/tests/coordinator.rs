//! The coordinator against real BSER buffers: FIFO correlation, the drain
//! on connection failure, and push routing.

use std::collections::HashMap;

use serde_bser::value::Value;
use watchman_client::error::Error;
use watchman_client::frame::begin_pdu;
use watchman_client::task::ClientTask;
use watchman_client::task::ReceivedPdu;
use watchman_client::task::SendRequest;
use watchman_client::task::TaskItem;

/// A BSER PDU that is a plain response: a map without the unilateral
/// envelope fields.
fn response_pdu(version: &str) -> Vec<u8> {
    let mut map: HashMap<String, Value> = HashMap::new();
    map.insert("version".to_string(), Value::Utf8String(version.to_string()));
    serde_bser::ser::serialize(Vec::new(), &map).unwrap()
}

/// A BSER PDU that decodes as a unilateral push for the named subscription.
fn unilateral_pdu(subscription: &str) -> Vec<u8> {
    let mut map: HashMap<String, Value> = HashMap::new();
    map.insert("unilateral".to_string(), Value::Bool(true));
    map.insert(
        "subscription".to_string(),
        Value::Utf8String(subscription.to_string()),
    );
    map.insert("version".to_string(), Value::Utf8String("1".to_string()));
    serde_bser::ser::serialize(Vec::new(), &map).unwrap()
}

fn request(slot: u64, buf: &[u8]) -> SendRequest {
    SendRequest {
        buf: buf.to_vec(),
        slot,
    }
}

/// The shallow envelope sniff the embedding performs before handing a PDU
/// to the coordinator.  The buffers built here are well formed, so no
/// panic containment is needed.
fn sniff_unilateral(pdu: &[u8]) -> Option<String> {
    let m = match serde_bser::from_slice::<Value>(pdu) {
        Ok(Value::Object(m)) => m,
        _ => return None,
    };
    if !matches!(m.get("unilateral"), Some(Value::Bool(_))) {
        return None;
    }
    match m.get("subscription") {
        Some(Value::Utf8String(s)) => Some(s.clone()),
        _ => None,
    }
}

fn received(pdu: Vec<u8>) -> ReceivedPdu {
    ReceivedPdu {
        unilateral: sniff_unilateral(&pdu),
        bytes: pdu,
    }
}

#[test]
fn responses_complete_requests_in_submission_order() {
    let mut task = ClientTask::new();

    // The first request goes straight to the transport.
    let effects = task.queue_request(request(1, b"first"));
    assert_eq!(effects.send, Some(b"first".to_vec()));
    assert!(effects.complete.is_none());

    // The second waits: only one request may be in flight.
    let effects = task.queue_request(request(2, b"second"));
    assert!(effects.send.is_none());
    assert!(effects.complete.is_none());

    // The first response answers the oldest request and releases the next.
    let response_one = response_pdu("one");
    let effects = task.process_pdu(received(response_one.clone()));
    assert_eq!(effects.complete, Some((1, response_one)));
    assert_eq!(effects.send, Some(b"second".to_vec()));
    assert!(effects.fatal.is_none());

    // The second response answers the second request.
    let response_two = response_pdu("two");
    let effects = task.process_pdu(received(response_two.clone()));
    assert_eq!(effects.complete, Some((2, response_two)));
    assert!(effects.send.is_none());
}

#[test]
fn severed_transport_fails_every_pending_request() {
    let mut task = ClientTask::new();
    task.queue_request(request(10, b"a"));
    task.queue_request(request(11, b"b"));
    task.queue_request(request(12, b"c"));

    let err = Error::Generic("the client task terminated".to_string());
    let failed = task.fail_all(&err);

    assert_eq!(failed.len(), 3);
    assert_eq!(failed[0].0, 10);
    assert_eq!(failed[1].0, 11);
    assert_eq!(failed[2].0, 12);
    for (_, message) in &failed {
        assert_eq!(message, "the client task terminated");
    }

    // Nothing is left to drain.
    assert_eq!(task.fail_all(&err).len(), 0);
}

#[test]
fn registered_push_goes_only_to_its_subscription() {
    let mut task = ClientTask::new();
    task.register_subscription("sub-[test]-1".to_string(), 7);

    // A pending request must not be touched by the push.
    let effects = task.queue_request(request(1, b"query"));
    assert_eq!(effects.send, Some(b"query".to_vec()));

    let push = unilateral_pdu("sub-[test]-1");
    let effects = task.process_pdu(received(push.clone()));
    assert_eq!(effects.deliver, Some((7, push)));
    assert!(effects.complete.is_none());
    assert!(effects.fatal.is_none());

    // The queued request is still the one a later response answers.
    let response = response_pdu("one");
    let effects = task.process_pdu(received(response.clone()));
    assert_eq!(effects.complete, Some((1, response)));
}

#[test]
fn unregistered_push_with_no_request_in_flight_is_fatal() {
    let mut task = ClientTask::new();
    let effects = task.process_pdu(received(unilateral_pdu("nobody")));
    assert!(effects.fatal.is_some());
    assert!(effects.deliver.is_none());
    assert!(effects.complete.is_none());
    let message = effects.fatal.unwrap().message();
    assert_eq!(message, "received a unilateral PDU from the server");
}

#[test]
fn unregistered_push_answers_the_request_in_flight() {
    // Correlation is by shape alone: with a request in flight, a message
    // that matches no subscription answers that request.
    let mut task = ClientTask::new();
    task.queue_request(request(5, b"query"));
    let push = unilateral_pdu("nobody");
    let effects = task.process_pdu(received(push.clone()));
    assert_eq!(effects.complete, Some((5, push)));
    assert!(effects.fatal.is_none());
}

#[test]
fn dropped_subscription_no_longer_routes() {
    let mut task = ClientTask::new();
    task.register_subscription("gone".to_string(), 3);
    task.drop_subscription(&"gone".to_string());
    let effects = task.process_pdu(received(unilateral_pdu("gone")));
    assert!(effects.fatal.is_some());
    assert!(effects.deliver.is_none());
}

#[test]
fn reregistering_overwrites_the_stale_channel() {
    let mut task = ClientTask::new();
    task.register_subscription("name".to_string(), 1);
    task.register_subscription("name".to_string(), 2);
    let push = unilateral_pdu("name");
    let effects = task.process_pdu(received(push.clone()));
    assert_eq!(effects.deliver, Some((2, push)));
}

#[test]
fn hostile_bytes_answer_the_request_in_flight() {
    // A 13-byte buffer with a well-formed framing header whose payload
    // declares a bytestring of negative length: the codec's full decoder
    // cannot be trusted on it (the embedding contains its panic and reports
    // "not a push"), but the frame reader accepts the framing and the
    // coordinator routes it like any non-push message.
    let hostile: Vec<u8> = vec![
        0x00, 0x02, 0x00, 0x00, 0x00, 0x00, 0x03, 0x05, 0x02, 0x03, 0xFF, 0x00, 0x00,
    ];
    let assembly = begin_pdu(hostile.clone()).unwrap();
    assert_eq!(assembly.bytes_needed(), 0);
    let bytes = assembly.finish();

    let mut task = ClientTask::new();
    task.queue_request(request(5, b"query"));
    let effects = task.process_pdu(ReceivedPdu {
        bytes: bytes.clone(),
        unilateral: None,
    });
    assert_eq!(effects.complete, Some((5, bytes)));
    assert!(effects.fatal.is_none());
}

#[test]
fn handle_item_drives_the_same_machine() {
    let mut task = ClientTask::new();
    let effects = task.handle_item(TaskItem::RegisterSubscription("s".to_string(), 9));
    assert!(effects.send.is_none());
    let effects = task.handle_item(TaskItem::QueueRequest(request(1, b"r")));
    assert_eq!(effects.send, Some(b"r".to_vec()));
    let push = unilateral_pdu("s");
    let effects = task.handle_item(TaskItem::ProcessReceivedPdu(received(push.clone())));
    assert_eq!(effects.deliver, Some((9, push)));
}
