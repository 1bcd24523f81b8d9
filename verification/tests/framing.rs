//! The frame reader against real BSER buffers.

use std::collections::HashMap;

use serde_bser::value::Value;
use watchman_client::error::Error;
use watchman_client::frame::begin_pdu;

fn sample_pdu() -> Vec<u8> {
    let mut map: HashMap<String, Value> = HashMap::new();
    map.insert(
        "version".to_string(),
        Value::Utf8String("4.9.0-test".to_string()),
    );
    map.insert("is_fresh_instance".to_string(), Value::Bool(false));
    serde_bser::ser::serialize(Vec::new(), &map).unwrap()
}

#[test]
fn reassembles_a_pdu_from_split_reads() {
    let wire = sample_pdu();
    assert!(wire.len() > 16);

    // The reader sniffs the header off the first small read...
    let first: Vec<u8> = wire[..16].to_vec();
    let mut assembly = begin_pdu(first).unwrap();
    let needed = assembly.bytes_needed();
    assert_eq!(needed, wire.len() - 16);

    // ...then accumulates until exactly the declared total is buffered.
    let middle: Vec<u8> = wire[16..20].to_vec();
    assert_eq!(assembly.extend_pdu(middle).unwrap(), false);
    let rest: Vec<u8> = wire[20..].to_vec();
    assert_eq!(assembly.extend_pdu(rest).unwrap(), true);
    assert_eq!(assembly.bytes_needed(), 0);
    assert_eq!(assembly.finish(), wire);
}

#[test]
fn a_whole_pdu_in_the_first_read_needs_nothing_more() {
    let wire = sample_pdu();
    let assembly = begin_pdu(wire.clone()).unwrap();
    assert_eq!(assembly.bytes_needed(), 0);
    assert_eq!(assembly.finish(), wire);
}

#[test]
fn empty_first_read_is_end_of_stream() {
    match begin_pdu(Vec::new()) {
        Err(Error::Eof) => {}
        _ => panic!("an empty read must report end of stream"),
    }
}

#[test]
fn empty_later_read_is_end_of_stream() {
    let wire = sample_pdu();
    let mut assembly = begin_pdu(wire[..16].to_vec()).unwrap();
    match assembly.extend_pdu(Vec::new()) {
        Err(Error::Eof) => {}
        _ => panic!("a zero-byte read before completion must report end of stream"),
    }
}

#[test]
fn header_declaring_less_than_was_read_is_fatal() {
    // A first read that already runs past the declared total means the
    // stream is not framing-aligned.
    let mut chunk = sample_pdu();
    chunk.extend_from_slice(b"extra");
    match begin_pdu(chunk.clone()) {
        Err(Error::Deserialize { data, .. }) => assert_eq!(data, chunk),
        _ => panic!("an implausible declared total must fail the connection"),
    }
}

#[test]
fn garbage_header_is_a_fatal_decode_failure() {
    let garbage: Vec<u8> = b"this is not bser".to_vec();
    match begin_pdu(garbage.clone()) {
        Err(Error::Deserialize { data, .. }) => assert_eq!(data, garbage),
        _ => panic!("a header that cannot be sniffed must fail the connection"),
    }
}
