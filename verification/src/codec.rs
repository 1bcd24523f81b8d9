//! The narrow contract this engine needs from the BSER codec.
//!
//! The engine never interprets payload bytes itself.  The one codec call it
//! relies on directly is the framing-header sniff, which reads a fixed,
//! small number of bytes and cannot run away; its result is a function of
//! the bytes alone, so it is given an uninterpreted name that the frame
//! reader's contracts are stated over.
//!
//! The two envelope sniffs — the unilateral-push shape and the optional
//! top-level error field — need the codec's full decoder, and that decoder
//! is not total: on hostile bytes it can panic (a BSER string may declare a
//! negative length).  A trusted contract must hold on every input, so no
//! such call stands in this crate.  The embedding performs those decodes
//! where a panic can be contained, and hands the outcomes in as plain
//! values: [`crate::task::ReceivedPdu::unilateral`] for routing, and the
//! error-field argument of
//! [`crate::client::Client::interpret_response_pdu`] for the response
//! sniff.  The engine's logic is verified for every value they may take.

use vstd::prelude::*;

verus! {

/// `serde_bser::value::Value` carries schema-less payload data (for example
/// the metadata of a state transition) through the engine opaquely.
#[verifier::external_type_specification]
#[verifier::external_body]
pub struct ExValue(serde_bser::value::Value);

/// What the codec's header sniff reads off the front of a buffer: the
/// payload start offset and the declared payload length, or nothing when
/// the buffer does not begin with a well-formed header.
pub uninterp spec fn pdu_header_of(b: Seq<u8>) -> Option<(i64, i64)>;

/// Relies on `serde_bser::de::Bunser::read_pdu`: it reads the magic bytes,
/// the capability word and the declared payload length off the front of the
/// buffer and reports where the payload starts.  On success the start
/// offset counts the bytes it consumed, so it is at most the buffer's
/// length and at most 16 (two magic bytes, four capability bytes, and a
/// length integer of at most nine bytes); it reads nothing else, so it
/// cannot panic.  The declared length is whatever the header says; a
/// malicious header may declare anything, so nothing more is assumed of it.
#[verifier::external_body]
pub fn sniff_pdu_header(buf: &Vec<u8>) -> (r: Result<(i64, i64), String>)
    ensures
        r matches Ok(h) ==> pdu_header_of(buf@) == Some(h) && 0 <= h.0 <= buf@.len() && h.0
            <= 16,
        r is Err ==> pdu_header_of(buf@) is None,
{
    let mut bunser = serde_bser::de::Bunser::new(serde_bser::de::SliceRead::new(buf.as_slice()));
    match bunser.read_pdu() {
        Ok(info) => Ok((info.start, info.len)),
        Err(e) => Err(e.to_string()),
    }
}

} // verus!
