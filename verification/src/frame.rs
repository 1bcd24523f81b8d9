//! Reassembling complete PDUs from raw transport reads.
//!
//! The reader knows only how to sniff a message's total length from its
//! header: the first chunk read off the transport is sniffed for the
//! payload's start offset and declared length, `total = start + length`,
//! and further chunks are accumulated until exactly `total` bytes are
//! buffered.  A zero-byte read before completion is an unexpected
//! end-of-stream, not a short read to retry; a header that cannot be
//! sniffed, or that declares an impossible size, leaves the stream
//! desynchronized and is fatal for the connection.

use vstd::prelude::*;

use crate::codec::pdu_header_of;
use crate::codec::sniff_pdu_header;
use crate::error::Error;

verus! {

/// A PDU being accumulated: the bytes buffered so far and the total the
/// header declared.
pub struct PduAssembly {
    pub buf: Vec<u8>,
    pub total: usize,
}

impl PduAssembly {
    /// The buffer never runs past the declared total.
    pub open spec fn wf(self) -> bool {
        self.buf@.len() <= self.total
    }

    /// All declared bytes are buffered.
    pub open spec fn complete(self) -> bool {
        self.buf@.len() == self.total
    }

    /// How many more transport bytes this PDU still needs.
    pub fn bytes_needed(&self) -> (n: usize)
        requires
            self.wf(),
        ensures
            n == self.total - self.buf@.len(),
            n == 0 <==> self.complete(),
    {
        self.total - self.buf.len()
    }

    /// Account for one more transport read.  A zero-byte read before
    /// completion means the stream ended mid-message; otherwise the chunk
    /// is appended and the result says whether the PDU is now complete.
    pub fn extend_pdu(&mut self, chunk: Vec<u8>) -> (r: Result<bool, Error>)
        requires
            old(self).wf(),
            chunk@.len() <= old(self).total - old(self).buf@.len(),
        ensures
            final(self).wf(),
            chunk@.len() == 0 ==> r == Err::<bool, Error>(Error::Eof) && *final(self)
                == *old(self),
            chunk@.len() > 0 ==> r == Ok::<bool, Error>(final(self).complete())
                && final(self).buf@ == old(self).buf@ + chunk@
                && final(self).total == old(self).total,
    {
        if chunk.len() == 0 {
            return Err(Error::Eof);
        }
        let mut chunk = chunk;
        self.buf.append(&mut chunk);
        Ok(self.buf.len() == self.total)
    }

    /// Hand the completed PDU over: exactly as many bytes as the header
    /// declared, the sniffed chunk first and every later chunk in arrival
    /// order.
    pub fn finish(self) -> (pdu: Vec<u8>)
        requires
            self.complete(),
        ensures
            pdu@ == self.buf@,
            pdu@.len() == self.total,
    {
        self.buf
    }
}

/// Start assembling a PDU from the first chunk read off the transport.
///
/// The chunk must be a prefix of the stream of at least the minimum full
/// message size (the embedding reads up to 16 bytes).  An empty chunk is an
/// end-of-stream; a chunk whose header cannot be sniffed is a fatal decode
/// failure; a header whose declared total does not fit in memory, or is
/// smaller than what was already read, is equally fatal.  Otherwise the
/// assembly starts out holding the chunk and owing `start + length` bytes
/// in total.
pub fn begin_pdu(chunk: Vec<u8>) -> (r: Result<PduAssembly, Error>)
    ensures
        r matches Ok(a) ==> {
            &&& chunk@.len() > 0
            &&& pdu_header_of(chunk@) matches Some(h)
            &&& h.1 >= 0
            &&& a.total == h.0 + h.1
            &&& a.buf@ == chunk@
            &&& a.wf()
        },
        (chunk@.len() > 0 && (pdu_header_of(chunk@) matches Some(h) && h.1 >= 0 && h.0 + h.1
            <= usize::MAX && chunk@.len() <= h.0 + h.1)) ==> r is Ok,
        chunk@.len() == 0 ==> r == Err::<PduAssembly, Error>(Error::Eof),
        (match r {
            Err(Error::Eof) => chunk@.len() == 0,
            Err(Error::Deserialize { data, .. }) => data@ == chunk@,
            Err(_) => false,
            Ok(_) => true,
        }),
{
    if chunk.len() == 0 {
        return Err(Error::Eof);
    }
    let header = match sniff_pdu_header(&chunk) {
        Ok(h) => h,
        Err(message) => {
            return Err(Error::Deserialize { message, data: chunk });
        },
    };
    let (start, len) = header;
    if len < 0 {
        return Err(
            Error::Deserialize {
                message: String::from_str("the PDU header declares a negative length"),
                data: chunk,
            },
        );
    }
    let total_wide: u64 = (start as u64) + (len as u64);
    if total_wide > (usize::MAX as u64) {
        return Err(
            Error::Deserialize {
                message: String::from_str("the PDU header declares a length beyond memory"),
                data: chunk,
            },
        );
    }
    let total: usize = total_wide as usize;
    if total < chunk.len() {
        return Err(
            Error::Deserialize {
                message: String::from_str(
                    "the PDU header declares less than was already read",
                ),
                data: chunk,
            },
        );
    }
    Ok(PduAssembly { buf: chunk, total })
}

} // verus!
