//! The request for a span of epoch change proofs, and its wire form.

use vstd::prelude::*;
use vstd::bytes::{
    lemma_auto_spec_u64_to_from_le_bytes, spec_u64_from_le_bytes, spec_u64_to_le_bytes,
    u64_from_le_bytes, u64_to_le_bytes,
};
use vstd::slice::slice_subrange;

verus! {

/// The number of bytes in an encoded request.
pub const REQUEST_BYTES: usize = 16;

/// Asks for the epoch change proofs that lead from `start_epoch` up to, and
/// not including, `end_epoch`.
#[derive(Clone, Copy, Debug, PartialEq, Eq, Structural)]
pub struct EpochRetrievalRequest {
    pub start_epoch: u64,
    pub end_epoch: u64,
}

impl EpochRetrievalRequest {
    /// The wire form of the request: the two epochs, each as eight
    /// little-endian bytes, the start first.
    pub open spec fn encoding(self) -> Seq<u8> {
        spec_u64_to_le_bytes(self.start_epoch) + spec_u64_to_le_bytes(self.end_epoch)
    }

    /// The request that `bytes` encode, if they are sixteen.
    pub open spec fn decoding(bytes: Seq<u8>) -> Option<EpochRetrievalRequest> {
        if bytes.len() == REQUEST_BYTES {
            Some(
                EpochRetrievalRequest {
                    start_epoch: spec_u64_from_le_bytes(bytes.subrange(0, 8)),
                    end_epoch: spec_u64_from_le_bytes(bytes.subrange(8, 16)),
                },
            )
        } else {
            None
        }
    }

    /// Encodes the request.
    pub fn to_bytes(&self) -> (bytes: Vec<u8>)
        ensures
            bytes@ == self.encoding(),
            bytes@.len() == REQUEST_BYTES,
    {
        let mut bytes = u64_to_le_bytes(self.start_epoch);
        let mut end = u64_to_le_bytes(self.end_epoch);
        bytes.append(&mut end);
        bytes
    }

    /// Decodes a request; `None` unless `bytes` are sixteen.
    pub fn from_bytes(bytes: &[u8]) -> (request: Option<EpochRetrievalRequest>)
        ensures
            request == Self::decoding(bytes@),
    {
        if bytes.len() != REQUEST_BYTES {
            return None;
        }
        let start_epoch = u64_from_le_bytes(slice_subrange(bytes, 0, 8));
        let end_epoch = u64_from_le_bytes(slice_subrange(bytes, 8, 16));
        Some(EpochRetrievalRequest { start_epoch, end_epoch })
    }
}

/// A request that is encoded and then decoded comes back unchanged.
pub proof fn lemma_request_round_trip(request: EpochRetrievalRequest)
    ensures
        EpochRetrievalRequest::decoding(request.encoding()) == Some(request),
{
    lemma_auto_spec_u64_to_from_le_bytes();
    let first = spec_u64_to_le_bytes(request.start_epoch);
    let second = spec_u64_to_le_bytes(request.end_epoch);
    assert(request.encoding().subrange(0, 8) =~= first);
    assert(request.encoding().subrange(8, 16) =~= second);
}

/// Sixteen bytes that are decoded and then encoded come back unchanged, so
/// no two requests share an encoding and every sixteen bytes are one.
pub proof fn lemma_bytes_round_trip(bytes: Seq<u8>)
    requires
        bytes.len() == REQUEST_BYTES,
    ensures
        EpochRetrievalRequest::decoding(bytes) matches Some(request) && request.encoding()
            == bytes,
{
    lemma_auto_spec_u64_to_from_le_bytes();
    let request = EpochRetrievalRequest::decoding(bytes)->0;
    assert(request.encoding() =~= bytes.subrange(0, 8) + bytes.subrange(8, 16));
    assert(bytes.subrange(0, 8) + bytes.subrange(8, 16) =~= bytes);
}

} // verus!
