//! Plain value types shared by the protocol and the behaviour: peers,
//! block hashes, caller events and the inbound-handling errors.

use vstd::prelude::*;

use crate::bytes::{copy_bytes, copy_range};

verus! {

/// Width of a block hash in its canonical serialized form.
pub const HASH_LEN: usize = 32;

/// An opaque peer identity, carried through unchanged.
#[derive(Clone, Copy, Debug, PartialEq, Eq, Hash, Structural)]
pub struct PeerId {
    pub id: u64,
}

/// A block hash in the chain's canonical fixed-width serialization:
/// exactly `HASH_LEN` bytes.
#[derive(Clone, Debug, PartialEq, Eq)]
pub struct BlockHash {
    bytes: Vec<u8>,
}

impl View for BlockHash {
    type V = Seq<u8>;

    closed spec fn view(&self) -> Seq<u8> {
        self.bytes@
    }
}

impl BlockHash {
    /// A well-formed hash holds exactly `HASH_LEN` bytes.
    pub open spec fn wf(&self) -> bool {
        self@.len() == HASH_LEN
    }

    /// A hash from its serialized bytes; exactly `HASH_LEN` of them.
    pub fn from_bytes(bytes: Vec<u8>) -> (r: Option<BlockHash>)
        ensures
            bytes@.len() == HASH_LEN ==> (r matches Some(h) && h@ == bytes@ && h.wf()),
            bytes@.len() != HASH_LEN ==> r is None,
    {
        if bytes.len() == HASH_LEN {
            Some(BlockHash { bytes })
        } else {
            None
        }
    }

    /// The canonical serialization: the bytes themselves.
    pub fn encode(&self) -> (r: Vec<u8>)
        ensures
            r@ == self@,
    {
        copy_bytes(&self.bytes)
    }

    /// Deserialization from the front of `b`: the first `HASH_LEN`
    /// bytes; fails when fewer are present.
    pub fn decode(b: &Vec<u8>) -> (r: Option<BlockHash>)
        ensures
            b@.len() >= HASH_LEN ==> (r matches Some(h) && h@ == b@.subrange(0, HASH_LEN as int)
                && h.wf()),
            b@.len() < HASH_LEN ==> r is None,
    {
        if b.len() >= HASH_LEN {
            Some(BlockHash { bytes: copy_range(b, 0, HASH_LEN) })
        } else {
            None
        }
    }

    /// The serialized bytes.
    pub fn as_bytes(&self) -> (r: &Vec<u8>)
        ensures
            r@ == self@,
    {
        &self.bytes
    }
}

/// The one behaviour-level event ever emitted to the caller.
#[derive(Clone, Debug, PartialEq, Eq)]
pub enum Event {
    /// A response to a finality-proof request has arrived.
    Response {
        peer: PeerId,
        /// Block hash originally passed to `send_request`.
        block_hash: BlockHash,
        /// Finality proof returned by the remote; empty when the remote
        /// has none.
        proof_bytes: Vec<u8>,
    },
}

/// Why handling an inbound request produced no response.  Every one of
/// these is absorbed where it arises: the requester only ever sees
/// silence.
#[derive(Clone, Copy, Debug, PartialEq, Eq, Structural)]
pub enum HandlerError {
    /// The embedded block hash did not deserialize.
    Decode,
    /// The proof collaborator failed.
    CollaboratorFailure,
    /// No collaborator is configured, yet a request arrived: an
    /// internal invariant violation, since the inbound protocol is
    /// never offered without one.
    ProtocolUnavailable,
}

/// Failure of the external proof-computation collaborator.
#[derive(Clone, Copy, Debug, PartialEq, Eq, Structural)]
pub struct ProviderError {
    pub code: u64,
}

} // verus!
