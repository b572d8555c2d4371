//! The two substream upgrade protocols.  Each substream carries
//! exactly one request and one response: the inbound side reads one
//! framed request and hands the still-open substream back, the
//! outbound side writes one framed request and reads one framed
//! response.  Both are pure here: the driver does the reading and
//! writing and feeds the bytes through these functions.

use vstd::prelude::*;

use crate::bytes::copy_bytes;
use crate::framing::{frame_spec, lemma_frame_limit, read_one, read_one_spec, write_one, FramingError};
use crate::schema::{
    decode_request, decode_request_spec, decode_response, decode_response_spec,
    encode_request_spec, encode_response_spec, lemma_request_round_trip,
    lemma_response_round_trip, FinalityProofRequest, FinalityProofResponse,
};
use crate::types::BlockHash;

verus! {

/// End to end on the requesting wire: a framed encoded request that
/// fits the reader's limit is read back whole and decodes to exactly
/// the hash and request bytes it was built from; one that does not
/// fit is refused at read time, before any payload is buffered,
/// whatever the sender's own limits were.
pub proof fn lemma_request_wire_round_trip(h: Seq<u8>, q: Seq<u8>, max: u64)
    requires
        h.len() <= u64::MAX,
        q.len() <= u64::MAX,
        encode_request_spec(h, q).len() <= u64::MAX,
    ensures
        encode_request_spec(h, q).len() <= max ==> {
            &&& read_one_spec(frame_spec(encode_request_spec(h, q)), max) == Ok::<
                Seq<u8>,
                FramingError,
            >(encode_request_spec(h, q))
            &&& decode_request_spec(encode_request_spec(h, q)) == Some((h, q))
        },
        encode_request_spec(h, q).len() > max ==> read_one_spec(
            frame_spec(encode_request_spec(h, q)),
            max,
        ) == Err::<Seq<u8>, FramingError>(
            FramingError::TooLarge { requested: encode_request_spec(h, q).len() as u64, max },
        ),
{
    lemma_frame_limit(encode_request_spec(h, q), max);
    lemma_request_round_trip(h, q);
}

/// End to end on the answering wire: a framed encoded response that
/// fits the reader's limit decodes to exactly the proof bytes it was
/// built from; an oversized one aborts the read instead of buffering
/// the payload.
pub proof fn lemma_response_wire_round_trip(p: Seq<u8>, max: u64)
    requires
        p.len() <= u64::MAX,
        encode_response_spec(p).len() <= u64::MAX,
    ensures
        encode_response_spec(p).len() <= max ==> {
            &&& read_one_spec(frame_spec(encode_response_spec(p)), max) == Ok::<
                Seq<u8>,
                FramingError,
            >(encode_response_spec(p))
            &&& decode_response_spec(encode_response_spec(p)) == Some(p)
        },
        encode_response_spec(p).len() > max ==> read_one_spec(
            frame_spec(encode_response_spec(p)),
            max,
        ) == Err::<Seq<u8>, FramingError>(
            FramingError::TooLarge { requested: encode_response_spec(p).len() as u64, max },
        ),
{
    lemma_frame_limit(encode_response_spec(p), max);
    lemma_response_round_trip(p);
}

/// Why an upgrade failed.  Either kind is protocol-level: the
/// transport layer is expected to treat it as justification for
/// disconnecting the peer.
#[derive(Clone, Copy, Debug, PartialEq, Eq, Structural)]
pub enum UpgradeError {
    /// The length framing was refused: indicator malformed, payload
    /// truncated, or declared length over the reader's limit.
    Framing(FramingError),
    /// The framed payload was not a well-formed message.
    Decode,
}

/// Server side of one substream upgrade: read one framed request,
/// bounded by the configured maximum, and decode it.
#[derive(Clone, Debug)]
pub struct InboundProtocol {
    /// Bound on the length of an incoming request.
    pub max_request_len: usize,
    /// The identifier to negotiate, or `None` to refuse the protocol
    /// outright.
    pub protocol: Option<Vec<u8>>,
}

impl InboundProtocol {
    /// The protocol identifiers offered during upgrade negotiation:
    /// none at all when the node cannot answer requests - negotiation
    /// then always fails to match on this node - or else exactly one.
    pub fn protocol_info(&self) -> (r: Vec<Vec<u8>>)
        ensures
            self.protocol is None ==> r@.len() == 0,
            (self.protocol matches Some(p) ==> r@.len() == 1 && r@[0]@ == p@),
    {
        match &self.protocol {
            None => Vec::new(),
            Some(p) => {
                let mut v: Vec<Vec<u8>> = Vec::new();
                v.push(copy_bytes(p));
                v
            },
        }
    }

    /// Parses what was read from an accepted substream: one framed
    /// request, its declared length held to `max_request_len` before
    /// any payload is buffered.  On success the caller hands the
    /// decoded request together with the still-open substream to the
    /// behaviour; this upgrade never writes the response itself.
    pub fn upgrade_inbound(&self, received: &Vec<u8>) -> (r: Result<
        FinalityProofRequest,
        UpgradeError,
    >)
        ensures
            match read_one_spec(received@, self.max_request_len as u64) {
                Err(e) => r == Err::<FinalityProofRequest, UpgradeError>(UpgradeError::Framing(e)),
                Ok(msg) => match decode_request_spec(msg) {
                    None => r == Err::<FinalityProofRequest, UpgradeError>(UpgradeError::Decode),
                    Some(f) => r matches Ok(m) && m.block_hash@ == f.0 && m.request@ == f.1,
                },
            },
    {
        match read_one(received, self.max_request_len) {
            Err(e) => Err(UpgradeError::Framing(e)),
            Ok(payload) => match decode_request(&payload) {
                None => Err(UpgradeError::Decode),
                Some(m) => Ok(m),
            },
        }
    }
}

/// Client side of one substream upgrade: write one framed request,
/// then read one framed response.  The block hash travels inside this
/// value, so the response correlates with its request by value alone,
/// never through a request-id table.
#[derive(Clone, Debug)]
pub struct OutboundProtocol {
    /// The serialized wire request.
    pub request: Vec<u8>,
    /// Block hash that has been requested.
    pub block_hash: BlockHash,
    /// Bound on the length of the incoming response.
    pub max_response_size: usize,
    /// The identifier to negotiate.
    pub protocol: Vec<u8>,
}

impl OutboundProtocol {
    /// The protocol identifiers offered during upgrade negotiation:
    /// exactly the configured one.
    pub fn protocol_info(&self) -> (r: Vec<Vec<u8>>)
        ensures
            r@.len() == 1,
            r@[0]@ == self.protocol@,
    {
        let mut v: Vec<Vec<u8>> = Vec::new();
        v.push(copy_bytes(&self.protocol));
        v
    }

    /// The bytes to write on the freshly opened substream: the request
    /// behind its length indicator.
    pub fn request_frame(&self) -> (r: Vec<u8>)
        ensures
            r@ == frame_spec(self.request@),
    {
        write_one(&self.request)
    }

    /// Parses what was read back: one framed response, its declared
    /// length held to `max_response_size` before any payload is
    /// buffered, paired with the original block hash so the behaviour
    /// can correlate and emit the caller event.
    pub fn upgrade_outbound(self, received: &Vec<u8>) -> (r: Result<
        (FinalityProofResponse, BlockHash),
        UpgradeError,
    >)
        ensures
            match read_one_spec(received@, self.max_response_size as u64) {
                Err(e) => r == Err::<(FinalityProofResponse, BlockHash), UpgradeError>(
                    UpgradeError::Framing(e),
                ),
                Ok(msg) => match decode_response_spec(msg) {
                    None => r == Err::<(FinalityProofResponse, BlockHash), UpgradeError>(
                        UpgradeError::Decode,
                    ),
                    Some(p) => r matches Ok(t) && t.0.proof_bytes@ == p && t.1
                        == self.block_hash,
                },
            },
    {
        match read_one(received, self.max_response_size) {
            Err(e) => Err(UpgradeError::Framing(e)),
            Ok(payload) => match decode_response(&payload) {
                None => Err(UpgradeError::Decode),
                Some(m) => Ok((m, self.block_hash)),
            },
        }
    }
}

} // verus!
