//! Configuration of the behaviour: size limits, inactivity timeout and
//! the protocol identifier derived from a chain identifier.  Immutable
//! once a behaviour is constructed.

use vstd::prelude::*;

use crate::bytes::push_all;

verus! {

/// Default bound on the length of an incoming request: one mebibyte.
pub const DEFAULT_MAX_REQUEST_LEN: usize = 1024 * 1024;

/// Default bound on the length of an incoming response: one mebibyte.
pub const DEFAULT_MAX_RESPONSE_LEN: usize = 1024 * 1024;

/// Default time a substream may stay inactive before it is closed.
pub const DEFAULT_INACTIVITY_TIMEOUT_MS: u64 = 15 * 1000;

/// The version suffix of the protocol identifier: "/finality-proof/1".
pub open spec fn protocol_suffix() -> Seq<u8> {
    seq![
        47u8,
        102u8,
        105u8,
        110u8,
        97u8,
        108u8,
        105u8,
        116u8,
        121u8,
        45u8,
        112u8,
        114u8,
        111u8,
        111u8,
        102u8,
        47u8,
        49u8,
    ]
}

/// The identifier negotiated for this protocol:
/// "/" + chain identifier + "/finality-proof/1".
pub open spec fn protocol_name_spec(id: Seq<u8>) -> Seq<u8> {
    seq![47u8] + id + protocol_suffix()
}

/// Builds the protocol identifier for the chain identifier `id`.
fn build_protocol_name(id: &Vec<u8>) -> (r: Vec<u8>)
    ensures
        r@ == protocol_name_spec(id@),
{
    let mut v: Vec<u8> = Vec::new();
    v.push(47);
    push_all(&mut v, id);
    v.push(47);
    v.push(102);
    v.push(105);
    v.push(110);
    v.push(97);
    v.push(108);
    v.push(105);
    v.push(116);
    v.push(121);
    v.push(45);
    v.push(112);
    v.push(114);
    v.push(111);
    v.push(111);
    v.push(102);
    v.push(47);
    v.push(49);
    proof {
        assert(v@ =~= protocol_name_spec(id@));
    }
    v
}

/// Configuration options of the behaviour.
#[derive(Clone, Debug)]
pub struct Config {
    max_request_len: usize,
    max_response_len: usize,
    inactivity_timeout_ms: u64,
    protocol: Vec<u8>,
}

impl Config {
    /// The bound on the length of an incoming request.
    pub closed spec fn spec_max_request_len(&self) -> usize {
        self.max_request_len
    }

    /// The bound on the length of an incoming response.
    pub closed spec fn spec_max_response_len(&self) -> usize {
        self.max_response_len
    }

    /// The inactivity timeout, in milliseconds.
    pub closed spec fn spec_inactivity_timeout_ms(&self) -> u64 {
        self.inactivity_timeout_ms
    }

    /// The protocol identifier used during upgrade negotiation.
    pub closed spec fn spec_protocol(&self) -> Seq<u8> {
        self.protocol@
    }

    /// A fresh configuration for the chain identifier `id`, with the
    /// default size limits and inactivity timeout.
    pub fn new(id: &Vec<u8>) -> (r: Config)
        ensures
            r.spec_max_request_len() == DEFAULT_MAX_REQUEST_LEN,
            r.spec_max_response_len() == DEFAULT_MAX_RESPONSE_LEN,
            r.spec_inactivity_timeout_ms() == DEFAULT_INACTIVITY_TIMEOUT_MS,
            r.spec_protocol() == protocol_name_spec(id@),
    {
        Config {
            max_request_len: DEFAULT_MAX_REQUEST_LEN,
            max_response_len: DEFAULT_MAX_RESPONSE_LEN,
            inactivity_timeout_ms: DEFAULT_INACTIVITY_TIMEOUT_MS,
            protocol: build_protocol_name(id),
        }
    }

    /// Limits the length of incoming request bytes.
    pub fn set_max_request_len(&mut self, v: usize)
        ensures
            final(self).spec_max_request_len() == v,
            final(self).spec_max_response_len() == old(self).spec_max_response_len(),
            final(self).spec_inactivity_timeout_ms() == old(self).spec_inactivity_timeout_ms(),
            final(self).spec_protocol() == old(self).spec_protocol(),
    {
        self.max_request_len = v;
    }

    /// Limits the length of incoming response bytes.
    pub fn set_max_response_len(&mut self, v: usize)
        ensures
            final(self).spec_max_response_len() == v,
            final(self).spec_max_request_len() == old(self).spec_max_request_len(),
            final(self).spec_inactivity_timeout_ms() == old(self).spec_inactivity_timeout_ms(),
            final(self).spec_protocol() == old(self).spec_protocol(),
    {
        self.max_response_len = v;
    }

    /// Limits how long a substream may stay inactive before closing.
    pub fn set_inactivity_timeout_ms(&mut self, v: u64)
        ensures
            final(self).spec_inactivity_timeout_ms() == v,
            final(self).spec_max_request_len() == old(self).spec_max_request_len(),
            final(self).spec_max_response_len() == old(self).spec_max_response_len(),
            final(self).spec_protocol() == old(self).spec_protocol(),
    {
        self.inactivity_timeout_ms = v;
    }

    /// Sets the protocol identifier from the chain identifier `id`.
    pub fn set_protocol(&mut self, id: &Vec<u8>)
        ensures
            final(self).spec_protocol() == protocol_name_spec(id@),
            final(self).spec_max_request_len() == old(self).spec_max_request_len(),
            final(self).spec_max_response_len() == old(self).spec_max_response_len(),
            final(self).spec_inactivity_timeout_ms() == old(self).spec_inactivity_timeout_ms(),
    {
        self.protocol = build_protocol_name(id);
    }

    /// The bound on the length of an incoming request.
    pub fn max_request_len(&self) -> (r: usize)
        ensures
            r == self.spec_max_request_len(),
    {
        self.max_request_len
    }

    /// The bound on the length of an incoming response.
    pub fn max_response_len(&self) -> (r: usize)
        ensures
            r == self.spec_max_response_len(),
    {
        self.max_response_len
    }

    /// The inactivity timeout, in milliseconds.
    pub fn inactivity_timeout_ms(&self) -> (r: u64)
        ensures
            r == self.spec_inactivity_timeout_ms(),
    {
        self.inactivity_timeout_ms
    }

    /// The protocol identifier used during upgrade negotiation.
    pub fn protocol(&self) -> (r: &Vec<u8>)
        ensures
            r@ == self.spec_protocol(),
    {
        &self.protocol
    }
}

} // verus!
