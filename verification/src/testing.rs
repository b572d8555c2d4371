//! Mock set-up for exercising the behaviour: a fixed chain identity
//! with two peers, and a builder for the externalities a test
//! exchange runs in.  The crate's own tests drive full request and
//! response exchanges over these.

use vstd::prelude::*;

use crate::config::{protocol_name_spec, Config};
use crate::types::PeerId;

verus! {

/// The fixed parameters of the mock set-up: the chain identifier
/// "test" and one peer on either side of the exchange.
pub struct Test;

impl Test {
    /// The mock chain identifier, "test".
    pub fn chain_id() -> (r: Vec<u8>)
        ensures
            r@ == seq![116u8, 101u8, 115u8, 116u8],
    {
        let mut v: Vec<u8> = Vec::new();
        v.push(116);
        v.push(101);
        v.push(115);
        v.push(116);
        proof {
            assert(v@ =~= seq![116u8, 101u8, 115u8, 116u8]);
        }
        v
    }

    /// The peer that issues requests.
    pub fn requester_peer() -> (r: PeerId)
        ensures
            r == (PeerId { id: 1 }),
    {
        PeerId { id: 1 }
    }

    /// The peer that answers them.
    pub fn responder_peer() -> (r: PeerId)
        ensures
            r == (PeerId { id: 2 }),
    {
        PeerId { id: 2 }
    }
}

/// Builder of the externalities a behaviour test runs in.
pub struct ExtBuilder;

impl ExtBuilder {
    /// One configuration for either side of an exchange, both derived
    /// from the mock chain identifier, with the default limits.
    pub fn build() -> (r: (Config, Config))
        ensures
            r.0.spec_protocol() == protocol_name_spec(seq![116u8, 101u8, 115u8, 116u8]),
            r.1.spec_protocol() == r.0.spec_protocol(),
            r.0.spec_max_request_len() == r.1.spec_max_request_len(),
            r.0.spec_max_response_len() == r.1.spec_max_response_len(),
    {
        let id = Test::chain_id();
        (Config::new(&id), Config::new(&id))
    }
}

} // verus!
