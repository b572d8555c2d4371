//! The request/response orchestrator.  It owns the configuration, an
//! optional proof collaborator, a first-in first-out queue of pending
//! behaviour-level actions and an unordered pool of in-flight response
//! writes, and it bridges the upgrade protocols to the collaborator
//! and to its own caller.  It holds no locks: every state transition
//! happens synchronously inside one of these calls, driven by an
//! external event loop.

use vstd::prelude::*;

use std::collections::VecDeque;

use crate::config::Config;
use crate::protocol::{InboundProtocol, OutboundProtocol};
use crate::schema::{
    encode_request, encode_request_spec, encode_response, encode_response_spec,
    FinalityProofRequest, FinalityProofResponse,
};
use crate::types::{BlockHash, Event, HandlerError, PeerId, ProviderError, HASH_LEN};
use crate::bytes::copy_bytes;

verus! {

/// How to construct finality proofs: the single operation of the
/// external proof-computation collaborator.  `Ok(None)` means no proof
/// is available, which is answered exactly like an empty proof.  An
/// implementation must tolerate concurrent invocation from several
/// simultaneously arriving inbound requests.
pub trait FinalityProofProvider {
    /// Proves finality of `block_hash`; the request bytes mean
    /// whatever the implementation says they mean.
    fn prove_finality(&self, block_hash: &BlockHash, request: &Vec<u8>) -> Result<
        Option<Vec<u8>>,
        ProviderError,
    >;
}

/// One in-flight fire-and-forget response write: the still-open
/// substream of the request and the encoded response to write on it.
/// Outcomes of these writes are never observed by the caller.
pub struct ResponseWrite<S> {
    pub stream: S,
    pub data: Vec<u8>,
}

/// Output of an inbound or outbound substream upgrade, fed back into
/// the behaviour by the driver.
pub enum NodeEvent<S> {
    /// Incoming request from remote and the substream to answer on.
    Request { request: FinalityProofRequest, stream: S },
    /// Incoming response from remote, with the hash it answers.
    Response { response: FinalityProofResponse, block_hash: BlockHash },
}

/// A behaviour-level action awaiting delivery to the caller's poll
/// loop.
pub enum Action {
    /// Ask the transport to open a substream to `peer` and drive this
    /// outbound upgrade on it.
    NotifyHandler { peer: PeerId, protocol: OutboundProtocol },
    /// Deliver an event to the caller.
    GenerateEvent { event: Event },
}

/// The outcome of one scheduling tick.
pub enum PollOutcome<S> {
    /// The head of the pending action queue.
    Ready { action: Action },
    /// A scheduled response write for the driver to perform; its
    /// outcome is discarded by design.
    Flush { write: ResponseWrite<S> },
    /// Nothing to do this tick.
    Pending,
}

/// What a collaborator outcome puts on the wire: the proof bytes, or
/// the empty byte string when no proof is available.
pub open spec fn proof_payload(outcome: Option<Seq<u8>>) -> Seq<u8> {
    match outcome {
        Some(p) => p,
        None => Seq::<u8>::empty(),
    }
}

/// Documented ambiguity, left as observed: a response whose proof is
/// empty is identical on the wire whether the collaborator reported
/// "no proof available" or found a proof of zero bytes.
pub proof fn lemma_empty_proof_ambiguity()
    ensures
        proof_payload(None) == proof_payload(Some(Seq::<u8>::empty())),
        encode_response_spec(proof_payload(None)) == encode_response_spec(
            proof_payload(Some(Seq::<u8>::empty())),
        ),
{
}

/// Builds the wire response for a collaborator outcome.
pub fn response_for_outcome(outcome: Option<Vec<u8>>) -> (r: FinalityProofResponse)
    ensures
        r.proof_bytes@ == proof_payload(outcome.deep_view()),
{
    match outcome {
        Some(p) => FinalityProofResponse { proof_bytes: p },
        None => FinalityProofResponse { proof_bytes: Vec::new() },
    }
}

/// One response write was scheduled on `stream`: the pool grew by one
/// entry carrying some encoded response, and the rest is untouched.
pub open spec fn scheduled_response<S>(
    pre: Seq<ResponseWrite<S>>,
    post: Seq<ResponseWrite<S>>,
    stream: S,
) -> bool {
    &&& post.len() == pre.len() + 1
    &&& post.drop_last() == pre
    &&& post.last().stream == stream
    &&& (exists|p: Seq<u8>| post.last().data@ == encode_response_spec(p))
}

/// The finality proof request handling behaviour.
pub struct FinalityProofRequests<P, S> {
    /// This behaviour's configuration.
    config: Config,
    /// How to construct finality proofs.
    provider: Option<P>,
    /// In-flight writes sending back already-computed responses.
    outgoing: Vec<ResponseWrite<S>>,
    /// Actions to return as soon as possible from `poll`.
    pending_events: VecDeque<Action>,
}

impl<P: FinalityProofProvider, S> FinalityProofRequests<P, S> {
    /// The configuration, unchanged since construction.
    pub closed spec fn spec_config(&self) -> Config {
        self.config
    }

    /// Whether a proof collaborator is configured.
    pub closed spec fn spec_has_provider(&self) -> bool {
        self.provider is Some
    }

    /// The pending action queue, oldest first.
    pub closed spec fn spec_pending_events(&self) -> Seq<Action> {
        self.pending_events@
    }

    /// The pool of in-flight response writes.  Its order carries no
    /// meaning.
    pub closed spec fn spec_outgoing(&self) -> Seq<ResponseWrite<S>> {
        self.outgoing@
    }

    /// Initializes the behaviour.  Without a proof collaborator the
    /// behaviour will never support the inbound protocol.
    pub fn new(config: Config, provider: Option<P>) -> (r: Self)
        ensures
            r.spec_config() == config,
            r.spec_has_provider() == provider is Some,
            r.spec_pending_events() == Seq::<Action>::empty(),
            r.spec_outgoing() == Seq::<ResponseWrite<S>>::empty(),
    {
        FinalityProofRequests {
            config,
            provider,
            outgoing: Vec::new(),
            pending_events: VecDeque::new(),
        }
    }

    /// The per-connection handler: the inbound upgrade protocol this
    /// node offers.  Without a collaborator it offers no identifier at
    /// all, so inbound negotiation for this protocol always fails on
    /// this node and no request can ever be accepted here.
    pub fn new_handler(&self) -> (r: InboundProtocol)
        ensures
            r.max_request_len == self.spec_config().spec_max_request_len(),
            self.spec_has_provider() ==> (r.protocol matches Some(p) && p@
                == self.spec_config().spec_protocol()),
            !self.spec_has_provider() ==> r.protocol is None,
    {
        InboundProtocol {
            max_request_len: self.config.max_request_len(),
            protocol: if self.provider.is_some() {
                Some(copy_bytes(self.config.protocol()))
            } else {
                None
            },
        }
    }

    /// Issues a new finality-proof request: serializes the block hash,
    /// builds and encodes the wire request, and appends an outbound
    /// notification for `target` to the pending queue.  The call
    /// returns at once whatever the target's reachability; its one
    /// effect is the appended queue entry, and no bound is placed on
    /// how many requests may be outstanding.  If the response does not
    /// arrive in time, or the remote answers improperly, the transport
    /// layer is expected to disconnect the target.
    pub fn send_request(&mut self, target: PeerId, block_hash: BlockHash, request: Vec<u8>)
        ensures
            final(self).spec_config() == old(self).spec_config(),
            final(self).spec_has_provider() == old(self).spec_has_provider(),
            final(self).spec_outgoing() == old(self).spec_outgoing(),
            final(self).spec_pending_events().len() == old(self).spec_pending_events().len() + 1,
            final(self).spec_pending_events().drop_last() == old(self).spec_pending_events(),
            (match final(self).spec_pending_events().last() {
                Action::NotifyHandler { peer, protocol } => {
                    &&& peer == target
                    &&& protocol.request@ == encode_request_spec(block_hash@, request@)
                    &&& protocol.block_hash == block_hash
                    &&& protocol.max_response_size == old(self).spec_config().spec_max_response_len()
                    &&& protocol.protocol@ == old(self).spec_config().spec_protocol()
                },
                _ => false,
            }),
    {
        let hash_bytes = block_hash.encode();
        let wire = FinalityProofRequest { block_hash: hash_bytes, request };
        let buf = encode_request(&wire);
        let action = Action::NotifyHandler {
            peer: target,
            protocol: OutboundProtocol {
                request: buf,
                block_hash,
                max_response_size: self.config.max_response_len(),
                protocol: copy_bytes(self.config.protocol()),
            },
        };
        self.pending_events.push_back(action);
        proof {
            assert(self.pending_events@.drop_last() =~= old(self).pending_events@);
        }
    }

    /// Answers one decoded inbound request from local knowledge.  The
    /// embedded block hash is deserialized first; then the
    /// collaborator, if any, is asked for a proof.  Every failure -
    /// malformed hash, missing collaborator, collaborator error - is
    /// absorbed by the caller of this function: no response is sent
    /// and nothing ever surfaces through `poll` for it.
    pub fn on_finality_request(&self, request: &FinalityProofRequest) -> (r: Result<
        FinalityProofResponse,
        HandlerError,
    >)
        ensures
            request.block_hash@.len() < HASH_LEN ==> r == Err::<FinalityProofResponse, HandlerError>(
                HandlerError::Decode,
            ),
            request.block_hash@.len() >= HASH_LEN && !self.spec_has_provider() ==> r == Err::<
                FinalityProofResponse,
                HandlerError,
            >(HandlerError::ProtocolUnavailable),
            request.block_hash@.len() >= HASH_LEN && self.spec_has_provider() ==> (r is Ok || r
                == Err::<FinalityProofResponse, HandlerError>(HandlerError::CollaboratorFailure)),
    {
        let block_hash = match BlockHash::decode(&request.block_hash) {
            None => {
                return Err(HandlerError::Decode);
            },
            Some(h) => h,
        };
        match &self.provider {
            Some(provider) => match provider.prove_finality(&block_hash, &request.request) {
                Ok(outcome) => Ok(response_for_outcome(outcome)),
                Err(_) => Err(HandlerError::CollaboratorFailure),
            },
            None => Err(HandlerError::ProtocolUnavailable),
        }
    }

    /// Feeds one completed substream upgrade back into the behaviour.
    /// A response becomes a caller event, appended in arrival order.
    /// A request is answered by scheduling a fire-and-forget write of
    /// the encoded response on the same substream: no caller event is
    /// ever emitted for it, and when handling fails in any way the
    /// behaviour is left unchanged - the requester sees silence.
    pub fn inject_event(&mut self, peer: PeerId, event: NodeEvent<S>)
        ensures
            final(self).spec_config() == old(self).spec_config(),
            final(self).spec_has_provider() == old(self).spec_has_provider(),
            (match event {
                NodeEvent::Response { response, block_hash } => {
                    &&& final(self).spec_outgoing() == old(self).spec_outgoing()
                    &&& final(self).spec_pending_events() == old(self).spec_pending_events().push(
                        (Action::GenerateEvent {
                            event: (Event::Response {
                                peer,
                                block_hash,
                                proof_bytes: response.proof_bytes,
                            }),
                        }),
                    )
                },
                NodeEvent::Request { request, stream } => {
                    &&& final(self).spec_pending_events() == old(self).spec_pending_events()
                    &&& (request.block_hash@.len() < HASH_LEN || !old(self).spec_has_provider()
                        ==> final(self).spec_outgoing() == old(self).spec_outgoing())
                    &&& (final(self).spec_outgoing() == old(self).spec_outgoing()
                        || (request.block_hash@.len() >= HASH_LEN && old(self).spec_has_provider()
                            && scheduled_response(
                            old(self).spec_outgoing(),
                            final(self).spec_outgoing(),
                            stream,
                        )))
                },
            }),
    {
        match event {
            NodeEvent::Request { request, stream } => {
                match self.on_finality_request(&request) {
                    Ok(res) => {
                        let data = encode_response(&res);
                        let ghost payload = res.proof_bytes@;
                        self.outgoing.push(ResponseWrite { stream, data });
                        proof {
                            assert(self.outgoing@.drop_last() =~= old(self).outgoing@);
                            assert(self.outgoing@.last().data@ == encode_response_spec(payload));
                        }
                    },
                    Err(_) => {
                        // Absorbed: a log line in spirit, no response sent.
                    },
                }
            },
            NodeEvent::Response { response, block_hash } => {
                self.pending_events.push_back(
                    Action::GenerateEvent {
                        event: Event::Response { peer, block_hash, proof_bytes: response.proof_bytes },
                    },
                );
            },
        }
    }

    /// One scheduling tick.  The head of the pending action queue is
    /// delivered first, preserving enqueue order; otherwise one
    /// scheduled response write is handed to the driver, with no
    /// ordering promised among such writes; otherwise there is nothing
    /// to do.
    pub fn poll(&mut self) -> (r: PollOutcome<S>)
        ensures
            final(self).spec_config() == old(self).spec_config(),
            final(self).spec_has_provider() == old(self).spec_has_provider(),
            old(self).spec_pending_events().len() > 0 ==> {
                &&& r == (PollOutcome::Ready::<S> { action: old(self).spec_pending_events()[0] })
                &&& final(self).spec_pending_events() == old(self).spec_pending_events().skip(1)
                &&& final(self).spec_outgoing() == old(self).spec_outgoing()
            },
            old(self).spec_pending_events().len() == 0 && old(self).spec_outgoing().len() > 0 ==> {
                &&& final(self).spec_pending_events() == old(self).spec_pending_events()
                &&& (match r {
                    PollOutcome::Flush { write } => {
                        &&& old(self).spec_outgoing().to_multiset()
                            == final(self).spec_outgoing().to_multiset().insert(write)
                        &&& final(self).spec_outgoing().len() + 1 == old(self).spec_outgoing().len()
                    },
                    _ => false,
                })
            },
            old(self).spec_pending_events().len() == 0 && old(self).spec_outgoing().len() == 0
                ==> {
                &&& r == PollOutcome::<S>::Pending
                &&& final(self).spec_pending_events() == old(self).spec_pending_events()
                &&& final(self).spec_outgoing() == old(self).spec_outgoing()
            },
    {
        match self.pending_events.pop_front() {
            Some(action) => {
                proof {
                    assert(self.pending_events@ =~= old(self).pending_events@.skip(1));
                }
                PollOutcome::Ready { action }
            },
            None => match self.outgoing.pop() {
                Some(write) => {
                    proof {
                        broadcast use vstd::seq_lib::group_to_multiset_ensures;

                        assert(old(self).outgoing@ =~= self.outgoing@.push(write));
                    }
                    PollOutcome::Flush { write }
                },
                None => PollOutcome::Pending,
            },
        }
    }
}

} // verus!
