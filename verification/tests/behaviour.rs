//! End-to-end behaviour tests: two orchestrators joined by a driver
//! that moves bytes between them, plus the absorbed inbound failures.

use finality_requests::behaviour::{
    Action, FinalityProofProvider, FinalityProofRequests, NodeEvent, PollOutcome,
    response_for_outcome,
};
use finality_requests::config::Config;
use finality_requests::framing::{write_one, FramingError};
use finality_requests::protocol::{OutboundProtocol, UpgradeError};
use finality_requests::schema::FinalityProofRequest;
use finality_requests::testing::{ExtBuilder, Test};
use finality_requests::types::{BlockHash, Event, HandlerError, PeerId, ProviderError};

/// A collaborator that answers every request with one fixed outcome.
struct ConstProvider {
    outcome: Result<Option<Vec<u8>>, ProviderError>,
}

impl FinalityProofProvider for ConstProvider {
    fn prove_finality(
        &self,
        _block_hash: &BlockHash,
        _request: &Vec<u8>,
    ) -> Result<Option<Vec<u8>>, ProviderError> {
        self.outcome.clone()
    }
}

fn hash(fill: u8) -> BlockHash {
    BlockHash::from_bytes(vec![fill; 32]).unwrap()
}

fn requester(cfg: Config) -> FinalityProofRequests<ConstProvider, u32> {
    FinalityProofRequests::new(cfg, None)
}

fn responder(cfg: Config, outcome: Result<Option<Vec<u8>>, ProviderError>) -> FinalityProofRequests<ConstProvider, u32> {
    FinalityProofRequests::new(cfg, Some(ConstProvider { outcome }))
}

/// Takes the next outbound notification off the queue.
fn next_outbound(b: &mut FinalityProofRequests<ConstProvider, u32>, expect_peer: PeerId) -> OutboundProtocol {
    match b.poll() {
        PollOutcome::Ready { action: Action::NotifyHandler { peer, protocol } } => {
            assert_eq!(peer, expect_peer);
            protocol
        },
        _ => panic!("expected an outbound notification"),
    }
}

/// Takes the next caller event off the queue.
fn next_event(b: &mut FinalityProofRequests<ConstProvider, u32>) -> Event {
    match b.poll() {
        PollOutcome::Ready { action: Action::GenerateEvent { event } } => event,
        _ => panic!("expected a caller event"),
    }
}

/// Drives one full exchange: negotiation, request write and read,
/// inbound handling, response flush, response read, correlation.
fn exchange(
    req: &mut FinalityProofRequests<ConstProvider, u32>,
    resp: &mut FinalityProofRequests<ConstProvider, u32>,
    outbound: OutboundProtocol,
    stream: u32,
) {
    let handler = resp.new_handler();
    assert_eq!(handler.protocol_info(), outbound.protocol_info());

    let wire = outbound.request_frame();
    let request = handler.upgrade_inbound(&wire).expect("inbound upgrade");
    resp.inject_event(Test::requester_peer(), NodeEvent::Request { request, stream });

    let write = match resp.poll() {
        PollOutcome::Flush { write } => write,
        _ => panic!("expected a scheduled response write"),
    };
    assert_eq!(write.stream, stream);
    let response_wire = write_one(&write.data);

    let (response, block_hash) = outbound.upgrade_outbound(&response_wire).expect("outbound upgrade");
    req.inject_event(Test::responder_peer(), NodeEvent::Response { response, block_hash });
}

#[test]
fn scenario_proof_found() {
    let (req_cfg, resp_cfg) = ExtBuilder::build();
    let mut req = requester(req_cfg);
    let mut resp = responder(resp_cfg, Ok(Some(vec![1, 2, 3])));
    let h = hash(7);

    req.send_request(Test::responder_peer(), h.clone(), Vec::new());
    let outbound = next_outbound(&mut req, Test::responder_peer());
    exchange(&mut req, &mut resp, outbound, 40);

    let Event::Response { peer, block_hash, proof_bytes } = next_event(&mut req);
    assert_eq!(peer, Test::responder_peer());
    assert_eq!(block_hash, h);
    assert_eq!(proof_bytes, vec![1, 2, 3]);
    assert!(matches!(req.poll(), PollOutcome::Pending));
}

#[test]
fn scenario_no_proof_is_an_empty_proof() {
    let (req_cfg, resp_cfg) = ExtBuilder::build();
    let mut req = requester(req_cfg);
    let mut resp = responder(resp_cfg, Ok(None));
    let h = hash(9);

    req.send_request(Test::responder_peer(), h.clone(), vec![5, 5]);
    let outbound = next_outbound(&mut req, Test::responder_peer());
    exchange(&mut req, &mut resp, outbound, 41);

    let Event::Response { peer, block_hash, proof_bytes } = next_event(&mut req);
    assert_eq!(peer, Test::responder_peer());
    assert_eq!(block_hash, h);
    assert_eq!(proof_bytes, Vec::<u8>::new());
}

#[test]
fn scenario_no_collaborator_disables_negotiation() {
    let (req_cfg, resp_cfg) = ExtBuilder::build();
    let mut req = requester(req_cfg);
    let resp: FinalityProofRequests<ConstProvider, u32> = FinalityProofRequests::new(resp_cfg, None);

    req.send_request(Test::responder_peer(), hash(1), Vec::new());
    let outbound = next_outbound(&mut req, Test::responder_peer());

    // The responder offers no identifier at all: negotiation of the
    // requester's identifier can never match, the substream dies.
    let handler = resp.new_handler();
    assert!(handler.protocol_info().is_empty());
    assert!(!handler.protocol_info().contains(&outbound.protocol_info()[0]));

    // The requester never sees a response event.
    assert!(matches!(req.poll(), PollOutcome::Pending));
}

#[test]
fn scenario_oversized_response_aborts_read() {
    let (mut req_cfg, resp_cfg) = ExtBuilder::build();
    req_cfg.set_max_response_len(4);
    let mut req = requester(req_cfg);
    let mut resp = responder(resp_cfg, Ok(Some(vec![9; 9])));

    req.send_request(Test::responder_peer(), hash(3), Vec::new());
    let outbound = next_outbound(&mut req, Test::responder_peer());

    let handler = resp.new_handler();
    let wire = outbound.request_frame();
    let request = handler.upgrade_inbound(&wire).expect("inbound upgrade");
    resp.inject_event(Test::requester_peer(), NodeEvent::Request { request, stream: 50 });
    let write = match resp.poll() {
        PollOutcome::Flush { write } => write,
        _ => panic!("expected a scheduled response write"),
    };

    // Eleven bytes on the wire against a four-byte budget: the read
    // aborts without buffering the payload.
    let response_wire = write_one(&write.data);
    assert_eq!(
        outbound.upgrade_outbound(&response_wire),
        Err(UpgradeError::Framing(FramingError::TooLarge { requested: 11, max: 4 }))
    );
}

#[test]
fn scenario_oversized_request_rejected_by_reader_not_sender() {
    let (req_cfg, mut resp_cfg) = ExtBuilder::build();
    let mut req = requester(req_cfg);
    resp_cfg.set_max_request_len(8);
    let resp = responder(resp_cfg, Ok(Some(vec![1])));

    // The requester's own one-mebibyte budget accepts this payload and
    // sends it without complaint.
    req.send_request(Test::responder_peer(), hash(4), vec![6; 20]);
    let outbound = next_outbound(&mut req, Test::responder_peer());
    let wire = outbound.request_frame();

    // The responder's smaller budget rejects it at read time.
    let handler = resp.new_handler();
    match handler.upgrade_inbound(&wire) {
        Err(UpgradeError::Framing(FramingError::TooLarge { requested, max })) => {
            assert!(requested > 8);
            assert_eq!(max, 8);
        },
        other => panic!("expected a framing abort, got {:?}", other),
    }
}

#[test]
fn scenario_concurrent_requests_correlate_by_value() {
    let (req_cfg, resp_cfg) = ExtBuilder::build();
    let mut req = requester(req_cfg);
    let mut resp = responder(resp_cfg, Ok(None));
    let h1 = hash(1);
    let h2 = hash(2);

    let peer = Test::responder_peer();
    req.send_request(peer, h1.clone(), Vec::new());
    req.send_request(peer, h2.clone(), Vec::new());

    // Outbound notifications come out in the order they were issued.
    let outbound1 = next_outbound(&mut req, peer);
    let outbound2 = next_outbound(&mut req, peer);
    assert_eq!(outbound1.block_hash, h1);
    assert_eq!(outbound2.block_hash, h2);

    // The second exchange completes before the first; each response
    // still carries its own hash, one independent substream each.
    exchange(&mut req, &mut resp, outbound2, 61);
    exchange(&mut req, &mut resp, outbound1, 60);

    let Event::Response { block_hash: first, .. } = next_event(&mut req);
    let Event::Response { block_hash: second, .. } = next_event(&mut req);
    assert_eq!(first, h2);
    assert_eq!(second, h1);
    assert!(matches!(req.poll(), PollOutcome::Pending));
}

#[test]
fn inbound_collaborator_failure_is_absorbed() {
    let (_, resp_cfg) = ExtBuilder::build();
    let mut resp = responder(resp_cfg, Err(ProviderError { code: 1 }));
    let request = FinalityProofRequest { block_hash: vec![0; 32], request: Vec::new() };
    resp.inject_event(Test::requester_peer(), NodeEvent::Request { request, stream: 70 });
    // No response scheduled, no event surfaced: the requester would
    // only ever see silence.
    assert!(matches!(resp.poll(), PollOutcome::Pending));
}

#[test]
fn inbound_bad_hash_is_absorbed() {
    let (_, resp_cfg) = ExtBuilder::build();
    let mut resp = responder(resp_cfg, Ok(Some(vec![1])));
    let request = FinalityProofRequest { block_hash: vec![0; 8], request: Vec::new() };
    resp.inject_event(Test::requester_peer(), NodeEvent::Request { request, stream: 71 });
    assert!(matches!(resp.poll(), PollOutcome::Pending));
}

#[test]
fn inbound_without_collaborator_is_absorbed() {
    let (_, resp_cfg) = ExtBuilder::build();
    let mut resp: FinalityProofRequests<ConstProvider, u32> =
        FinalityProofRequests::new(resp_cfg, None);
    let request = FinalityProofRequest { block_hash: vec![0; 32], request: Vec::new() };
    resp.inject_event(Test::requester_peer(), NodeEvent::Request { request, stream: 72 });
    assert!(matches!(resp.poll(), PollOutcome::Pending));
}

#[test]
fn handler_error_variants() {
    let id = Test::chain_id();
    let with_provider = responder(Config::new(&id), Err(ProviderError { code: 9 }));
    let short_hash = FinalityProofRequest { block_hash: vec![0; 31], request: Vec::new() };
    assert_eq!(with_provider.on_finality_request(&short_hash), Err(HandlerError::Decode));

    let good = FinalityProofRequest { block_hash: vec![0; 32], request: Vec::new() };
    assert_eq!(
        with_provider.on_finality_request(&good),
        Err(HandlerError::CollaboratorFailure)
    );

    let without: FinalityProofRequests<ConstProvider, u32> =
        FinalityProofRequests::new(Config::new(&id), None);
    assert_eq!(
        without.on_finality_request(&good),
        Err(HandlerError::ProtocolUnavailable)
    );

    let answering = responder(Config::new(&id), Ok(Some(vec![8, 8])));
    let answer = answering.on_finality_request(&good).expect("answered");
    assert_eq!(answer.proof_bytes, vec![8, 8]);
}

#[test]
fn no_proof_and_zero_byte_proof_are_indistinguishable() {
    let from_none = response_for_outcome(None);
    let from_empty = response_for_outcome(Some(Vec::new()));
    assert_eq!(from_none, from_empty);
    assert_eq!(from_none.proof_bytes, Vec::<u8>::new());
    let from_some = response_for_outcome(Some(vec![4]));
    assert_eq!(from_some.proof_bytes, vec![4]);
}
