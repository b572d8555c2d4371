//! The two wire message shapes and their encoding: length-delimited
//! byte-string fields behind one-byte field tags, empty fields left
//! out, unknown tags refused.  Both fields of a request and the one
//! field of a response are opaque byte strings to this layer.

use vstd::prelude::*;

use crate::bytes::{copy_range, push_all};
use crate::varint::{
    decode_varint, encode_varint, lemma_varint_decode_bounds, lemma_varint_round_trip,
    varint_decode_spec, varint_spec,
};

verus! {

/// Tag of the block-hash field of a request: field one, length-delimited.
pub const TAG_BLOCK_HASH: u8 = 0x0A;

/// Tag of the opaque request field of a request: field two, length-delimited.
pub const TAG_REQUEST: u8 = 0x12;

/// Tag of the proof field of a response: field one, length-delimited.
pub const TAG_PROOF: u8 = 0x0A;

/// A finality-proof request as it travels on the wire.  The block hash
/// is the chain's deterministic serialization of the hash; the request
/// bytes mean whatever the proof collaborator says they mean.
#[derive(Clone, Debug, PartialEq, Eq)]
pub struct FinalityProofRequest {
    pub block_hash: Vec<u8>,
    pub request: Vec<u8>,
}

/// A finality-proof response as it travels on the wire.  An empty
/// proof is a valid answer meaning "no proof is available" and is not
/// distinguishable from a proof that happens to be zero bytes.
#[derive(Clone, Debug, PartialEq, Eq)]
pub struct FinalityProofResponse {
    pub proof_bytes: Vec<u8>,
}

/// One encoded field: its tag, the length of the data, the data.
pub open spec fn field_spec(tag: u8, data: Seq<u8>) -> Seq<u8> {
    seq![tag] + varint_spec(data.len() as u64) + data
}

/// The encoding of a request; an empty field is left out.
pub open spec fn encode_request_spec(block_hash: Seq<u8>, request: Seq<u8>) -> Seq<u8> {
    (if block_hash.len() == 0 {
        Seq::<u8>::empty()
    } else {
        field_spec(TAG_BLOCK_HASH, block_hash)
    }) + (if request.len() == 0 {
        Seq::<u8>::empty()
    } else {
        field_spec(TAG_REQUEST, request)
    })
}

/// The encoding of a response; an empty proof is left out, so the
/// encoding of "no proof" is the empty byte string.
pub open spec fn encode_response_spec(proof_bytes: Seq<u8>) -> Seq<u8> {
    if proof_bytes.len() == 0 {
        Seq::<u8>::empty()
    } else {
        field_spec(TAG_PROOF, proof_bytes)
    }
}

/// Reading one length-delimited payload off the front of `s` (the tag
/// already consumed): the data and how many bytes were used.
pub open spec fn parse_len_bytes(s: Seq<u8>) -> Option<(Seq<u8>, int)> {
    match varint_decode_spec(s) {
        None => None,
        Some(r) => {
            if 1 <= r.1 <= s.len() && r.0 <= s.len() - r.1 {
                Some((s.subrange(r.1, r.1 + r.0), r.1 + r.0))
            } else {
                None
            }
        },
    }
}

/// The field loop of a request decoder: later occurrences of a field
/// replace earlier ones, an unknown tag refuses the message.
pub open spec fn decode_request_fields(
    s: Seq<u8>,
    block_hash: Seq<u8>,
    request: Seq<u8>,
) -> Option<(Seq<u8>, Seq<u8>)>
    decreases s.len(),
{
    if s.len() == 0 {
        Some((block_hash, request))
    } else if s[0] == TAG_BLOCK_HASH {
        match parse_len_bytes(s.skip(1)) {
            None => None,
            Some(f) => decode_request_fields(s.skip(1 + f.1), f.0, request),
        }
    } else if s[0] == TAG_REQUEST {
        match parse_len_bytes(s.skip(1)) {
            None => None,
            Some(f) => decode_request_fields(s.skip(1 + f.1), block_hash, f.0),
        }
    } else {
        None
    }
}

/// The decoding of a request: both fields empty unless present.
pub open spec fn decode_request_spec(s: Seq<u8>) -> Option<(Seq<u8>, Seq<u8>)> {
    decode_request_fields(s, Seq::<u8>::empty(), Seq::<u8>::empty())
}

/// The field loop of a response decoder.
pub open spec fn decode_response_fields(s: Seq<u8>, proof_bytes: Seq<u8>) -> Option<Seq<u8>>
    decreases s.len(),
{
    if s.len() == 0 {
        Some(proof_bytes)
    } else if s[0] == TAG_PROOF {
        match parse_len_bytes(s.skip(1)) {
            None => None,
            Some(f) => decode_response_fields(s.skip(1 + f.1), f.0),
        }
    } else {
        None
    }
}

/// The decoding of a response: the proof is empty unless present.
pub open spec fn decode_response_spec(s: Seq<u8>) -> Option<Seq<u8>> {
    decode_response_fields(s, Seq::<u8>::empty())
}

/// Encodes a request.
pub fn encode_request(m: &FinalityProofRequest) -> (r: Vec<u8>)
    ensures
        r@ == encode_request_spec(m.block_hash@, m.request@),
{
    let mut out: Vec<u8> = Vec::new();
    if m.block_hash.len() > 0 {
        out.push(TAG_BLOCK_HASH);
        encode_varint(m.block_hash.len() as u64, &mut out);
        push_all(&mut out, &m.block_hash);
    }
    if m.request.len() > 0 {
        out.push(TAG_REQUEST);
        encode_varint(m.request.len() as u64, &mut out);
        push_all(&mut out, &m.request);
    }
    proof {
        assert(out@ =~= encode_request_spec(m.block_hash@, m.request@));
    }
    out
}

/// Encodes a response.
pub fn encode_response(m: &FinalityProofResponse) -> (r: Vec<u8>)
    ensures
        r@ == encode_response_spec(m.proof_bytes@),
{
    let mut out: Vec<u8> = Vec::new();
    if m.proof_bytes.len() > 0 {
        out.push(TAG_PROOF);
        encode_varint(m.proof_bytes.len() as u64, &mut out);
        push_all(&mut out, &m.proof_bytes);
    }
    proof {
        assert(out@ =~= encode_response_spec(m.proof_bytes@));
    }
    out
}

/// Reads one length-delimited payload of `s` starting at `pos` (the
/// tag already consumed); returns the data and the index just past it.
fn read_field(s: &Vec<u8>, pos: usize) -> (r: Option<(Vec<u8>, usize)>)
    requires
        pos <= s.len(),
    ensures
        match r {
            Some(f) => {
                &&& pos < f.1 <= s.len()
                &&& parse_len_bytes(s@.skip(pos as int)) == Some((f.0@, f.1 - pos))
            },
            None => parse_len_bytes(s@.skip(pos as int)) is None,
        },
{
    let ghost t = s@.skip(pos as int);
    match decode_varint(s, pos) {
        None => None,
        Some((len, k)) => {
            if len <= (s.len() - (pos + k)) as u64 {
                let start = pos + k;
                let end = start + len as usize;
                let data = copy_range(s, start, end);
                proof {
                    assert(t.subrange(k as int, k + len) =~= s@.subrange(
                        start as int,
                        end as int,
                    ));
                }
                Some((data, end))
            } else {
                None
            }
        },
    }
}

/// Decodes a request, or `None` when the input is not a well-formed
/// message of this shape.
pub fn decode_request(s: &Vec<u8>) -> (r: Option<FinalityProofRequest>)
    ensures
        match r {
            Some(m) => decode_request_spec(s@) == Some((m.block_hash@, m.request@)),
            None => decode_request_spec(s@) is None,
        },
{
    let mut pos: usize = 0;
    let mut block_hash: Vec<u8> = Vec::new();
    let mut request: Vec<u8> = Vec::new();
    assert(s@.skip(0) =~= s@);
    loop
        invariant
            pos <= s.len(),
            decode_request_fields(s@.skip(pos as int), block_hash@, request@)
                == decode_request_spec(s@),
        decreases s.len() - pos,
    {
        if pos == s.len() {
            assert(s@.skip(pos as int).len() == 0);
            return Some(FinalityProofRequest { block_hash, request });
        }
        let tag = s[pos];
        proof {
            assert(s@.skip(pos as int)[0] == tag);
            assert(s@.skip(pos as int).skip(1) =~= s@.skip(pos as int + 1));
        }
        if tag == TAG_BLOCK_HASH {
            match read_field(s, pos + 1) {
                None => {
                    return None;
                },
                Some((data, end)) => {
                    proof {
                        assert(s@.skip(pos as int).skip(1 + (end - (pos + 1))) =~= s@.skip(
                            end as int,
                        ));
                    }
                    block_hash = data;
                    pos = end;
                },
            }
        } else if tag == TAG_REQUEST {
            match read_field(s, pos + 1) {
                None => {
                    return None;
                },
                Some((data, end)) => {
                    proof {
                        assert(s@.skip(pos as int).skip(1 + (end - (pos + 1))) =~= s@.skip(
                            end as int,
                        ));
                    }
                    request = data;
                    pos = end;
                },
            }
        } else {
            return None;
        }
    }
}

/// Decodes a response, or `None` when the input is not a well-formed
/// message of this shape.
pub fn decode_response(s: &Vec<u8>) -> (r: Option<FinalityProofResponse>)
    ensures
        match r {
            Some(m) => decode_response_spec(s@) == Some(m.proof_bytes@),
            None => decode_response_spec(s@) is None,
        },
{
    let mut pos: usize = 0;
    let mut proof_bytes: Vec<u8> = Vec::new();
    assert(s@.skip(0) =~= s@);
    loop
        invariant
            pos <= s.len(),
            decode_response_fields(s@.skip(pos as int), proof_bytes@) == decode_response_spec(s@),
        decreases s.len() - pos,
    {
        if pos == s.len() {
            assert(s@.skip(pos as int).len() == 0);
            return Some(FinalityProofResponse { proof_bytes });
        }
        let tag = s[pos];
        proof {
            assert(s@.skip(pos as int)[0] == tag);
            assert(s@.skip(pos as int).skip(1) =~= s@.skip(pos as int + 1));
        }
        if tag == TAG_PROOF {
            match read_field(s, pos + 1) {
                None => {
                    return None;
                },
                Some((data, end)) => {
                    proof {
                        assert(s@.skip(pos as int).skip(1 + (end - (pos + 1))) =~= s@.skip(
                            end as int,
                        ));
                    }
                    proof_bytes = data;
                    pos = end;
                },
            }
        } else {
            return None;
        }
    }
}

/// Reading one encoded field back: the data returns whole, whatever
/// follows it in the input.
proof fn lemma_parse_field_exact(data: Seq<u8>, rest: Seq<u8>)
    requires
        data.len() <= u64::MAX,
    ensures
        parse_len_bytes(varint_spec(data.len() as u64) + data + rest) == Some(
            (data, varint_spec(data.len() as u64).len() + data.len() as int),
        ),
{
    let n = data.len() as u64;
    let s = varint_spec(n) + data + rest;
    assert(s =~= varint_spec(n) + (data + rest));
    lemma_varint_round_trip(n, data + rest);
    lemma_varint_decode_bounds(s);
    let k = varint_spec(n).len() as int;
    assert(s.subrange(k, k + n as int) =~= data);
}

/// One step of a field loop: a well-formed field at the front parses
/// to its data and leaves exactly the rest.
proof fn lemma_field_step(tag: u8, data: Seq<u8>, rest: Seq<u8>)
    requires
        data.len() <= u64::MAX,
    ensures
        (field_spec(tag, data) + rest).len() > 0,
        (field_spec(tag, data) + rest)[0] == tag,
        parse_len_bytes((field_spec(tag, data) + rest).skip(1)) == Some(
            (data, field_spec(tag, data).len() - 1),
        ),
        (field_spec(tag, data) + rest).skip(field_spec(tag, data).len() as int) == rest,
{
    let f = field_spec(tag, data);
    assert((f + rest).skip(1) =~= varint_spec(data.len() as u64) + data + rest);
    lemma_parse_field_exact(data, rest);
    assert((f + rest).skip(f.len() as int) =~= rest);
}

/// Round trip: decoding an encoded request yields the block hash and
/// the request bytes unchanged, for all byte strings of either.
pub proof fn lemma_request_round_trip(h: Seq<u8>, q: Seq<u8>)
    requires
        h.len() <= u64::MAX,
        q.len() <= u64::MAX,
    ensures
        decode_request_spec(encode_request_spec(h, q)) == Some((h, q)),
{
    reveal_with_fuel(decode_request_fields, 3);
    let e = encode_request_spec(h, q);
    let fq = field_spec(TAG_REQUEST, q);
    if h.len() == 0 && q.len() == 0 {
        assert(e.len() == 0);
    } else if h.len() == 0 {
        assert(e =~= fq + Seq::<u8>::empty());
        lemma_field_step(TAG_REQUEST, q, Seq::<u8>::empty());
        assert(decode_request_fields(e, Seq::<u8>::empty(), Seq::<u8>::empty()) == Some((h, q)));
    } else if q.len() == 0 {
        let fh = field_spec(TAG_BLOCK_HASH, h);
        assert(e =~= fh + Seq::<u8>::empty());
        lemma_field_step(TAG_BLOCK_HASH, h, Seq::<u8>::empty());
        assert(decode_request_fields(e, Seq::<u8>::empty(), Seq::<u8>::empty()) == Some((h, q)));
    } else {
        let fh = field_spec(TAG_BLOCK_HASH, h);
        assert(e =~= fh + fq);
        lemma_field_step(TAG_BLOCK_HASH, h, fq);
        assert(fq =~= fq + Seq::<u8>::empty());
        lemma_field_step(TAG_REQUEST, q, Seq::<u8>::empty());
        assert(decode_request_fields(e, Seq::<u8>::empty(), Seq::<u8>::empty())
            == decode_request_fields(fq, h, Seq::<u8>::empty()));
        assert(decode_request_fields(fq, h, Seq::<u8>::empty()) == Some((h, q)));
    }
}

/// Round trip: decoding an encoded response yields the proof bytes
/// unchanged, for all byte strings.
pub proof fn lemma_response_round_trip(p: Seq<u8>)
    requires
        p.len() <= u64::MAX,
    ensures
        decode_response_spec(encode_response_spec(p)) == Some(p),
{
    reveal_with_fuel(decode_response_fields, 2);
    let e = encode_response_spec(p);
    if p.len() == 0 {
        assert(e.len() == 0);
    } else {
        let fp = field_spec(TAG_PROOF, p);
        assert(e =~= fp + Seq::<u8>::empty());
        lemma_field_step(TAG_PROOF, p, Seq::<u8>::empty());
        assert(decode_response_fields(e, Seq::<u8>::empty()) == Some(p));
    }
}

} // verus!
