//! Unsigned little-endian base-128 integers: the explicit length
//! indicator used both by the message framing and by the
//! length-delimited fields of the wire schema.

use vstd::prelude::*;

verus! {

/// Largest value `v` such that `128 * v + d` still fits in a `u64` for
/// every seven-bit digit `d`; a decoded continuation beyond this bound
/// can only denote a value out of range.
pub const VARINT_CARRY_LIMIT: u64 = 0x0200_0000_0000_0000;

/// The encoding of `n`: seven bits per byte, lowest group first, the
/// high bit of a byte set while more bytes follow.
pub open spec fn varint_spec(n: u64) -> Seq<u8>
    decreases n,
{
    if n < 128 {
        seq![n as u8]
    } else {
        seq![(n % 128 + 128) as u8] + varint_spec(n / 128)
    }
}

/// Reading one varint off the front of `s`: the value and the number of
/// bytes consumed, or `None` when `s` ends before a final byte or the
/// value would not fit in a `u64`.
pub open spec fn varint_decode_spec(s: Seq<u8>) -> Option<(u64, int)>
    decreases s.len(),
{
    if s.len() == 0 {
        None
    } else if s[0] < 128 {
        Some((s[0] as u64, 1))
    } else {
        match varint_decode_spec(s.skip(1)) {
            None => None,
            Some(r) => {
                if r.0 < VARINT_CARRY_LIMIT {
                    Some((((s[0] - 128) + 128 * r.0) as u64, r.1 + 1))
                } else {
                    None
                }
            },
        }
    }
}

/// A successful decode consumes at least one byte and no more than the
/// whole input.
pub proof fn lemma_varint_decode_bounds(s: Seq<u8>)
    ensures
        match varint_decode_spec(s) {
            Some(r) => 1 <= r.1 <= s.len(),
            None => true,
        },
    decreases s.len(),
{
    if s.len() != 0 && s[0] >= 128 {
        lemma_varint_decode_bounds(s.skip(1));
    }
}

/// Decoding reads back exactly the value that was encoded, whatever
/// follows the encoding in the input.
pub proof fn lemma_varint_round_trip(n: u64, rest: Seq<u8>)
    ensures
        varint_decode_spec(varint_spec(n) + rest) == Some((n, varint_spec(n).len() as int)),
    decreases n,
{
    let s = varint_spec(n) + rest;
    if n < 128 {
        assert(s[0] == n as u8);
    } else {
        let b: u8 = (n % 128 + 128) as u8;
        assert(s[0] == b);
        assert(s.skip(1) =~= varint_spec(n / 128) + rest);
        lemma_varint_round_trip(n / 128, rest);
        assert(n / 128 < VARINT_CARRY_LIMIT);
        assert((b - 128) + 128 * ((n / 128) as u64) == n) by {
            assert(n % 128 + 128 * (n / 128) == n) by (nonlinear_arith);
        };
    }
}

/// Appends the encoding of `n` to `out`.
pub fn encode_varint(n0: u64, out: &mut Vec<u8>)
    ensures
        final(out)@ == old(out)@ + varint_spec(n0),
{
    let mut n = n0;
    while n >= 128
        invariant
            out@ + varint_spec(n) == old(out)@ + varint_spec(n0),
        decreases n,
    {
        let ghost prev = n;
        out.push((n % 128 + 128) as u8);
        n = n / 128;
        assert(varint_spec(prev) == seq![(prev % 128 + 128) as u8] + varint_spec(prev / 128));
        assert(out@ + varint_spec(n) == old(out)@ + varint_spec(n0));
    }
    out.push(n as u8);
    assert(varint_spec(n) == seq![n as u8]);
}

/// Reads one varint from `s` starting at `pos`; returns the value and
/// the number of bytes consumed.
pub fn decode_varint(s: &Vec<u8>, pos: usize) -> (r: Option<(u64, usize)>)
    requires
        pos <= s.len(),
    ensures
        match r {
            Some(p) => {
                &&& varint_decode_spec(s@.skip(pos as int)) == Some((p.0, p.1 as int))
                &&& 1 <= p.1
                &&& pos + p.1 <= s.len()
            },
            None => varint_decode_spec(s@.skip(pos as int)) is None,
        },
    decreases s.len() - pos,
{
    if pos == s.len() {
        assert(s@.skip(pos as int).len() == 0);
        None
    } else {
        let b = s[pos];
        assert(s@.skip(pos as int)[0] == s@[pos as int]);
        if b < 128 {
            Some((b as u64, 1))
        } else {
            assert(s@.skip(pos as int).skip(1) =~= s@.skip(pos as int + 1));
            match decode_varint(s, pos + 1) {
                None => None,
                Some((v, k)) => {
                    if v < VARINT_CARRY_LIMIT {
                        Some((((b - 128) as u64) + 128 * v, k + 1))
                    } else {
                        None
                    }
                },
            }
        }
    }
}

} // verus!
