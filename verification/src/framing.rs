//! Length framing of wire messages: every message travels behind an
//! explicit varint length indicator, and a reader rejects a declared
//! length above its caller's maximum before buffering any payload.

use vstd::prelude::*;

use crate::bytes::{copy_range, push_all};
use crate::varint::{
    decode_varint, encode_varint, lemma_varint_round_trip, varint_decode_spec, varint_spec,
};

verus! {

/// Why reading one framed message off a substream failed.
#[derive(Clone, Copy, Debug, PartialEq, Eq, Structural)]
pub enum FramingError {
    /// The declared length exceeds the reader's configured maximum; the
    /// read aborts before any payload byte is buffered.
    TooLarge { requested: u64, max: u64 },
    /// The input ends before the declared length is reached.
    Truncated,
    /// The length indicator itself is malformed.
    BadLength,
}

/// One framed message: the length indicator followed by the payload.
pub open spec fn frame_spec(m: Seq<u8>) -> Seq<u8> {
    varint_spec(m.len() as u64) + m
}

/// Reading exactly one framed message from the front of `s`, bounded by
/// `max`.  Anything after the declared length is left untouched, as a
/// stream reader would leave it on the wire.
pub open spec fn read_one_spec(s: Seq<u8>, max: u64) -> Result<Seq<u8>, FramingError> {
    match varint_decode_spec(s) {
        None => Err(FramingError::BadLength),
        Some(r) => {
            if r.0 > max {
                Err(FramingError::TooLarge { requested: r.0, max })
            } else if s.len() - r.1 < r.0 {
                Err(FramingError::Truncated)
            } else {
                Ok(s.subrange(r.1, r.1 + r.0))
            }
        },
    }
}

/// Writes one framed message: the payload behind its length indicator.
pub fn write_one(msg: &Vec<u8>) -> (r: Vec<u8>)
    ensures
        r@ == frame_spec(msg@),
{
    let mut out: Vec<u8> = Vec::new();
    encode_varint(msg.len() as u64, &mut out);
    push_all(&mut out, msg);
    out
}

/// Reads one framed message from `s`, refusing any declared length
/// above `max` without buffering the payload.
pub fn read_one(s: &Vec<u8>, max: usize) -> (r: Result<Vec<u8>, FramingError>)
    ensures
        match r {
            Ok(m) => read_one_spec(s@, max as u64) == Ok::<Seq<u8>, FramingError>(m@),
            Err(e) => read_one_spec(s@, max as u64) == Err::<Seq<u8>, FramingError>(e),
        },
{
    assert(s@.skip(0) =~= s@);
    match decode_varint(s, 0) {
        None => Err(FramingError::BadLength),
        Some((len, k)) => {
            if len > max as u64 {
                Err(FramingError::TooLarge { requested: len, max: max as u64 })
            } else if ((s.len() - k) as u64) < len {
                Err(FramingError::Truncated)
            } else {
                let end = k + len as usize;
                Ok(copy_range(s, k, end))
            }
        },
    }
}

/// The framing limit is enforced at read time: a message framed by its
/// sender is read back whole when it fits the reader's maximum, and is
/// refused outright - payload unread - when it does not.  A sender's
/// own limit never protects the reader: acceptance depends only on the
/// reader's `max`.
pub proof fn lemma_frame_limit(m: Seq<u8>, max: u64)
    requires
        m.len() <= u64::MAX,
    ensures
        m.len() <= max ==> read_one_spec(frame_spec(m), max) == Ok::<Seq<u8>, FramingError>(m),
        m.len() > max ==> read_one_spec(frame_spec(m), max) == Err::<Seq<u8>, FramingError>(
            FramingError::TooLarge { requested: m.len() as u64, max },
        ),
{
    let s = frame_spec(m);
    let n = m.len() as u64;
    lemma_varint_round_trip(n, m);
    let k = varint_spec(n).len() as int;
    assert(varint_decode_spec(s) == Some((n, k)));
    if m.len() <= max {
        assert(s.len() - k == m.len());
        assert(s.subrange(k, k + n as int) =~= m);
    }
}

} // verus!
