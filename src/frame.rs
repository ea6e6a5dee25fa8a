//! The upload framing: a four-byte big-endian length, then that many bytes of body.

use crate::error::IflyrecError;
use vstd::prelude::*;
use vstd::slice::slice_to_vec;

verus! {

/// Largest body length that the four-byte prefix can state.
pub const MAX_BODY_LEN: u64 = 0xffff_ffff;

/// The four big-endian bytes of `n` (below 2^32).
pub open spec fn be32(n: nat) -> Seq<u8> {
    seq![
        (n / 0x100_0000 % 0x100) as u8,
        (n / 0x1_0000 % 0x100) as u8,
        (n / 0x100 % 0x100) as u8,
        (n % 0x100) as u8,
    ]
}

/// The number that four big-endian bytes state.
pub open spec fn be32_value(b: Seq<u8>) -> nat {
    (b[0] * 0x100_0000 + b[1] * 0x1_0000 + b[2] * 0x100 + b[3]) as nat
}

/// A framed block: the length of `body` in four big-endian bytes, then `body`.
pub open spec fn frame(body: Seq<u8>) -> Seq<u8> {
    be32(body.len()) + body
}

/// Reads a framed block at the start of `data`: its body and the bytes after it,
/// or `None` when `data` is shorter than its prefix says.
pub open spec fn unframe(data: Seq<u8>) -> Option<(Seq<u8>, Seq<u8>)> {
    if data.len() < 4 {
        None
    } else {
        let n = be32_value(data.take(4));
        if 4 + n <= data.len() {
            Some((data.subrange(4, 4 + n as int), data.skip(4 + n as int)))
        } else {
            None
        }
    }
}

proof fn lemma_be32_value(n: nat)
    requires
        n <= MAX_BODY_LEN,
    ensures
        be32(n).len() == 4,
        be32_value(be32(n)) == n,
{
    let b = be32(n);
    let q3 = n / 0x100_0000;
    let r3 = n % 0x100_0000;
    let q2 = n / 0x1_0000;
    let q1 = n / 0x100;
    assert(n == q3 * 0x100_0000 + r3 && q3 < 0x100) by (nonlinear_arith)
        requires
            q3 == n / 0x100_0000,
            r3 == n % 0x100_0000,
            n <= 0xffff_ffff,
    ;
    assert(q2 % 0x100 == r3 / 0x1_0000 && q1 % 0x100 == (r3 % 0x1_0000) / 0x100 && n % 0x100
        == r3 % 0x100) by (nonlinear_arith)
        requires
            q3 == n / 0x100_0000,
            r3 == n % 0x100_0000,
            q2 == n / 0x1_0000,
            q1 == n / 0x100,
            n == q3 * 0x100_0000 + r3,
            0 <= r3 < 0x100_0000,
    ;
    assert(r3 == (r3 / 0x1_0000) * 0x1_0000 + ((r3 % 0x1_0000) / 0x100) * 0x100 + r3 % 0x100)
        by (nonlinear_arith)
        requires
            0 <= r3 < 0x100_0000,
    ;
}

/// The prefix of a framed body states the body's exact length, and reading the
/// framed body followed by any bytes gives back the body and those bytes.
pub proof fn law_frame_round_trip(body: Seq<u8>, rest: Seq<u8>)
    requires
        body.len() <= MAX_BODY_LEN,
    ensures
        be32_value(frame(body).take(4)) == body.len(),
        unframe(frame(body) + rest) == Some((body, rest)),
{
    lemma_be32_value(body.len());
    let data = frame(body) + rest;
    assert(frame(body).take(4) =~= be32(body.len()));
    assert(data.take(4) =~= be32(body.len()));
    assert(data.subrange(4, 4 + body.len() as int) =~= body);
    assert(data.skip(4 + body.len() as int) =~= rest);
}

/// Frames `body`; fails when its length does not fit the four-byte prefix.
pub fn frame_block(body: &[u8]) -> (r: Result<Vec<u8>, IflyrecError>)
    ensures
        r is Ok <==> body@.len() <= MAX_BODY_LEN,
        r matches Ok(b) ==> b@ == frame(body@),
        r matches Err(e) ==> e is InvalidParameter,
{
    if body.len() as u64 > MAX_BODY_LEN {
        return Err(IflyrecError::InvalidParameter(String::from_str("upload block too large")));
    }
    let n: u64 = body.len() as u64;
    let mut out: Vec<u8> = vec![
        (n / 0x100_0000 % 0x100) as u8,
        (n / 0x1_0000 % 0x100) as u8,
        (n / 0x100 % 0x100) as u8,
        (n % 0x100) as u8,
    ];
    let mut tail = slice_to_vec(body);
    out.append(&mut tail);
    assert(out@ =~= frame(body@));
    Ok(out)
}

/// Reads the framed block at the start of `data`: its body and the bytes after it.
pub fn split_block(data: &[u8]) -> (r: Option<(Vec<u8>, Vec<u8>)>)
    ensures
        r matches Some((b, t)) ==> unframe(data@) == Some((b@, t@)),
        r is None ==> unframe(data@) is None,
{
    if data.len() < 4 {
        return None;
    }
    let n: u64 = data[0] as u64 * 0x100_0000 + data[1] as u64 * 0x1_0000 + data[2] as u64 * 0x100
        + data[3] as u64;
    assert(n == be32_value(data@.take(4)));
    if n > (data.len() - 4) as u64 {
        return None;
    }
    let end: usize = 4 + n as usize;
    let mut body: Vec<u8> = Vec::new();
    let mut rest: Vec<u8> = Vec::new();
    let mut i: usize = 0;
    while i < data.len()
        invariant
            4 <= end <= data.len(),
            i <= data.len(),
            i < 4 ==> body@.len() == 0,
            i >= 4 ==> body@ == data@.subrange(4, if i < end { i as int } else { end as int }),
            rest@ == data@.subrange(end as int, if i < end { end as int } else { i as int }),
        decreases data.len() - i,
    {
        if i >= end {
            rest.push(data[i]);
        } else if i >= 4 {
            body.push(data[i]);
        }
        i = i + 1;
    }
    assert(rest@ =~= data@.skip(end as int));
    Some((body, rest))
}

} // verus!
