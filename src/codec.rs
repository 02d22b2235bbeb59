//! The persisted form of a session: its encoded bytes behind an 8-byte
//! big-endian length prefix.
use vstd::prelude::*;
use vstd::arithmetic::div_mod::{lemma_basic_div, lemma_div_denominator, lemma_fundamental_div_mod};

use crate::error::ErrorKind;
use crate::scalar::{be_value, lemma_be_value_nonneg};

verus! {

pub open spec fn pow256(k: nat) -> int
    decreases k,
{
    if k == 0 {
        1
    } else {
        256 * pow256((k - 1) as nat)
    }
}

/// `data` is `payload` behind its length as 8 big-endian bytes.
pub open spec fn is_framing_of(data: Seq<u8>, payload: Seq<u8>) -> bool {
    &&& data.len() == 8 + payload.len()
    &&& be_value(data.subrange(0, 8)) == payload.len()
    &&& data.subrange(8, data.len() as int) == payload
}

/// What reading a length-prefixed record from `data` gives: the bytes the
/// prefix announces, or nothing when the data is too short. Bytes after the
/// record are left unread.
pub open spec fn unframe_spec(data: Seq<u8>) -> Option<Seq<u8>> {
    if data.len() < 8 {
        None
    } else if be_value(data.subrange(0, 8)) > data.len() - 8 {
        None
    } else {
        Some(data.subrange(8, 8 + be_value(data.subrange(0, 8))))
    }
}

/// The powers of 256 up to the eighth.
proof fn lemma_pow256_values()
    ensures
        pow256(0) == 1,
        pow256(1) == 256,
        pow256(2) == 65536,
        pow256(3) == 16777216,
        pow256(4) == 4294967296,
        pow256(5) == 1099511627776,
        pow256(6) == 281474976710656,
        pow256(7) == 72057594037927936,
        pow256(8) == 18446744073709551616,
{
    assert(pow256(0) == 1);
    assert(pow256(1) == 256);
    assert(pow256(2) == 65536);
    assert(pow256(3) == 16777216);
    assert(pow256(4) == 4294967296);
    assert(pow256(5) == 1099511627776);
    assert(pow256(6) == 281474976710656);
    assert(pow256(7) == 72057594037927936);
    assert(pow256(8) == 18446744073709551616);
}

/// Writes `payload` behind its length.
pub fn frame_bytes(payload: &Vec<u8>) -> (r: Vec<u8>)
    requires
        payload@.len() <= u64::MAX,
    ensures
        is_framing_of(r@, payload@),
{
    let n: u64 = payload.len() as u64;
    let mut r: Vec<u8> = Vec::new();
    let mut d: u64 = 72057594037927936;
    let mut i: usize = 0;
    proof {
        lemma_pow256_values();
        lemma_basic_div(n as int, pow256(8));
    }
    while i < 8
        invariant
            0 <= i <= 8,
            r@.len() == i,
            i < 8 ==> d == pow256((7 - i) as nat),
            be_value(r@) == n as int / pow256((8 - i) as nat),
            n == payload@.len(),
        decreases 8 - i,
    {
        proof {
            lemma_pow256_monotone(0, (7 - i) as nat);
        }
        let byte = ((n / d) % 256) as u8;
        proof {
            let p = pow256((7 - i) as nat);
            assert(pow256((8 - i) as nat) == p * 256);
            lemma_div_denominator(n as int, p, 256);
            lemma_fundamental_div_mod(n as int / p, 256);
            assert(r@.push(byte).drop_last() =~= r@);
        }
        r.push(byte);
        if i < 7 {
            proof {
                assert(pow256((7 - i) as nat) == 256 * pow256((6 - i) as nat));
            }
            d = d / 256;
        }
        i = i + 1;
    }
    let mut j: usize = 0;
    let ghost prefix = r@;
    while j < payload.len()
        invariant
            0 <= j <= payload@.len(),
            r@ == prefix + payload@.subrange(0, j as int),
            prefix.len() == 8,
        decreases payload@.len() - j,
    {
        r.push(payload[j]);
        j = j + 1;
        proof {
            assert(r@ =~= prefix + payload@.subrange(0, j as int));
        }
    }
    proof {
        assert(r@.subrange(0, 8) =~= prefix);
        assert(r@.subrange(8, r@.len() as int) =~= payload@);
    }
    r
}

/// Reads a length-prefixed record; a record longer than the data is a
/// `Serialization` error.
pub fn unframe_bytes(data: &Vec<u8>) -> (r: Result<Vec<u8>, ErrorKind>)
    ensures
        match unframe_spec(data@) {
            Some(p) => r.is_ok() && r.unwrap()@ == p,
            None => r == Err::<Vec<u8>, ErrorKind>(ErrorKind::Serialization),
        },
{
    if data.len() < 8 {
        return Err(ErrorKind::Serialization);
    }
    let mut n: u64 = 0;
    let mut i: usize = 0;
    while i < 8
        invariant
            0 <= i <= 8,
            data@.len() >= 8,
            n as int == be_value(data@.subrange(0, i as int)),
            n < pow256(i as nat),
        decreases 8 - i,
    {
        proof {
            assert(data@.subrange(0, i + 1).drop_last() =~= data@.subrange(0, i as int));
            assert(pow256((i + 1) as nat) == 256 * pow256(i as nat));
            lemma_pow256_values();
            lemma_pow256_monotone(i as nat, 7);
            let b = data@[i as int] as int;
            let p = pow256(i as nat);
            assert(n * 256 + b < p * 256) by (nonlinear_arith)
                requires n < p, 0 <= b < 256;
        }
        n = n * 256 + data[i] as u64;
        i = i + 1;
    }
    let rest: usize = data.len() - 8;
    if n > rest as u64 {
        return Err(ErrorKind::Serialization);
    }
    let end: usize = 8 + n as usize;
    let mut out: Vec<u8> = Vec::new();
    let mut j: usize = 8;
    while j < end
        invariant
            8 <= j <= end <= data@.len(),
            out@ == data@.subrange(8, j as int),
        decreases end - j,
    {
        out.push(data[j]);
        j = j + 1;
        proof {
            assert(out@ =~= data@.subrange(8, j as int));
        }
    }
    Ok(out)
}

proof fn lemma_pow256_monotone(i: nat, j: nat)
    requires
        i <= j,
    ensures
        pow256(i) <= pow256(j),
        pow256(i) >= 1,
    decreases j,
{
    if i < j {
        lemma_pow256_monotone(i, (j - 1) as nat);
    } else if i > 0 {
        lemma_pow256_monotone((i - 1) as nat, (i - 1) as nat);
    }
}

/// Reading back what was written gives the payload again.
pub proof fn lemma_frame_round_trip(data: Seq<u8>, payload: Seq<u8>)
    requires
        is_framing_of(data, payload),
    ensures
        unframe_spec(data) == Some(payload),
{
    lemma_be_value_nonneg(data.subrange(0, 8));
}

} // verus!
