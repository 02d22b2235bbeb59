//! Scalars of the secp256k1 group as 32 big-endian bytes, and the few
//! operations the swap needs on them.
use vstd::prelude::*;
use vstd::arithmetic::div_mod::{lemma_small_mod, lemma_mod_sub_multiples_vanish};
use grin_util::secp::key::{PublicKey, SecretKey};
use grin_util::secp::{ContextFlag, Secp256k1};

use crate::error::ErrorKind;

verus! {

/// The order of the secp256k1 group.
pub open spec fn curve_order() -> int {
    115792089237316195423570985008687907852837564279074904382605163141518161494337int
}

/// The value of a big-endian byte string.
pub open spec fn be_value(s: Seq<u8>) -> int
    decreases s.len(),
{
    if s.len() == 0 {
        0
    } else {
        be_value(s.drop_last()) * 256 + s.last() as int
    }
}

/// The value of a byte string is never negative.
pub proof fn lemma_be_value_nonneg(s: Seq<u8>)
    ensures
        be_value(s) >= 0,
    decreases s.len(),
{
    if s.len() > 0 {
        lemma_be_value_nonneg(s.drop_last());
    }
}

/// 32 bytes whose value is a scalar below the group order (zero included).
pub open spec fn is_scalar_bytes(s: Seq<u8>) -> bool {
    s.len() == 32 && be_value(s) < curve_order()
}

/// 32 bytes that make a valid secret key: a non-zero scalar below the order.
pub open spec fn is_secret_scalar(s: Seq<u8>) -> bool {
    is_scalar_bytes(s) && be_value(s) != 0
}

/// The sum of the values of a list of scalars.
pub open spec fn scalar_total(keys: Seq<Vec<u8>>) -> int
    decreases keys.len(),
{
    if keys.len() == 0 {
        0
    } else {
        scalar_total(keys.drop_last()) + be_value(keys.last()@)
    }
}

/// `Σ positive − Σ negative` reduced modulo the group order.
pub open spec fn blind_sum_value(positive: Seq<Vec<u8>>, negative: Seq<Vec<u8>>) -> int {
    (scalar_total(positive) - scalar_total(negative)) % curve_order()
}

/// The `s` half of a 64-byte Schnorr signature.
pub open spec fn signature_s(sig: Seq<u8>) -> Seq<u8> {
    sig.subrange(32, 64)
}

/// Relies on grin_secp256k1zkp's `SecretKey::from_slice`: it accepts exactly
/// 32 bytes that pass `secp256k1_ec_seckey_verify` (non-zero, below the
/// order) and keeps them as they are.
#[verifier::external_body]
pub(crate) fn secret_key_from_slice(data: &Vec<u8>) -> (r: Option<Vec<u8>>)
    ensures
        r.is_some() <==> is_secret_scalar(data@),
        r.is_some() ==> r.unwrap()@ == data@,
{
    let secp = Secp256k1::without_caps();
    SecretKey::from_slice(&secp, data).ok().map(|k| k.0.to_vec())
}

/// Relies on grin_secp256k1zkp's `Secp256k1::blind_sum`: the positive keys
/// added and the negative ones subtracted modulo the order, refused by the
/// final `SecretKey::from_slice` when the result is zero.
#[verifier::external_body]
fn blind_sum(positive: &Vec<Vec<u8>>, negative: &Vec<Vec<u8>>) -> (r: Option<Vec<u8>>)
    requires
        forall|i: int| 0 <= i < positive@.len() ==> #[trigger] is_secret_scalar(positive@[i]@),
        forall|i: int| 0 <= i < negative@.len() ==> #[trigger] is_secret_scalar(negative@[i]@),
    ensures
        r.is_some() <==> blind_sum_value(positive@, negative@) != 0,
        r.is_some() ==> is_scalar_bytes(r.unwrap()@),
        r.is_some() ==> be_value(r.unwrap()@) == blind_sum_value(positive@, negative@),
{
    let secp = Secp256k1::without_caps();
    let to_keys = |v: &Vec<Vec<u8>>| v.iter().map(|b| SecretKey::from_slice(&secp, b)).collect();
    let pos: Result<Vec<SecretKey>, _> = to_keys(positive);
    let neg: Result<Vec<SecretKey>, _> = to_keys(negative);
    secp.blind_sum(pos.ok()?, neg.ok()?).ok().map(|k| k.0.to_vec())
}

/// The sum of public keys, each given in its 33-byte compressed form, as a
/// compressed key; nothing when a key does not parse or the sum is the point
/// at infinity.
pub uninterp spec fn public_key_sum_of(keys: Seq<Seq<u8>>) -> Option<Seq<u8>>;

/// Relies on grin_secp256k1zkp's `PublicKey::from_combination` (with
/// `PublicKey::from_slice` and `serialize_vec` converting from and to
/// compressed bytes): the sum of the points, a function of the keys alone.
#[verifier::external_body]
pub(crate) fn combine_public_keys(keys: &Vec<Vec<u8>>) -> (r: Option<Vec<u8>>)
    requires
        keys@.len() >= 1,
    ensures
        r.is_some() == public_key_sum_of(keys@.map_values(|k: Vec<u8>| k@)).is_some(),
        r.is_some() ==> r.unwrap()@ == public_key_sum_of(keys@.map_values(|k: Vec<u8>| k@)).unwrap(),
{
    let secp = Secp256k1::with_caps(ContextFlag::Full);
    let parsed: Result<Vec<PublicKey>, _> = keys.iter().map(|k| PublicKey::from_slice(&secp, k)).collect();
    let parsed = parsed.ok()?;
    let sum = PublicKey::from_combination(&secp, parsed.iter().collect()).ok()?;
    Some(sum.serialize_vec(&secp, true).to_vec())
}

/// Adds two secret keys modulo the group order; `None` when the sum is zero.
pub fn scalar_add(a: Vec<u8>, b: Vec<u8>) -> (r: Option<Vec<u8>>)
    requires
        is_secret_scalar(a@),
        is_secret_scalar(b@),
    ensures
        r.is_some() <==> (be_value(a@) + be_value(b@)) % curve_order() != 0,
        r.is_some() ==> is_scalar_bytes(r.unwrap()@),
        r.is_some() ==> be_value(r.unwrap()@) == (be_value(a@) + be_value(b@)) % curve_order(),
{
    let mut positive: Vec<Vec<u8>> = Vec::new();
    positive.push(a);
    positive.push(b);
    let negative: Vec<Vec<u8>> = Vec::new();
    proof {
        let p = positive@;
        assert(p.drop_last().drop_last() =~= Seq::<Vec<u8>>::empty());
        assert(scalar_total(p.drop_last().drop_last()) == 0);
        assert(p.drop_last().last() == a);
        assert(scalar_total(p.drop_last()) == be_value(a@));
        assert(scalar_total(p) == be_value(a@) + be_value(b@));
        assert(scalar_total(negative@) == 0);
    }
    blind_sum(&positive, &negative)
}

/// Interprets the final 32 bytes of a 64-byte signature as a secret key.
pub fn signature_as_secret(signature: &Vec<u8>) -> (r: Result<Vec<u8>, ErrorKind>)
    requires
        signature@.len() == 64,
    ensures
        r.is_ok() <==> is_secret_scalar(signature_s(signature@)),
        r.is_ok() ==> r.unwrap()@ == signature_s(signature@),
        r.is_err() ==> r == Err::<Vec<u8>, ErrorKind>(ErrorKind::InvalidSignature),
{
    let mut s: Vec<u8> = Vec::new();
    let mut i: usize = 32;
    while i < 64
        invariant
            32 <= i <= 64,
            signature@.len() == 64,
            s@ == signature@.subrange(32, i as int),
        decreases 64 - i,
    {
        s.push(signature[i]);
        i = i + 1;
        proof {
            assert(s@ =~= signature@.subrange(32, i as int));
        }
    }
    match secret_key_from_slice(&s) {
        Some(k) => Ok(k),
        None => Err(ErrorKind::InvalidSignature),
    }
}

/// Recovers the adaptor secret `k` from the published signature and the
/// adaptor signature it completes: `s_published − s_adaptor` modulo the order.
pub fn extract_adaptor_secret(published: &Vec<u8>, adaptor: &Vec<u8>) -> (r: Result<Vec<u8>, ErrorKind>)
    requires
        published@.len() == 64,
        adaptor@.len() == 64,
    ensures
        r.is_ok() <==> (is_secret_scalar(signature_s(published@)) && is_secret_scalar(
            signature_s(adaptor@),
        ) && (be_value(signature_s(published@)) - be_value(signature_s(adaptor@)))
            % curve_order() != 0),
        r.is_ok() ==> is_scalar_bytes(r.unwrap()@) && be_value(r.unwrap()@) == (be_value(
            signature_s(published@),
        ) - be_value(signature_s(adaptor@))) % curve_order(),
{
    let s_pub = signature_as_secret(published)?;
    let s_adapt = signature_as_secret(adaptor)?;
    let mut positive: Vec<Vec<u8>> = Vec::new();
    positive.push(s_pub);
    let mut negative: Vec<Vec<u8>> = Vec::new();
    negative.push(s_adapt);
    proof {
        assert(positive@.drop_last() =~= Seq::<Vec<u8>>::empty());
        assert(negative@.drop_last() =~= Seq::<Vec<u8>>::empty());
    }
    match blind_sum(&positive, &negative) {
        Some(k) => Ok(k),
        None => Err(ErrorKind::InvalidSignature),
    }
}

/// An adaptor signature reveals its secret: when the published signature's
/// `s` equals the adaptor signature's `s` plus `k` modulo the group order,
/// the difference of the two secrets read from them is `k` modulo the order.
pub proof fn lemma_adaptor_reveals_secret(with_k: Seq<u8>, without_k: Seq<u8>, k: Seq<u8>)
    requires
        with_k.len() == 64,
        without_k.len() == 64,
        is_scalar_bytes(signature_s(without_k)),
        is_scalar_bytes(k),
        be_value(signature_s(with_k)) == (be_value(signature_s(without_k)) + be_value(k))
            % curve_order(),
    ensures
        (be_value(signature_s(with_k)) - be_value(signature_s(without_k))) % curve_order()
            == be_value(k),
{
    let n = curve_order();
    let a = be_value(signature_s(without_k));
    let b = be_value(k);
    lemma_be_value_nonneg(signature_s(without_k));
    lemma_be_value_nonneg(k);
    if a + b < n {
        lemma_small_mod((a + b) as nat, n as nat);
        lemma_small_mod(b as nat, n as nat);
    } else {
        assert((a + b) % n == a + b - n) by {
            lemma_mod_sub_multiples_vanish(a + b, n);
            lemma_small_mod((a + b - n) as nat, n as nat);
        }
        assert((b - n) % n == b) by {
            lemma_mod_sub_multiples_vanish(b, n);
            lemma_small_mod(b as nat, n as nat);
        }
    }
}

} // verus!
