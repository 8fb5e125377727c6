//! Revocation key derivation by additive tweaks on secp256k1.
use bitcoin::secp256k1::{PublicKey, Scalar, Secp256k1, SecretKey};
use vstd::prelude::*;

use crate::error::ChannelError;
use crate::order::{bytes_less, bytes_lt, lemma_output_order_total};

verus! {

/// The SHA-256 digest of `data`.
pub uninterp spec fn sha256_of(data: Seq<u8>) -> Seq<u8>;

/// The compressed serialization of the point `point` multiplied by the scalar
/// `tweak` (32 big-endian bytes); `None` when either is invalid.
pub uninterp spec fn point_mul_tweak_of(point: Seq<u8>, tweak: Seq<u8>) -> Option<Seq<u8>>;

/// The compressed serialization of the sum of two points; `None` when either
/// is invalid or the sum is the point at infinity.
pub uninterp spec fn point_sum_of(a: Seq<u8>, b: Seq<u8>) -> Option<Seq<u8>>;

/// The compressed serialization of the public point of a 32-byte secret;
/// `None` when the secret is not a valid scalar.
pub uninterp spec fn point_of_secret_of(secret: Seq<u8>) -> Option<Seq<u8>>;

/// The secret `secret` multiplied by the scalar `tweak` modulo the curve order;
/// `None` when either is invalid or the product is.
pub uninterp spec fn secret_mul_tweak_of(secret: Seq<u8>, tweak: Seq<u8>) -> Option<Seq<u8>>;

/// The sum of two secrets modulo the curve order; `None` when either is
/// invalid or the sum is zero.
pub uninterp spec fn secret_sum_of(a: Seq<u8>, b: Seq<u8>) -> Option<Seq<u8>>;

/// Relies on `bitcoin::hashes::sha256::Hash::hash`: the 32-byte SHA-256 digest.
#[verifier::external_body]
pub(crate) fn sha256(data: &Vec<u8>) -> (r: Vec<u8>)
    ensures
        r@ == sha256_of(data@),
        r@.len() == 32,
{
    let h = <bitcoin::hashes::sha256::Hash as bitcoin::hashes::Hash>::hash(data);
    bitcoin::hashes::Hash::to_byte_array(h).to_vec()
}

/// Relies on `secp256k1::PublicKey::mul_tweak`, with the point parsed by
/// `PublicKey::from_slice`, the tweak by `Scalar::from_be_bytes`, and the product
/// written by `PublicKey::serialize` (33 bytes).
#[verifier::external_body]
fn point_mul_tweak(point: &Vec<u8>, tweak: &Vec<u8>) -> (r: Option<Vec<u8>>)
    ensures
        r matches Some(v) ==> point_mul_tweak_of(point@, tweak@) == Some(v@) && v@.len() == 33,
        r is None ==> point_mul_tweak_of(point@, tweak@) is None,
{
    let p = PublicKey::from_slice(point).ok()?;
    let t = Scalar::from_be_bytes(tweak.as_slice().try_into().ok()?).ok()?;
    p.mul_tweak(&Secp256k1::verification_only(), &t).ok().map(|k| k.serialize().to_vec())
}

/// Relies on `secp256k1::PublicKey::combine`, with both points parsed by
/// `PublicKey::from_slice` and the sum written by `PublicKey::serialize` (33 bytes).
#[verifier::external_body]
fn point_sum(a: &Vec<u8>, b: &Vec<u8>) -> (r: Option<Vec<u8>>)
    ensures
        r matches Some(v) ==> point_sum_of(a@, b@) == Some(v@) && v@.len() == 33,
        r is None ==> point_sum_of(a@, b@) is None,
{
    let pa = PublicKey::from_slice(a).ok()?;
    let pb = PublicKey::from_slice(b).ok()?;
    pa.combine(&pb).ok().map(|k| k.serialize().to_vec())
}

/// Relies on `secp256k1::PublicKey::from_secret_key`, with the secret parsed by
/// `SecretKey::from_slice` and the point written by `PublicKey::serialize` (33 bytes).
#[verifier::external_body]
fn point_of_secret(secret: &Vec<u8>) -> (r: Option<Vec<u8>>)
    ensures
        r matches Some(v) ==> point_of_secret_of(secret@) == Some(v@) && v@.len() == 33,
        r is None ==> point_of_secret_of(secret@) is None,
{
    let sk = SecretKey::from_slice(secret).ok()?;
    Some(PublicKey::from_secret_key(&Secp256k1::signing_only(), &sk).serialize().to_vec())
}

/// Relies on `secp256k1::SecretKey::mul_tweak`, with the secret parsed by
/// `SecretKey::from_slice`, the tweak by `Scalar::from_be_bytes`, and the product
/// written by `SecretKey::secret_bytes` (32 bytes).
#[verifier::external_body]
fn secret_mul_tweak(secret: &Vec<u8>, tweak: &Vec<u8>) -> (r: Option<Vec<u8>>)
    ensures
        r matches Some(v) ==> secret_mul_tweak_of(secret@, tweak@) == Some(v@) && v@.len() == 32,
        r is None ==> secret_mul_tweak_of(secret@, tweak@) is None,
{
    let sk = SecretKey::from_slice(secret).ok()?;
    let t = Scalar::from_be_bytes(tweak.as_slice().try_into().ok()?).ok()?;
    sk.mul_tweak(&t).ok().map(|k| k.secret_bytes().to_vec())
}

/// Relies on `secp256k1::SecretKey::add_tweak`, with both secrets parsed by
/// `SecretKey::from_slice`, the second turned into a `Scalar` by `Scalar::from`,
/// and the sum written by `SecretKey::secret_bytes` (32 bytes).
#[verifier::external_body]
fn secret_sum(a: &Vec<u8>, b: &Vec<u8>) -> (r: Option<Vec<u8>>)
    ensures
        r matches Some(v) ==> secret_sum_of(a@, b@) == Some(v@) && v@.len() == 32,
        r is None ==> secret_sum_of(a@, b@) is None,
{
    let sa = SecretKey::from_slice(a).ok()?;
    let sb = SecretKey::from_slice(b).ok()?;
    sa.add_tweak(&Scalar::from(sb)).ok().map(|k| k.secret_bytes().to_vec())
}

/// The tweak of a point pair: the digest of the two serialized points, in the order given.
pub open spec fn tweak_of(first: Seq<u8>, second: Seq<u8>) -> Seq<u8> {
    sha256_of(first + second)
}

/// The sum of two points, taken with the byte-lexicographically smaller one first.
pub open spec fn canonical_sum(p1: Seq<u8>, p2: Seq<u8>) -> Option<Seq<u8>> {
    if bytes_lt(p2, p1) {
        point_sum_of(p2, p1)
    } else {
        point_sum_of(p1, p2)
    }
}

/// The revocation point of a basepoint and a per-commitment point:
/// `basepoint * H(basepoint || pcp) + pcp * H(pcp || basepoint)`.
pub open spec fn revocation_point(basepoint: Seq<u8>, pcp: Seq<u8>) -> Option<Seq<u8>> {
    match (
        point_mul_tweak_of(basepoint, tweak_of(basepoint, pcp)),
        point_mul_tweak_of(pcp, tweak_of(pcp, basepoint)),
    ) {
        (Some(p1), Some(p2)) => canonical_sum(p1, p2),
        _ => None,
    }
}

/// The revocation secret of a per-commitment secret and a base secret:
/// `base * H(B || P) + pcs * H(P || B)` modulo the curve order, where `B` and
/// `P` are the public points of `base` and `pcs`.
pub open spec fn revocation_secret(pcs: Seq<u8>, base: Seq<u8>) -> Option<Seq<u8>> {
    match (point_of_secret_of(base), point_of_secret_of(pcs)) {
        (Some(bp), Some(pp)) => match (
            secret_mul_tweak_of(base, tweak_of(bp, pp)),
            secret_mul_tweak_of(pcs, tweak_of(pp, bp)),
        ) {
            (Some(s1), Some(s2)) => secret_sum_of(s1, s2),
            _ => None,
        },
        _ => None,
    }
}

/// The revocation point is symmetric in its two points.
pub proof fn lemma_revocation_point_symmetric(a: Seq<u8>, b: Seq<u8>)
    ensures
        revocation_point(a, b) == revocation_point(b, a),
{
    let ma = point_mul_tweak_of(a, tweak_of(a, b));
    let mb = point_mul_tweak_of(b, tweak_of(b, a));
    if ma is Some && mb is Some {
        let p1 = ma->Some_0;
        let p2 = mb->Some_0;
        lemma_output_order_total((0u64, p1), (0u64, p2), (0u64, p2));
        assert(canonical_sum(p1, p2) == canonical_sum(p2, p1));
    }
}

fn concat(a: &Vec<u8>, b: &Vec<u8>) -> (r: Vec<u8>)
    ensures
        r@ == a@ + b@,
{
    let mut r: Vec<u8> = Vec::new();
    let mut i: usize = 0;
    while i < a.len()
        invariant
            i <= a.len(),
            r@ == a@.subrange(0, i as int),
        decreases a.len() - i,
    {
        r.push(a[i]);
        i = i + 1;
    }
    let mut j: usize = 0;
    while j < b.len()
        invariant
            j <= b.len(),
            r@ == a@ + b@.subrange(0, j as int),
        decreases b.len() - j,
    {
        r.push(b[j]);
        j = j + 1;
    }
    assert(a@.subrange(0, a@.len() as int) =~= a@);
    assert(b@.subrange(0, b@.len() as int) =~= b@);
    r
}

/// Derives the revocation public key from the countersignatory's revocation
/// basepoint and the per-commitment point, each a 33-byte compressed point.
/// The two tweaked points are added smaller-first, so both parties hand the
/// curve library the same sum whatever order they name the points in. A zero
/// tweak or a zero sum is not guarded against beyond the library's own checks:
/// it needs a hash collision with the curve order.
pub fn generate_revocation_pubkey(
    countersignatory_basepoint: &Vec<u8>,
    per_commitment_point: &Vec<u8>,
) -> (r: Result<Vec<u8>, ChannelError>)
    ensures
        r matches Ok(v) ==> revocation_point(countersignatory_basepoint@, per_commitment_point@)
            == Some(v@) && v@.len() == 33,
        r matches Err(e) ==> e == ChannelError::InvalidPoint && revocation_point(
            countersignatory_basepoint@,
            per_commitment_point@,
        ) is None,
{
    let tweak1 = sha256(&concat(countersignatory_basepoint, per_commitment_point));
    let tweak2 = sha256(&concat(per_commitment_point, countersignatory_basepoint));
    let p1 = match point_mul_tweak(countersignatory_basepoint, &tweak1) {
        Some(p) => p,
        None => return Err(ChannelError::InvalidPoint),
    };
    let p2 = match point_mul_tweak(per_commitment_point, &tweak2) {
        Some(p) => p,
        None => return Err(ChannelError::InvalidPoint),
    };
    let sum = if bytes_less(&p2, &p1) {
        point_sum(&p2, &p1)
    } else {
        point_sum(&p1, &p2)
    };
    match sum {
        Some(v) => Ok(v),
        None => Err(ChannelError::InvalidPoint),
    }
}

/// Derives the revocation secret key from the countersignatory's per-commitment
/// secret and the revocation base secret, each 32 bytes. As with the public
/// key, a zero tweak or sum is left to the curve library's own checks.
pub fn generate_revocation_privkey(
    countersignatory_per_commitment_secret: &Vec<u8>,
    revocation_base_secret: &Vec<u8>,
) -> (r: Result<Vec<u8>, ChannelError>)
    ensures
        r matches Ok(v) ==> revocation_secret(
            countersignatory_per_commitment_secret@,
            revocation_base_secret@,
        ) == Some(v@) && v@.len() == 32,
        r matches Err(e) ==> e == ChannelError::InvalidScalar && revocation_secret(
            countersignatory_per_commitment_secret@,
            revocation_base_secret@,
        ) is None,
{
    let base_point = match point_of_secret(revocation_base_secret) {
        Some(p) => p,
        None => return Err(ChannelError::InvalidScalar),
    };
    let per_commitment_point = match point_of_secret(countersignatory_per_commitment_secret) {
        Some(p) => p,
        None => return Err(ChannelError::InvalidScalar),
    };
    let tweak1 = sha256(&concat(&base_point, &per_commitment_point));
    let tweak2 = sha256(&concat(&per_commitment_point, &base_point));
    let s1 = match secret_mul_tweak(revocation_base_secret, &tweak1) {
        Some(s) => s,
        None => return Err(ChannelError::InvalidScalar),
    };
    let s2 = match secret_mul_tweak(countersignatory_per_commitment_secret, &tweak2) {
        Some(s) => s,
        None => return Err(ChannelError::InvalidScalar),
    };
    match secret_sum(&s1, &s2) {
        Some(v) => Ok(v),
        None => Err(ChannelError::InvalidScalar),
    }
}

} // verus!
