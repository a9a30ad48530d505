//! The two groups of BLS12-381 as seen by the aggregation logic: each point
//! is held as its canonical compressed encoding, and the arithmetic on it is
//! done by arkworks.
use vstd::prelude::*;

use ark_bls12_381::{G1Affine, G1Projective, G2Affine, G2Projective};
use ark_ec::{AffineCurve, ProjectiveCurve};
use ark_ff::Zero;
use ark_serialize::{CanonicalDeserialize, CanonicalSerialize};

verus! {

/// Encoding of the identity of the encryption group (G1): a zero base-field
/// element of 48 bytes whose last byte carries the infinity flag (bit 6).
pub open spec fn g1_identity_bytes() -> Seq<u8> {
    Seq::new(48, |i: int| if i == 47 { 0x40u8 } else { 0u8 })
}

/// Encoding of the identity of the commitment group (G2): a zero element of
/// the quadratic extension, 96 bytes, whose last byte carries the infinity flag.
pub open spec fn g2_identity_bytes() -> Seq<u8> {
    Seq::new(96, |i: int| if i == 95 { 0x40u8 } else { 0u8 })
}

/// `x` is the canonical encoding of a G1 point: it decodes, and encoding the
/// negation of the negation gives `x` back.
pub open spec fn g1_canonical(x: Seq<u8>) -> bool {
    g1_negation(x) is Some && g1_negation(g1_negation(x).unwrap()) == Some(x)
}

/// `x` is the canonical encoding of a G2 point.
pub open spec fn g2_canonical(x: Seq<u8>) -> bool {
    g2_negation(x) is Some && g2_negation(g2_negation(x).unwrap()) == Some(x)
}

/// The encoding of the sum of the G1 points that `a` and `b` encode, or
/// `None` where one of them encodes no point of the group.
pub uninterp spec fn g1_sum(a: Seq<u8>, b: Seq<u8>) -> Option<Seq<u8>>;

/// The encoding of the G2 sum of the points that `a` and `b` encode.
pub uninterp spec fn g2_sum(a: Seq<u8>, b: Seq<u8>) -> Option<Seq<u8>>;

/// The encoding of the negation of the G1 point that `a` encodes.
pub uninterp spec fn g1_negation(a: Seq<u8>) -> Option<Seq<u8>>;

/// The encoding of the negation of the G2 point that `a` encodes.
pub uninterp spec fn g2_negation(a: Seq<u8>) -> Option<Seq<u8>>;

/// Relies on `Zero::zero` of ark_bls12_381's `G1Projective` and on its
/// compressed `CanonicalSerialize` encoding (the point at infinity is written
/// as a zero coordinate with the infinity flag).
#[verifier::external_body]
pub(crate) fn g1_identity() -> (r: Vec<u8>)
    ensures
        r@ == g1_identity_bytes(),
{
    let mut out: Vec<u8> = Vec::new();
    let _written = G1Projective::zero().serialize(&mut out);
    out
}

/// Relies on `Zero::zero` of ark_bls12_381's `G2Projective` and on its
/// compressed `CanonicalSerialize` encoding.
#[verifier::external_body]
pub(crate) fn g2_identity() -> (r: Vec<u8>)
    ensures
        r@ == g2_identity_bytes(),
{
    let mut out: Vec<u8> = Vec::new();
    let _written = G2Projective::zero().serialize(&mut out);
    out
}

/// Relies on `CanonicalDeserialize` of ark_bls12_381's `G1Affine` (decoding
/// fails on bytes that are no point of the subgroup), on the group addition
/// of `G1Projective`, and on `CanonicalSerialize` of the sum. Addition
/// commutes, the identity added to itself is the identity, a point added to
/// its negation is the identity, the identity added to a canonical encoding
/// gives it back, and two canonical encodings have a canonical sum.
#[verifier::external_body]
pub(crate) fn g1_add(a: &Vec<u8>, b: &Vec<u8>) -> (r: Option<Vec<u8>>)
    ensures
        match r {
            Some(v) => g1_sum(a@, b@) == Some(v@),
            None => g1_sum(a@, b@) is None,
        },
        match r {
            Some(v) => g1_sum(b@, a@) == Some(v@),
            None => g1_sum(b@, a@) is None,
        },
        a@ == g1_identity_bytes() && b@ == g1_identity_bytes() ==> (r is Some && r.unwrap()@
            == g1_identity_bytes()),
        g1_negation(a@) == Some(b@) ==> (r is Some && r.unwrap()@ == g1_identity_bytes()),
        a@ == g1_identity_bytes() && g1_canonical(b@) ==> (r is Some && r.unwrap()@ == b@),
        g1_canonical(a@) && g1_canonical(b@) ==> (r is Some && g1_canonical(r.unwrap()@)),
{
    let p = G1Affine::deserialize(&a[..]).ok()?;
    let q = G1Affine::deserialize(&b[..]).ok()?;
    let mut out: Vec<u8> = Vec::new();
    (p.into_projective() + q.into_projective()).serialize(&mut out).ok()?;
    Some(out)
}

/// Relies on `CanonicalDeserialize` of ark_bls12_381's `G2Affine`, on the
/// group addition of `G2Projective`, and on `CanonicalSerialize` of the sum,
/// with the same facts as for G1.
#[verifier::external_body]
pub(crate) fn g2_add(a: &Vec<u8>, b: &Vec<u8>) -> (r: Option<Vec<u8>>)
    ensures
        match r {
            Some(v) => g2_sum(a@, b@) == Some(v@),
            None => g2_sum(a@, b@) is None,
        },
        match r {
            Some(v) => g2_sum(b@, a@) == Some(v@),
            None => g2_sum(b@, a@) is None,
        },
        a@ == g2_identity_bytes() && b@ == g2_identity_bytes() ==> (r is Some && r.unwrap()@
            == g2_identity_bytes()),
        g2_negation(a@) == Some(b@) ==> (r is Some && r.unwrap()@ == g2_identity_bytes()),
        a@ == g2_identity_bytes() && g2_canonical(b@) ==> (r is Some && r.unwrap()@ == b@),
        g2_canonical(a@) && g2_canonical(b@) ==> (r is Some && g2_canonical(r.unwrap()@)),
{
    let p = G2Affine::deserialize(&a[..]).ok()?;
    let q = G2Affine::deserialize(&b[..]).ok()?;
    let mut out: Vec<u8> = Vec::new();
    (p.into_projective() + q.into_projective()).serialize(&mut out).ok()?;
    Some(out)
}

/// Relies on `CanonicalDeserialize` of ark_bls12_381's `G1Affine`, on its
/// `Neg`, and on `CanonicalSerialize` of the result.
#[verifier::external_body]
pub(crate) fn g1_neg(a: &Vec<u8>) -> (r: Option<Vec<u8>>)
    ensures
        match r {
            Some(v) => g1_negation(a@) == Some(v@),
            None => g1_negation(a@) is None,
        },
{
    let p = G1Affine::deserialize(&a[..]).ok()?;
    let mut out: Vec<u8> = Vec::new();
    (-p).serialize(&mut out).ok()?;
    Some(out)
}

/// Relies on `CanonicalDeserialize` of ark_bls12_381's `G2Affine`, on its
/// `Neg`, and on `CanonicalSerialize` of the result.
#[verifier::external_body]
pub(crate) fn g2_neg(a: &Vec<u8>) -> (r: Option<Vec<u8>>)
    ensures
        match r {
            Some(v) => g2_negation(a@) == Some(v@),
            None => g2_negation(a@) is None,
        },
{
    let p = G2Affine::deserialize(&a[..]).ok()?;
    let mut out: Vec<u8> = Vec::new();
    (-p).serialize(&mut out).ok()?;
    Some(out)
}

} // verus!
