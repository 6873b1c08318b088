//! The BLS12-381 operations that Groth16 verification needs, from the
//! bls12_381 crate. Points, scalars and pairing results are opaque here: the
//! library carries them from one operation to the next.
use vstd::prelude::*;
use bls12_381::{G1Affine, G1Projective, G2Affine, G2Prepared, Gt, MillerLoopResult, Scalar};

verus! {

#[verifier::external_type_specification]
#[verifier::external_body]
pub struct ExG1Affine(bls12_381::G1Affine);

#[verifier::external_type_specification]
#[verifier::external_body]
pub struct ExG1Projective(bls12_381::G1Projective);

#[verifier::external_type_specification]
#[verifier::external_body]
pub struct ExG2Affine(bls12_381::G2Affine);

#[verifier::external_type_specification]
#[verifier::external_body]
pub struct ExG2Prepared(bls12_381::G2Prepared);

#[verifier::external_type_specification]
#[verifier::external_body]
pub struct ExScalar(bls12_381::Scalar);

#[verifier::external_type_specification]
#[verifier::external_body]
pub struct ExGt(bls12_381::Gt);

#[verifier::external_type_specification]
#[verifier::external_body]
pub struct ExMillerLoopResult(bls12_381::MillerLoopResult);

/// Whether 96 bytes are the uncompressed encoding of a G1 point (on the
/// curve, in the prime-order subgroup, with well-formed flag bits).
pub uninterp spec fn g1_decodes(b: Seq<u8>) -> bool;

/// Whether 192 bytes are the uncompressed encoding of a G2 point (on the
/// twist, in the prime-order subgroup, with well-formed flag bits).
pub uninterp spec fn g2_decodes(b: Seq<u8>) -> bool;

/// The G1 point that valid uncompressed bytes encode.
pub uninterp spec fn g1_point(b: Seq<u8>) -> G1Affine;

/// The G2 point that valid uncompressed bytes encode.
pub uninterp spec fn g2_point(b: Seq<u8>) -> G2Affine;

/// The field scalar equal to an integer.
pub uninterp spec fn scalar_of(n: u64) -> Scalar;

/// A G1 point in projective form.
pub uninterp spec fn to_proj_of(p: G1Affine) -> G1Projective;

/// A projective G1 point in affine form.
pub uninterp spec fn to_affine_of(p: G1Projective) -> G1Affine;

/// The scalar multiple s·p in G1.
pub uninterp spec fn mul_of(p: G1Affine, s: Scalar) -> G1Projective;

/// The group sum a + b in G1.
pub uninterp spec fn add_of(a: G1Projective, b: G1Projective) -> G1Projective;

/// The pairing e(p, q).
pub uninterp spec fn pairing_of(p: G1Affine, q: G2Affine) -> Gt;

/// The Miller-loop coefficients of a G2 point.
pub uninterp spec fn prepared_of(q: G2Affine) -> G2Prepared;

/// The Miller loop over three pairs.
pub uninterp spec fn mml3_of(
    a1: G1Affine,
    b1: G2Prepared,
    a2: G1Affine,
    b2: G2Prepared,
    a3: G1Affine,
    b3: G2Prepared,
) -> MillerLoopResult;

/// The final exponentiation of a Miller-loop result.
pub uninterp spec fn final_exp_of(m: MillerLoopResult) -> Gt;

/// Relies on `G1Affine::from_uncompressed`: a point exactly when the bytes
/// encode a valid one; the outcome depends on the bytes alone.
#[verifier::external_body]
pub(crate) fn g1_from_uncompressed(b: &[u8; 96]) -> (r: Option<G1Affine>)
    ensures
        r is Some <==> g1_decodes(b@),
        r matches Some(p) ==> p == g1_point(b@),
{
    Option::from(G1Affine::from_uncompressed(b))
}

/// Relies on `G2Affine::from_uncompressed`: a point exactly when the bytes
/// encode a valid one; the outcome depends on the bytes alone.
#[verifier::external_body]
pub(crate) fn g2_from_uncompressed(b: &[u8; 192]) -> (r: Option<G2Affine>)
    ensures
        r is Some <==> g2_decodes(b@),
        r matches Some(q) ==> q == g2_point(b@),
{
    Option::from(G2Affine::from_uncompressed(b))
}

/// Relies on `Scalar::from(u64)`: the field scalar of an integer.
#[verifier::external_body]
pub(crate) fn scalar_from_u64(n: u64) -> (r: Scalar)
    ensures
        r == scalar_of(n),
{
    Scalar::from(n)
}

/// Relies on `G1Projective::from(&G1Affine)`: the same point in projective form.
#[verifier::external_body]
pub(crate) fn g1_to_projective(p: &G1Affine) -> (r: G1Projective)
    ensures
        r == to_proj_of(*p),
{
    G1Projective::from(p)
}

/// Relies on `G1Projective::from` into `G1Affine`: the same point in affine form.
#[verifier::external_body]
pub(crate) fn g1_to_affine(p: &G1Projective) -> (r: G1Affine)
    ensures
        r == to_affine_of(*p),
{
    G1Affine::from(p)
}

/// Relies on `&G1Affine * &Scalar`: scalar multiplication in G1.
#[verifier::external_body]
pub(crate) fn g1_mul(p: &G1Affine, s: &Scalar) -> (r: G1Projective)
    ensures
        r == mul_of(*p, *s),
{
    p * s
}

/// Relies on `G1Projective += &G1Projective`: group addition in G1.
#[verifier::external_body]
pub(crate) fn g1_add_assign(acc: &mut G1Projective, x: &G1Projective)
    ensures
        *final(acc) == add_of(*old(acc), *x),
{
    *acc += x;
}

/// Relies on `bls12_381::pairing`: the pairing e(p, q).
#[verifier::external_body]
pub(crate) fn pairing(p: &G1Affine, q: &G2Affine) -> (r: Gt)
    ensures
        r == pairing_of(*p, *q),
{
    bls12_381::pairing(p, q)
}

/// Relies on `G2Prepared::from(G2Affine)`: the line coefficients of a G2
/// point for the Miller loop.
#[verifier::external_body]
pub(crate) fn g2_prepare(q: &G2Affine) -> (r: G2Prepared)
    ensures
        r == prepared_of(*q),
{
    G2Prepared::from(*q)
}

/// Relies on `bls12_381::multi_miller_loop`: one Miller loop over three
/// pairs, before the final exponentiation.
#[verifier::external_body]
pub(crate) fn multi_miller_loop3(
    a1: &G1Affine,
    b1: &G2Prepared,
    a2: &G1Affine,
    b2: &G2Prepared,
    a3: &G1Affine,
    b3: &G2Prepared,
) -> (r: MillerLoopResult)
    ensures
        r == mml3_of(*a1, *b1, *a2, *b2, *a3, *b3),
{
    bls12_381::multi_miller_loop(&[(a1, b1), (a2, b2), (a3, b3)])
}

/// Relies on `MillerLoopResult::final_exponentiation`.
#[verifier::external_body]
pub(crate) fn final_exponentiation(m: &MillerLoopResult) -> (r: Gt)
    ensures
        r == final_exp_of(*m),
{
    m.final_exponentiation()
}

/// Relies on `Gt == Gt`: equality of pairing results, compared on their
/// canonical (fully reduced) field limbs, so equal exactly when the values are.
#[verifier::external_body]
pub(crate) fn gt_eq(a: &Gt, b: &Gt) -> (r: bool)
    ensures
        r == (*a == *b),
{
    a == b
}

} // verus!
