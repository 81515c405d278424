//! Trusted adapter around the `bls12_381` pairing library.
//!
//! The library's contracts model every curve value by its index in the
//! cyclic group of prime order `r` (see `model::r_mod`): a scalar by the
//! canonical integer it represents, a point of `G1` or `G2` by its discrete
//! logarithm with respect to that group's fixed generator, and an element of
//! the pairing target group by its discrete logarithm with respect to
//! `e(g1, g2)`.  Those indices exist and are unique because each group is
//! cyclic of prime order; the functions below state the documented group
//! laws in terms of them.

use vstd::prelude::*;

use bls12_381::{G1Projective, G2Projective, Gt, Scalar};
use ff::Field;
use group::{Curve, Group, GroupEncoding};
use rand::RngCore;
use sha2::Digest;

use crate::model::{add_m, mul_m, neg_m, r_mod, raw_limbs_val, sub_m};

verus! {

#[verifier::external_type_specification]
#[verifier::external_body]
pub struct ExScalar(Scalar);

#[verifier::external_type_specification]
#[verifier::external_body]
pub struct ExG1(G1Projective);

#[verifier::external_type_specification]
#[verifier::external_body]
pub struct ExG2(G2Projective);

#[verifier::external_type_specification]
#[verifier::external_body]
pub struct ExGt(Gt);

/// The canonical integer in `[0, r)` that a scalar represents.
pub uninterp spec fn scalar_val(s: Scalar) -> nat;

/// The discrete logarithm of a `G1` point with respect to the fixed
/// `G1` generator.
pub uninterp spec fn g1_dlog(p: G1Projective) -> nat;

/// The discrete logarithm of a `G2` point with respect to the fixed
/// `G2` generator.
pub uninterp spec fn g2_dlog(p: G2Projective) -> nat;

/// The discrete logarithm of a target-group element with respect to the
/// pairing of the two fixed generators.
pub uninterp spec fn gt_dlog(x: Gt) -> nat;

/// The canonical compressed encoding of the `G1` point of a given index.
pub uninterp spec fn g1_enc(d: nat) -> Seq<u8>;

/// The canonical byte encoding of the target-group element of a given index.
pub uninterp spec fn gt_enc(d: nat) -> Seq<u8>;

/// The SHA-256 digest of a byte string.
pub uninterp spec fn sha256_digest(bytes: Seq<u8>) -> Seq<u8>;

/// Relies on `Scalar`'s `Add`: addition in the field of order `r`.
#[verifier::external_body]
pub(crate) fn scalar_add(a: &Scalar, b: &Scalar) -> (r: Scalar)
    ensures
        scalar_val(r) == add_m(scalar_val(*a), scalar_val(*b)),
{
    a + b
}

/// Relies on `Scalar`'s `Mul`: multiplication in the field of order `r`.
#[verifier::external_body]
pub(crate) fn scalar_mul(a: &Scalar, b: &Scalar) -> (r: Scalar)
    ensures
        scalar_val(r) == mul_m(scalar_val(*a), scalar_val(*b)),
{
    a * b
}

/// Relies on `Scalar`'s `Neg`: additive inverse in the field of order `r`.
#[verifier::external_body]
pub(crate) fn scalar_neg(a: &Scalar) -> (r: Scalar)
    ensures
        scalar_val(r) == neg_m(scalar_val(*a)),
{
    -a
}

/// Relies on `Scalar::invert`: the multiplicative inverse, defined exactly
/// for non-zero field elements.
#[verifier::external_body]
pub(crate) fn scalar_invert(a: &Scalar) -> (r: Option<Scalar>)
    ensures
        r is Some <==> scalar_val(*a) % r_mod() != 0,
        r is Some ==> mul_m(scalar_val(r->Some_0), scalar_val(*a)) == 1nat % r_mod(),
        r is Some ==> scalar_val(r->Some_0) < r_mod(),
{
    Option::<Scalar>::from(a.invert())
}

/// Relies on `Scalar`'s `PartialEq`: two scalars are equal exactly when
/// they represent the same canonical integer.
#[verifier::external_body]
pub(crate) fn scalar_eq(a: &Scalar, b: &Scalar) -> (r: bool)
    ensures
        r == (scalar_val(*a) == scalar_val(*b)),
{
    a == b
}

/// Relies on `Scalar::from_raw`: builds the scalar congruent modulo `r` to
/// the integer with the four given little-endian 64-bit limbs.
#[verifier::external_body]
pub(crate) fn scalar_from_raw(l0: u64, l1: u64, l2: u64, l3: u64) -> (r: Scalar)
    ensures
        scalar_val(r) == raw_limbs_val(l0, l1, l2, l3) % r_mod(),
{
    Scalar::from_raw([l0, l1, l2, l3])
}

/// Relies on `Scalar::random` (`ff::Field`): a uniformly sampled field
/// element; nothing is assumed beyond its range.
#[verifier::external_body]
pub(crate) fn gen_rand_scalar<R: RngCore>(rng: &mut R) -> (r: Scalar)
    ensures
        scalar_val(r) < r_mod(),
{
    Scalar::random(rng)
}

/// Relies on `G1Projective::random` (`group::Group`): a uniformly sampled
/// point; nothing is assumed beyond the range of its index.
#[verifier::external_body]
pub(crate) fn gen_rand_g1<R: RngCore>(rng: &mut R) -> (r: G1Projective)
    ensures
        g1_dlog(r) < r_mod(),
{
    G1Projective::random(rng)
}

/// Relies on `G1Projective::generator`: the fixed generator, of index 1.
#[verifier::external_body]
pub(crate) fn g1_generator() -> (r: G1Projective)
    ensures
        g1_dlog(r) == 1nat,
{
    G1Projective::generator()
}

/// Relies on `G2Projective::generator`: the fixed generator, of index 1.
#[verifier::external_body]
pub(crate) fn g2_generator() -> (r: G2Projective)
    ensures
        g2_dlog(r) == 1nat,
{
    G2Projective::generator()
}

/// Relies on `G1Projective`'s `Add`: the group law; indices add modulo `r`.
#[verifier::external_body]
pub(crate) fn g1_add(a: &G1Projective, b: &G1Projective) -> (r: G1Projective)
    ensures
        g1_dlog(r) == add_m(g1_dlog(*a), g1_dlog(*b)),
{
    a + b
}

/// Relies on `G1Projective`'s `Sub`: the group law; indices subtract
/// modulo `r`.
#[verifier::external_body]
pub(crate) fn g1_sub(a: &G1Projective, b: &G1Projective) -> (r: G1Projective)
    ensures
        g1_dlog(r) == sub_m(g1_dlog(*a), g1_dlog(*b)),
{
    a - b
}

/// Relies on `G1Projective`'s `Mul<Scalar>`: scalar multiplication; the
/// index is multiplied by the scalar modulo `r`.
#[verifier::external_body]
pub(crate) fn g1_mul(p: &G1Projective, s: &Scalar) -> (r: G1Projective)
    ensures
        g1_dlog(r) == mul_m(g1_dlog(*p), scalar_val(*s)),
{
    p * s
}

/// Relies on `G1Projective`'s `PartialEq`: two points are equal exactly
/// when they have the same index in the cyclic group.
#[verifier::external_body]
pub(crate) fn g1_eq(a: &G1Projective, b: &G1Projective) -> (r: bool)
    ensures
        r == (g1_dlog(*a) == g1_dlog(*b)),
{
    a == b
}

/// Relies on `G1Projective::to_bytes` (`group::GroupEncoding`): the
/// canonical 48-byte compressed encoding, a function of the point alone.
#[verifier::external_body]
pub(crate) fn g1_to_bytes(p: &G1Projective) -> (r: Vec<u8>)
    ensures
        r@ == g1_enc(g1_dlog(*p)),
        r@.len() == 48,
{
    p.to_bytes().as_ref().to_vec()
}

/// Relies on `G2Projective`'s `Mul<Scalar>`: scalar multiplication; the
/// index is multiplied by the scalar modulo `r`.
#[verifier::external_body]
pub(crate) fn g2_mul(p: &G2Projective, s: &Scalar) -> (r: G2Projective)
    ensures
        g2_dlog(r) == mul_m(g2_dlog(*p), scalar_val(*s)),
{
    p * s
}

/// Relies on `bls12_381::pairing` and the `to_affine` conversions: the
/// pairing is bilinear and non-degenerate, so the index of `e(p, q)` with
/// respect to `e(g1, g2)` is the product of the indices of `p` and `q`
/// modulo `r`.
#[verifier::external_body]
pub(crate) fn pairing_points(p: &G1Projective, q: &G2Projective) -> (r: Gt)
    ensures
        gt_dlog(r) == mul_m(g1_dlog(*p), g2_dlog(*q)),
{
    bls12_381::pairing(&p.to_affine(), &q.to_affine())
}

/// Relies on `Gt`'s `Add`: the target-group law; indices add modulo `r`.
#[verifier::external_body]
pub(crate) fn gt_add(a: &Gt, b: &Gt) -> (r: Gt)
    ensures
        gt_dlog(r) == add_m(gt_dlog(*a), gt_dlog(*b)),
{
    a + b
}

/// Relies on `Gt`'s `Sub`: the target-group law; indices subtract
/// modulo `r`.
#[verifier::external_body]
pub(crate) fn gt_sub(a: &Gt, b: &Gt) -> (r: Gt)
    ensures
        gt_dlog(r) == sub_m(gt_dlog(*a), gt_dlog(*b)),
{
    a - b
}

/// Relies on `Gt`'s `Mul<Scalar>`: scalar multiplication; the index is
/// multiplied by the scalar modulo `r`.
#[verifier::external_body]
pub(crate) fn gt_mul_scalar(x: &Gt, s: &Scalar) -> (r: Gt)
    ensures
        gt_dlog(r) == mul_m(gt_dlog(*x), scalar_val(*s)),
{
    x * s
}

/// Relies on `Gt`'s `Display`, which prints each coefficient of the
/// underlying field tower through `Fp`'s canonical `to_bytes` reduction:
/// the output is a fixed-shape, canonical encoding, a function of the
/// element alone.  (This version of the library gives the target group no
/// `to_bytes` of its own.)
#[verifier::external_body]
pub(crate) fn gt_to_bytes(x: &Gt) -> (r: Vec<u8>)
    ensures
        r@ == gt_enc(gt_dlog(*x)),
{
    format!("{}", x).into_bytes()
}

/// Relies on `sha2::Sha256::digest`: the 32-byte SHA-256 digest, a
/// function of the input bytes alone.
#[verifier::external_body]
pub(crate) fn sha256(bytes: &[u8]) -> (r: Vec<u8>)
    ensures
        r@ == sha256_digest(bytes@),
        r@.len() == 32,
{
    sha2::Sha256::digest(bytes).to_vec()
}

} // verus!
