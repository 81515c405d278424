//! A pairing-based group signature scheme over BLS12-381.
//!
//! A member of a group holds a credential issued from the group secret key
//! and can sign anonymously: a signature verifies against the group public
//! key alone, yet the holder of the group secret key can recover the
//! signer's credential point from any valid signature.
//!
//! The scheme composes a Boneh–Boyen-style credential, checked through a
//! pairing equation, with a non-interactive proof of knowledge of that
//! credential (a Fiat–Shamir transform over SHA-256).  The curve and field
//! arithmetic comes from the `bls12_381` crate through the trusted adapter
//! in `bls`; everything the scheme itself does is specified against the
//! model in `model` and verified.

pub mod bls;
pub mod laws;
pub mod model;
pub mod sign;

use vstd::prelude::*;

use bls12_381::{G1Projective, G2Projective, Scalar};
use rand::RngCore;

use crate::bls::{
    g1_add, g1_dlog, g1_eq, g1_generator, g1_mul, g1_sub, g2_dlog, g2_generator, g2_mul,
    gen_rand_g1, gen_rand_scalar, gt_add, gt_mul_scalar, gt_sub, gt_to_bytes, g1_to_bytes,
    pairing_points, scalar_add, scalar_eq, scalar_from_raw, scalar_invert, scalar_neg, scalar_val,
    sha256,
};
use crate::model::{add_m, mul_m, open_val, r_mod, reduced, GpkV, GskV, SigV, UskV};

verus! {

/// The group secret key: `xi_1` and `xi_2` open signatures, `gamma`
/// issues credentials.
pub struct GSK {
    pub xi_1: Scalar,
    pub xi_2: Scalar,
    pub gamma: Scalar,
}

impl View for GSK {
    type V = GskV;

    open spec fn view(&self) -> GskV {
        GskV {
            xi_1: scalar_val(self.xi_1),
            xi_2: scalar_val(self.xi_2),
            gamma: scalar_val(self.gamma),
        }
    }
}

/// The group public key: `h`, `u`, `v`, `g1` in the first source group,
/// `w`, `g2` in the second.
pub struct GPK {
    pub h: G1Projective,
    pub u: G1Projective,
    pub v: G1Projective,
    pub w: G2Projective,
    pub g1: G1Projective,
    pub g2: G2Projective,
}

impl View for GPK {
    type V = GpkV;

    open spec fn view(&self) -> GpkV {
        GpkV {
            h: g1_dlog(self.h),
            u: g1_dlog(self.u),
            v: g1_dlog(self.v),
            w: g2_dlog(self.w),
            g1: g1_dlog(self.g1),
            g2: g2_dlog(self.g2),
        }
    }
}

/// What `setup` returns: a fresh key pair.
pub struct SetUpResult {
    pub gpk: GPK,
    pub gsk: GSK,
}

/// A member credential: the secret exponent `x` and the credential point
/// `a = g1^(1/(gamma + x))`.
pub struct USK {
    pub x: Scalar,
    pub a: G1Projective,
}

impl View for USK {
    type V = UskV;

    open spec fn view(&self) -> UskV {
        UskV { x: scalar_val(self.x), a: g1_dlog(self.a) }
    }
}

/// A signature: three commitments, the challenge, and five responses.
pub struct Signature {
    pub t1: G1Projective,
    pub t2: G1Projective,
    pub t3: G1Projective,
    pub c: Scalar,
    pub sa: Scalar,
    pub sb: Scalar,
    pub sx: Scalar,
    pub s_delta1: Scalar,
    pub s_delta2: Scalar,
}

impl View for Signature {
    type V = SigV;

    open spec fn view(&self) -> SigV {
        SigV {
            t1: g1_dlog(self.t1),
            t2: g1_dlog(self.t2),
            t3: g1_dlog(self.t3),
            c: scalar_val(self.c),
            sa: scalar_val(self.sa),
            sb: scalar_val(self.sb),
            sx: scalar_val(self.sx),
            s_delta1: scalar_val(self.s_delta1),
            s_delta2: scalar_val(self.s_delta2),
        }
    }
}

/// Issuance fails when the sampled exponent collides with the group
/// secret: `gamma + x = 0` admits no credential point.
#[derive(Debug)]
pub enum IssueError {
    DegenerateCredential,
}

/// Appends every byte of `src` to `dst`.
pub(crate) fn push_bytes(dst: &mut Vec<u8>, src: &Vec<u8>)
    ensures
        final(dst)@ == old(dst)@ + src@,
{
    let mut i: usize = 0;
    while i < src.len()
        invariant
            i <= src.len(),
            dst@ == old(dst)@ + src@.subrange(0, i as int),
        decreases src.len() - i,
    {
        dst.push(src[i]);
        proof {
            assert(dst@ == old(dst)@ + src@.subrange(0, i + 1 as int));
        }
        i = i + 1;
    }
    proof {
        assert(src@.subrange(0, src@.len() as int) == src@);
    }
}

/// Reads the big-endian 64-bit integer held by `d[i..i + 8]`.
pub(crate) fn be_u64_from(d: &Vec<u8>, i: usize) -> (r: u64)
    requires
        i + 8 <= d@.len(),
    ensures
        r == model::be_u64_at(d@, i as int),
{
    let len: usize = d.len();
    assert(i + 8 <= len);
    (d[i] as u64) * 0x100_0000_0000_0000 + (d[i + 1] as u64) * 0x1_0000_0000_0000 + (d[i + 2]
        as u64) * 0x100_0000_0000 + (d[i + 3] as u64) * 0x1_0000_0000 + (d[i + 4] as u64)
        * 0x100_0000 + (d[i + 5] as u64) * 0x1_0000 + (d[i + 6] as u64) * 0x100 + (d[i + 7] as u64)
}

/// Hashes a byte string with SHA-256 and reads the 256-bit digest as four
/// big-endian 64-bit limbs, the first least significant, reduced modulo
/// the group order.  This is the Fiat–Shamir challenge derivation.
pub fn calc_sha256_scalar(vec: &[u8]) -> (r: Scalar)
    ensures
        scalar_val(r) == model::hash_to_scalar_val(vec@),
{
    let hashed = sha256(vec);
    let l0 = be_u64_from(&hashed, 0);
    let l1 = be_u64_from(&hashed, 8);
    let l2 = be_u64_from(&hashed, 16);
    let l3 = be_u64_from(&hashed, 24);
    scalar_from_raw(l0, l1, l2, l3)
}

/// Generates a fresh group key pair: secret scalars `xi_1`, `xi_2`,
/// `gamma` and the public elements `u = tmp^xi_1`, `v = tmp^xi_2`,
/// `h = u^xi_2`, `w = g2^gamma` over the fixed generators.
pub fn setup<R: RngCore>(rng: &mut R) -> (r: SetUpResult)
    ensures
        r.gsk@.wf(),
        r.gpk@.wf(),
        r.gpk@.g1 == 1nat,
        r.gpk@.g2 == 1nat,
        r.gpk@.h == mul_m(r.gpk@.u, r.gsk@.xi_2),
        r.gpk@.w == mul_m(r.gpk@.g2, r.gsk@.gamma),
        exists|t: nat|
            reduced(t) && r.gpk@.u == mul_m(t, r.gsk@.xi_1) && r.gpk@.v == mul_m(
                t,
                r.gsk@.xi_2,
            ),
{
    let g1 = g1_generator();
    let g2 = g2_generator();

    let xi_1 = gen_rand_scalar(rng);
    let xi_2 = gen_rand_scalar(rng);

    let tmp = gen_rand_g1(rng);

    let u = g1_mul(&tmp, &xi_1);
    let v = g1_mul(&tmp, &xi_2);

    let h = g1_mul(&u, &xi_2);

    let gamma = gen_rand_scalar(rng);
    let w = g2_mul(&g2, &gamma);

    proof {
        let td = g1_dlog(tmp);
        assert(reduced(td) && g1_dlog(u) == mul_m(td, scalar_val(xi_1)) && g1_dlog(v) == mul_m(
            td,
            scalar_val(xi_2),
        ));
    }

    let gsk = GSK { xi_1, xi_2, gamma };
    let gpk = GPK { h, u, v, w, g1, g2 };

    SetUpResult { gsk, gpk }
}

/// Derives the credential for a given member exponent `x`:
/// `a = g1^(1/(gamma + x))`.  Fails exactly when `gamma + x = 0`, the one
/// degenerate choice of `x`, which admits no inverse.
pub fn issue_with_x(gsk: &GSK, gpk: &GPK, x: Scalar) -> (r: Result<USK, IssueError>)
    ensures
        r is Ok <==> add_m(gsk@.gamma, scalar_val(x)) != 0,
        r is Err <==> add_m(gsk@.gamma, scalar_val(x)) == 0,
        r is Ok ==> (r->Ok_0)@.x == scalar_val(x),
        r is Ok ==> reduced((r->Ok_0)@.a),
        r is Ok ==> (r->Ok_0)@.bound_to(gsk@.gamma, gpk@.g1),
{
    let y = scalar_add(&gsk.gamma, &x);
    proof {
        vstd::arithmetic::div_mod::lemma_small_mod(add_m(gsk@.gamma, scalar_val(x)), r_mod());
    }
    match scalar_invert(&y) {
        None => Err(IssueError::DegenerateCredential),
        Some(inv) => {
            let a = g1_mul(&gpk.g1, &inv);
            proof {
                lemma_issue_binds(
                    gpk@.g1,
                    scalar_val(inv),
                    add_m(gsk@.gamma, scalar_val(x)),
                );
            }
            Ok(USK { a, x })
        },
    }
}

/// Shows that `a = g1^i` with `i` the inverse of `s` satisfies the
/// credential relation `a^s = g1`.
proof fn lemma_issue_binds(g: nat, i: nat, s: nat)
    requires
        mul_m(i, s) == 1nat % r_mod(),
    ensures
        mul_m(mul_m(g, i), s) == g % r_mod(),
{
    let m = r_mod() as int;
    let gi = g as int;
    let ii = i as int;
    let si = s as int;
    vstd::arithmetic::div_mod::lemma_mul_mod_noop_left(gi * ii, si, m);
    assert(mul_m(mul_m(g, i), s) == ((gi * ii) * si) % m);
    vstd::arithmetic::mul::lemma_mul_is_associative(gi, ii, si);
    vstd::arithmetic::div_mod::lemma_mul_mod_noop_right(gi, ii * si, m);
    assert((gi * ((ii * si) % m)) % m == ((gi * ii) * si) % m);
    assert((ii * si) % m == 1int % m);
    vstd::arithmetic::div_mod::lemma_mul_mod_noop_right(gi, 1int, m);
    assert((gi * (1int % m)) % m == (gi * 1) % m);
    assert(gi * 1 == gi);
}

/// Issues a member credential from a freshly sampled exponent.  The
/// degenerate sample `gamma + x = 0` is surfaced as an error for the
/// caller to resample; it is never silently turned into a credential.
pub fn issue<R: RngCore>(gsk: &GSK, gpk: &GPK, rng: &mut R) -> (r: Result<USK, IssueError>)
    ensures
        r is Ok ==> (r->Ok_0)@.wf(),
        r is Ok ==> (r->Ok_0)@.bound_to(gsk@.gamma, gpk@.g1),
{
    let x = gen_rand_scalar(rng);
    issue_with_x(gsk, gpk, x)
}

/// Checks a signature against the group public key: reconstructs the five
/// commitments an honest signer would have committed to, re-derives the
/// Fiat–Shamir challenge from their transcript, and accepts exactly when
/// it equals the signature's own challenge.
pub fn verify(signature: &Signature, gpk: &GPK) -> (r: Result<(), ()>)
    ensures
        r is Ok <==> scalar_val(signature.c) == model::verify_challenge(signature@, gpk@),
        r is Err <==> scalar_val(signature.c) != model::verify_challenge(signature@, gpk@),
{
    let r1_v = g1_add(
        &g1_mul(&gpk.u, &signature.sa),
        &g1_mul(&signature.t1, &scalar_neg(&signature.c)),
    );
    let r2_v = g1_add(
        &g1_mul(&gpk.v, &signature.sb),
        &g1_mul(&signature.t2, &scalar_neg(&signature.c)),
    );

    let a1_v = pairing_points(&signature.t3, &gpk.g2);
    let a2_v = pairing_points(&gpk.h, &gpk.w);
    let a3_v = pairing_points(&gpk.h, &gpk.g2);
    let a4_v = pairing_points(&signature.t3, &gpk.w);
    let a5_v = pairing_points(&gpk.g1, &gpk.g2);

    let neg_s_ab = scalar_neg(&scalar_add(&signature.sa, &signature.sb));
    let neg_s_delta = scalar_neg(&scalar_add(&signature.s_delta1, &signature.s_delta2));
    let r3_v = gt_add(
        &gt_add(
            &gt_add(&gt_mul_scalar(&a1_v, &signature.sx), &gt_mul_scalar(&a2_v, &neg_s_ab)),
            &gt_mul_scalar(&a3_v, &neg_s_delta),
        ),
        &gt_mul_scalar(&gt_sub(&a4_v, &a5_v), &signature.c),
    );

    let r4_v = g1_add(
        &g1_mul(&signature.t1, &signature.sx),
        &g1_mul(&gpk.u, &scalar_neg(&signature.s_delta1)),
    );
    let r5_v = g1_add(
        &g1_mul(&signature.t2, &signature.sx),
        &g1_mul(&gpk.v, &scalar_neg(&signature.s_delta2)),
    );

    let mut c_v: Vec<u8> = Vec::new();
    push_bytes(&mut c_v, &g1_to_bytes(&signature.t1));
    push_bytes(&mut c_v, &g1_to_bytes(&signature.t2));
    push_bytes(&mut c_v, &g1_to_bytes(&signature.t3));
    push_bytes(&mut c_v, &g1_to_bytes(&r1_v));
    push_bytes(&mut c_v, &g1_to_bytes(&r2_v));
    push_bytes(&mut c_v, &gt_to_bytes(&r3_v));
    push_bytes(&mut c_v, &g1_to_bytes(&r4_v));
    push_bytes(&mut c_v, &g1_to_bytes(&r5_v));

    proof {
        let s = signature@;
        let k = gpk@;
        assert(c_v@ =~= bls::g1_enc(s.t1) + bls::g1_enc(s.t2) + bls::g1_enc(s.t3) + bls::g1_enc(
            g1_dlog(r1_v),
        ) + bls::g1_enc(g1_dlog(r2_v)) + bls::gt_enc(bls::gt_dlog(r3_v)) + bls::g1_enc(
            g1_dlog(r4_v),
        ) + bls::g1_enc(g1_dlog(r5_v)));
    }

    let c_v = calc_sha256_scalar(c_v.as_slice());

    if scalar_eq(&c_v, &signature.c) {
        Ok(())
    } else {
        Err(())
    }
}

/// Recovers the signer's credential point from a signature:
/// `t3 - (t1^xi_2 + t2^xi_1)`.  Meaningful only for a signature already
/// verified under the public key this secret key belongs to.
pub fn open(signature: &Signature, gsk: &GSK) -> (r: G1Projective)
    ensures
        g1_dlog(r) == open_val(signature@, gsk@),
{
    let lifted = g1_add(
        &g1_mul(&signature.t1, &gsk.xi_2),
        &g1_mul(&signature.t2, &gsk.xi_1),
    );
    g1_sub(&signature.t3, &lifted)
}

/// Whether opening the signature under the group secret key recovers
/// exactly this member's credential point.
pub fn is_signed_member(usk: &USK, signature: &Signature, gsk: &GSK) -> (r: bool)
    ensures
        r == (usk@.a == open_val(signature@, gsk@)),
{
    let a_v = open(signature, gsk);
    g1_eq(&usk.a, &a_v)
}

} // verus!
