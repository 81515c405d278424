//! The two-phase signing procedure.
//!
//! Phase one commits: the same blinded-commitment sub-protocol runs once
//! against each of the two public generators `u` and `v`, sharing a single
//! exponent blinder `rx`, and the pairing-based commitment linearizes the
//! credential equation.  The challenge is then derived by hashing the full
//! commitment transcript, and only then does phase two compute the
//! responses — the defining discipline of a Fiat–Shamir transform.

use vstd::prelude::*;

use bls12_381::{G1Projective, Scalar};
use rand::RngCore;

use crate::bls::{
    g1_add, g1_dlog, g1_mul, g1_to_bytes, gen_rand_scalar, gt_add, gt_dlog, gt_mul_scalar,
    gt_to_bytes, pairing_points, scalar_add, scalar_mul, scalar_neg, scalar_val,
};
use crate::calc_sha256_scalar;
use crate::model::{add_m, mul_m, neg_m, reduced, RandV};
use crate::push_bytes;
use crate::Signature;
use crate::GPK;
use crate::USK;

verus! {

/// One run of the blinded-commitment sub-protocol against a generator
/// `pk`: the sampled blinding values `y`, `r`, `r_delta`, the commitment
/// `t = pk^y`, the product `delta = y·x`, and the two auxiliary
/// commitments that tie `x`, `y` and `delta` together in the exponent.
pub struct SignCredBeforeHashing {
    pub y: Scalar,
    pub r: Scalar,
    pub r_delta: Scalar,
    pub t: G1Projective,
    pub delta: Scalar,
    pub r_first: G1Projective,
    pub r_second: G1Projective,
}

impl SignCredBeforeHashing {
    /// The commitment fields are exactly what the sub-protocol prescribes
    /// for the generator `pk`, member exponent `x` and shared blinder `rx`.
    pub open spec fn commits_for(self, x: nat, rx: nat, pk: nat) -> bool {
        &&& g1_dlog(self.t) == mul_m(pk, scalar_val(self.y))
        &&& scalar_val(self.delta) == mul_m(scalar_val(self.y), x)
        &&& g1_dlog(self.r_first) == mul_m(pk, scalar_val(self.r))
        &&& g1_dlog(self.r_second) == add_m(
            mul_m(g1_dlog(self.t), rx),
            mul_m(pk, neg_m(scalar_val(self.r_delta))),
        )
    }

    pub open spec fn wf(self) -> bool {
        reduced(scalar_val(self.y)) && reduced(scalar_val(self.r)) && reduced(
            scalar_val(self.r_delta),
        )
    }
}

/// The responses of one sub-protocol run: `s = r + c·y` and
/// `s_delta = r_delta + c·delta`.
pub struct SignCredAfterHashing {
    pub s: Scalar,
    pub s_delta: Scalar,
}

/// Phase one of one sub-protocol run: samples the blinding values and
/// computes the commitments against the generator `pk`, with the member
/// exponent `x` and the shared blinder `rx`.
pub fn process_sign_before_hash<R: RngCore>(
    x: &Scalar,
    rx: &Scalar,
    pk: &G1Projective,
    rng: &mut R,
) -> (cred: SignCredBeforeHashing)
    ensures
        cred.wf(),
        cred.commits_for(scalar_val(*x), scalar_val(*rx), g1_dlog(*pk)),
{
    let y = gen_rand_scalar(rng);
    let r = gen_rand_scalar(rng);
    let r_delta = gen_rand_scalar(rng);
    let t = g1_mul(pk, &y);
    let delta = scalar_mul(&y, x);
    let r_first = g1_mul(pk, &r);
    let r_second = g1_add(&g1_mul(&t, rx), &g1_mul(pk, &scalar_neg(&r_delta)));

    SignCredBeforeHashing { y, r, r_delta, t, delta, r_first, r_second }
}

/// Phase two of one sub-protocol run: folds the challenge into the
/// blinding values.
pub fn process_sign_after_hash(y: &SignCredBeforeHashing, c: &Scalar) -> (resp:
    SignCredAfterHashing)
    ensures
        scalar_val(resp.s) == add_m(scalar_val(y.r), mul_m(scalar_val(*c), scalar_val(y.y))),
        scalar_val(resp.s_delta) == add_m(
            scalar_val(y.r_delta),
            mul_m(scalar_val(*c), scalar_val(y.delta)),
        ),
{
    let s = scalar_add(&y.r, &scalar_mul(c, &y.y));
    let s_delta = scalar_add(&y.r_delta, &scalar_mul(c, &y.delta));

    SignCredAfterHashing { s, s_delta }
}

/// Signs under a member credential: two parallel commitment runs sharing
/// one exponent blinder, the blinded credential `t3 = a + h^(y_u + y_v)`,
/// the pairing commitment, the hashed challenge, and the responses.  The
/// result is exactly `sign_spec` of the credential, the public key and
/// some well-formed choice of blinding values.
pub fn sign<R: RngCore>(usk: &USK, gpk: &GPK, rng: &mut R) -> (signature: Signature)
    ensures
        exists|rn: RandV|
            rn.wf() && signature@ == crate::model::sign_spec(usk@, gpk@, rn),
{
    let rx = gen_rand_scalar(rng);
    let a = process_sign_before_hash(&usk.x, &rx, &gpk.u, rng);
    let b = process_sign_before_hash(&usk.x, &rx, &gpk.v, rng);

    let t3 = g1_add(&usk.a, &g1_mul(&gpk.h, &scalar_add(&a.y, &b.y)));

    let a1 = pairing_points(&t3, &gpk.g2);
    let a2 = pairing_points(&gpk.h, &gpk.w);
    let a3 = pairing_points(&gpk.h, &gpk.g2);

    let neg_r = scalar_neg(&scalar_add(&a.r, &b.r));
    let neg_r_delta = scalar_neg(&scalar_add(&a.r_delta, &b.r_delta));
    let r3 = gt_add(
        &gt_add(&gt_mul_scalar(&a1, &rx), &gt_mul_scalar(&a2, &neg_r)),
        &gt_mul_scalar(&a3, &neg_r_delta),
    );

    let mut c_bytes: Vec<u8> = Vec::new();
    push_bytes(&mut c_bytes, &g1_to_bytes(&a.t));
    push_bytes(&mut c_bytes, &g1_to_bytes(&b.t));
    push_bytes(&mut c_bytes, &g1_to_bytes(&t3));
    push_bytes(&mut c_bytes, &g1_to_bytes(&a.r_first));
    push_bytes(&mut c_bytes, &g1_to_bytes(&b.r_first));
    push_bytes(&mut c_bytes, &gt_to_bytes(&r3));
    push_bytes(&mut c_bytes, &g1_to_bytes(&a.r_second));
    push_bytes(&mut c_bytes, &g1_to_bytes(&b.r_second));

    proof {
        assert(c_bytes@ =~= crate::bls::g1_enc(g1_dlog(a.t)) + crate::bls::g1_enc(g1_dlog(b.t))
            + crate::bls::g1_enc(g1_dlog(t3)) + crate::bls::g1_enc(g1_dlog(a.r_first))
            + crate::bls::g1_enc(g1_dlog(b.r_first)) + crate::bls::gt_enc(gt_dlog(r3))
            + crate::bls::g1_enc(g1_dlog(a.r_second)) + crate::bls::g1_enc(g1_dlog(b.r_second)));
    }

    let c = calc_sha256_scalar(c_bytes.as_slice());

    let sx = scalar_add(&rx, &scalar_mul(&c, &usk.x));

    let s_a = process_sign_after_hash(&a, &c);
    let s_b = process_sign_after_hash(&b, &c);

    let signature = Signature {
        t1: a.t,
        t2: b.t,
        t3,
        c,
        sa: s_a.s,
        sb: s_b.s,
        sx,
        s_delta1: s_a.s_delta,
        s_delta2: s_b.s_delta,
    };

    proof {
        let rn = RandV {
            y_u: scalar_val(a.y),
            r_u: scalar_val(a.r),
            r_delta_u: scalar_val(a.r_delta),
            y_v: scalar_val(b.y),
            r_v: scalar_val(b.r),
            r_delta_v: scalar_val(b.r_delta),
            rx: scalar_val(rx),
        };
        assert(rn.wf());
        assert(signature@ == crate::model::sign_spec(usk@, gpk@, rn));
    }

    signature
}

} // verus!
