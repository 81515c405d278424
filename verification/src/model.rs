//! The mathematical model of the scheme.
//!
//! Every curve value is modelled by its index in the cyclic group of prime
//! order `r` (`r_mod`): scalars by their canonical integer, points by their
//! discrete logarithm (see `bls`).  The protocol then becomes arithmetic
//! modulo `r`, and the spec functions below restate each step of the
//! scheme — signing, challenge recomputation, opening — at that level.

use vstd::prelude::*;

use crate::bls::{g1_enc, gt_enc, sha256_digest};

verus! {

/// The order of the scalar field and of the three pairing groups.
pub open spec fn r_mod() -> nat {
    0x73eda753299d7d483339d80809a1d80553bda402fffe5bfeffffffff00000001nat
}

/// Addition modulo the group order.
pub open spec fn add_m(a: nat, b: nat) -> nat {
    (a + b) % r_mod()
}

/// Multiplication modulo the group order.
pub open spec fn mul_m(a: nat, b: nat) -> nat {
    (a * b) % r_mod()
}

/// Additive inverse modulo the group order.
pub open spec fn neg_m(a: nat) -> nat {
    (((r_mod() - (a % r_mod())) as int) % (r_mod() as int)) as nat
}

/// Subtraction modulo the group order.
pub open spec fn sub_m(a: nat, b: nat) -> nat {
    add_m(a, neg_m(b))
}

/// A value reduced modulo the group order.
pub open spec fn reduced(a: nat) -> bool {
    a < r_mod()
}

/// The integer with the four given little-endian 64-bit limbs.
pub open spec fn raw_limbs_val(l0: u64, l1: u64, l2: u64, l3: u64) -> nat {
    (l0 + l1 * 0x1_0000_0000_0000_0000nat + l2 * 0x1_0000_0000_0000_0000_0000_0000_0000_0000nat
        + l3 * 0x1_0000_0000_0000_0000_0000_0000_0000_0000_0000_0000_0000_0000nat) as nat
}

/// The big-endian 64-bit integer held by eight consecutive bytes.
pub open spec fn be_u64_at(d: Seq<u8>, i: int) -> nat {
    (d[i] * 0x100_0000_0000_0000nat + d[i + 1] * 0x1_0000_0000_0000nat + d[i + 2]
        * 0x100_0000_0000nat + d[i + 3] * 0x1_0000_0000nat + d[i + 4] * 0x100_0000nat + d[i + 5]
        * 0x1_0000nat + d[i + 6] * 0x100nat + d[i + 7]) as nat
}

/// The scalar derived from a 32-byte digest: the digest is split into four
/// big-endian 64-bit limbs, the first limb least significant, and the
/// resulting integer is reduced modulo the group order.
pub open spec fn scalar_of_digest(d: Seq<u8>) -> nat {
    (be_u64_at(d, 0) + be_u64_at(d, 8) * 0x1_0000_0000_0000_0000nat + be_u64_at(d, 16)
        * 0x1_0000_0000_0000_0000_0000_0000_0000_0000nat + be_u64_at(d, 24)
        * 0x1_0000_0000_0000_0000_0000_0000_0000_0000_0000_0000_0000_0000nat) % r_mod()
}

/// The scalar that hashing a byte string yields.
pub open spec fn hash_to_scalar_val(bytes: Seq<u8>) -> nat {
    scalar_of_digest(sha256_digest(bytes))
}

/// The serialized transcript of the eight commitments, in the fixed order
/// the scheme prescribes: the canonical encoding of each, concatenated.
/// `r3` lives in the pairing target group; every other commitment lives
/// in `G1`.
pub open spec fn transcript_of(
    t1: nat,
    t2: nat,
    t3: nat,
    r1: nat,
    r2: nat,
    r3: nat,
    r4: nat,
    r5: nat,
) -> Seq<u8> {
    g1_enc(t1) + g1_enc(t2) + g1_enc(t3) + g1_enc(r1) + g1_enc(r2) + gt_enc(r3) + g1_enc(r4)
        + g1_enc(r5)
}

/// The challenge scalar the transcript of the eight commitments hashes to.
pub open spec fn challenge_val(
    t1: nat,
    t2: nat,
    t3: nat,
    r1: nat,
    r2: nat,
    r3: nat,
    r4: nat,
    r5: nat,
) -> nat {
    hash_to_scalar_val(transcript_of(t1, t2, t3, r1, r2, r3, r4, r5))
}

/// The group secret key, as indices.
pub ghost struct GskV {
    pub xi_1: nat,
    pub xi_2: nat,
    pub gamma: nat,
}

impl GskV {
    pub open spec fn wf(self) -> bool {
        reduced(self.xi_1) && reduced(self.xi_2) && reduced(self.gamma)
    }
}

/// The group public key, as indices: `h`, `u`, `v`, `g1` in `G1`,
/// `w`, `g2` in `G2`.
pub ghost struct GpkV {
    pub h: nat,
    pub u: nat,
    pub v: nat,
    pub w: nat,
    pub g1: nat,
    pub g2: nat,
}

impl GpkV {
    pub open spec fn wf(self) -> bool {
        reduced(self.h) && reduced(self.u) && reduced(self.v) && reduced(self.w) && reduced(
            self.g1,
        ) && reduced(self.g2)
    }
}

/// A member credential, as indices: the secret exponent `x` and the
/// credential point `a`.
pub ghost struct UskV {
    pub x: nat,
    pub a: nat,
}

impl UskV {
    pub open spec fn wf(self) -> bool {
        reduced(self.x) && reduced(self.a)
    }

    /// The defining credential relation: `a` raised to `gamma + x` is the
    /// public base point, i.e. `a = g1^(1/(gamma + x))`.
    pub open spec fn bound_to(self, gamma: nat, g1: nat) -> bool {
        mul_m(self.a, add_m(gamma, self.x)) == g1 % r_mod()
    }
}

/// A signature, as indices.
pub ghost struct SigV {
    pub t1: nat,
    pub t2: nat,
    pub t3: nat,
    pub c: nat,
    pub sa: nat,
    pub sb: nat,
    pub sx: nat,
    pub s_delta1: nat,
    pub s_delta2: nat,
}

impl SigV {
    pub open spec fn wf(self) -> bool {
        reduced(self.t1) && reduced(self.t2) && reduced(self.t3) && reduced(self.c) && reduced(
            self.sa,
        ) && reduced(self.sb) && reduced(self.sx) && reduced(self.s_delta1) && reduced(
            self.s_delta2,
        )
    }
}

/// The blinding values a signer samples: one blinding pair per generator
/// (`y`, `r`, `r_delta` against `u`, and again against `v`) and the shared
/// exponent blinder `rx`.
pub ghost struct RandV {
    pub y_u: nat,
    pub r_u: nat,
    pub r_delta_u: nat,
    pub y_v: nat,
    pub r_v: nat,
    pub r_delta_v: nat,
    pub rx: nat,
}

impl RandV {
    pub open spec fn wf(self) -> bool {
        reduced(self.y_u) && reduced(self.r_u) && reduced(self.r_delta_u) && reduced(self.y_v)
            && reduced(self.r_v) && reduced(self.r_delta_v) && reduced(self.rx)
    }
}

/// What an honest signer produces from a credential, a public key and the
/// sampled blinding values: the commitments, the Fiat–Shamir challenge over
/// their transcript, and the responses.
pub open spec fn sign_spec(u: UskV, k: GpkV, rn: RandV) -> SigV {
    let t1 = mul_m(k.u, rn.y_u);
    let t2 = mul_m(k.v, rn.y_v);
    let t3 = add_m(u.a, mul_m(k.h, add_m(rn.y_u, rn.y_v)));
    let r1_u = mul_m(k.u, rn.r_u);
    let r1_v = mul_m(k.v, rn.r_v);
    let a1 = mul_m(t3, k.g2);
    let a2 = mul_m(k.h, k.w);
    let a3 = mul_m(k.h, k.g2);
    let r3 = add_m(
        add_m(mul_m(a1, rn.rx), mul_m(a2, neg_m(add_m(rn.r_u, rn.r_v)))),
        mul_m(a3, neg_m(add_m(rn.r_delta_u, rn.r_delta_v))),
    );
    let r2_u = add_m(mul_m(t1, rn.rx), mul_m(k.u, neg_m(rn.r_delta_u)));
    let r2_v = add_m(mul_m(t2, rn.rx), mul_m(k.v, neg_m(rn.r_delta_v)));
    let c = challenge_val(t1, t2, t3, r1_u, r1_v, r3, r2_u, r2_v);
    SigV {
        t1,
        t2,
        t3,
        c,
        sa: add_m(rn.r_u, mul_m(c, rn.y_u)),
        sb: add_m(rn.r_v, mul_m(c, rn.y_v)),
        sx: add_m(rn.rx, mul_m(c, u.x)),
        s_delta1: add_m(rn.r_delta_u, mul_m(c, mul_m(rn.y_u, u.x))),
        s_delta2: add_m(rn.r_delta_v, mul_m(c, mul_m(rn.y_v, u.x))),
    }
}

/// The challenge a verifier recomputes from a signature and a public key:
/// it reconstructs the five commitments from the responses and the
/// challenge, then hashes their transcript.
pub open spec fn verify_challenge(s: SigV, k: GpkV) -> nat {
    let r1 = add_m(mul_m(k.u, s.sa), mul_m(s.t1, neg_m(s.c)));
    let r2 = add_m(mul_m(k.v, s.sb), mul_m(s.t2, neg_m(s.c)));
    let a1 = mul_m(s.t3, k.g2);
    let a2 = mul_m(k.h, k.w);
    let a3 = mul_m(k.h, k.g2);
    let a4 = mul_m(s.t3, k.w);
    let a5 = mul_m(k.g1, k.g2);
    let r3 = add_m(
        add_m(
            add_m(mul_m(a1, s.sx), mul_m(a2, neg_m(add_m(s.sa, s.sb)))),
            mul_m(a3, neg_m(add_m(s.s_delta1, s.s_delta2))),
        ),
        mul_m(sub_m(a4, a5), s.c),
    );
    let r4 = add_m(mul_m(s.t1, s.sx), mul_m(k.u, neg_m(s.s_delta1)));
    let r5 = add_m(mul_m(s.t2, s.sx), mul_m(k.v, neg_m(s.s_delta2)));
    challenge_val(s.t1, s.t2, s.t3, r1, r2, r3, r4, r5)
}

/// Whether a verifier accepts: the recomputed challenge must equal the
/// signature's own.
pub open spec fn verify_accepts(s: SigV, k: GpkV) -> bool {
    s.c == verify_challenge(s, k)
}

/// What the holder of the group secret key recovers from a signature:
/// `t3 - (t1^xi_2 + t2^xi_1)`, the credential point of the signer.
pub open spec fn open_val(s: SigV, g: GskV) -> nat {
    sub_m(s.t3, add_m(mul_m(s.t1, g.xi_2), mul_m(s.t2, g.xi_1)))
}

} // verus!
