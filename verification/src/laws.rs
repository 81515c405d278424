//! The laws of the scheme, proved from the model.
//!
//! `lemma_sign_verifies` is completeness: whatever blinding values a signer
//! samples, the verifier's recomputed commitments coincide with the
//! signer's, so the recomputed challenge equals the signature's own and
//! `verify` accepts.  `lemma_open_recovers` is opening correctness: the
//! holder of the group secret key recovers exactly the credential point the
//! signature was produced with.  `lemma_transcript_deterministic` is
//! determinism of the challenge derivation.
//!
//! The proofs work in congruences modulo the group order: `cg(a, b)` says
//! that the integers `a` and `b` agree modulo `r`, the helper lemmas push
//! congruence through the model's reduced operations, and each protocol
//! equation reduces to a polynomial identity.

use vstd::prelude::*;

use vstd::arithmetic::div_mod::{
    lemma_add_mod_noop, lemma_fundamental_div_mod, lemma_mod_bound, lemma_mod_multiples_vanish,
    lemma_mod_twice, lemma_mul_mod_noop_general, lemma_small_mod,
};

use crate::model::{
    add_m, challenge_val, hash_to_scalar_val, mul_m, neg_m, open_val, r_mod, reduced, sign_spec,
    sub_m, transcript_of, verify_accepts, GpkV, GskV, RandV, UskV,
};

verus! {

/// The group order, as a mathematical integer.
pub open spec fn r_int() -> int {
    r_mod() as int
}

/// Congruence modulo the group order.
pub open spec fn cg(a: int, b: int) -> bool {
    a % r_int() == b % r_int()
}

/// Congruence is preserved by addition.
proof fn lemma_cg_add(a1: int, b1: int, a2: int, b2: int)
    requires
        cg(a1, b1),
        cg(a2, b2),
    ensures
        cg(a1 + a2, b1 + b2),
{
    lemma_add_mod_noop(a1, a2, r_int());
    lemma_add_mod_noop(b1, b2, r_int());
}

/// Congruence is preserved by multiplication.
proof fn lemma_cg_mul(a1: int, b1: int, a2: int, b2: int)
    requires
        cg(a1, b1),
        cg(a2, b2),
    ensures
        cg(a1 * a2, b1 * b2),
{
    lemma_mul_mod_noop_general(a1, a2, r_int());
    lemma_mul_mod_noop_general(b1, b2, r_int());
}

/// Congruence is preserved by negation.
proof fn lemma_cg_neg(a: int, b: int)
    requires
        cg(a, b),
    ensures
        cg(-a, -b),
{
    lemma_cg_mul(-1, -1, a, b);
}

/// A reduced sum is congruent to the plain sum.
proof fn lemma_addm(a: nat, b: nat)
    ensures
        reduced(add_m(a, b)),
        cg(add_m(a, b) as int, (a + b) as int),
{
    lemma_mod_bound((a + b) as int, r_int());
    lemma_mod_twice((a + b) as int, r_int());
}

/// A reduced product is congruent to the plain product.
proof fn lemma_mulm(a: nat, b: nat)
    ensures
        reduced(mul_m(a, b)),
        cg(mul_m(a, b) as int, (a as int) * (b as int)),
{
    lemma_mod_bound((a * b) as int, r_int());
    lemma_mod_twice((a * b) as int, r_int());
}

/// The reduced additive inverse is congruent to the plain negation.
proof fn lemma_negm(a: nat)
    ensures
        reduced(neg_m(a)),
        cg(neg_m(a) as int, -(a as int)),
{
    let m = r_int();
    lemma_mod_bound(a as int, m);
    lemma_fundamental_div_mod(a as int, m);
    let q = (a as int) / m;
    let am = (a % r_mod()) as int;
    assert(m - am == m * (1 + q) + (-(a as int))) by {
        assert(m * (1 + q) == m + m * q) by (nonlinear_arith);
    }
    lemma_mod_multiples_vanish(1 + q, -(a as int), m);
    lemma_mod_bound(m - am, m);
    lemma_mod_twice(m - am, m);
}

/// The reduced difference is congruent to the plain difference.
proof fn lemma_subm(a: nat, b: nat)
    ensures
        reduced(sub_m(a, b)),
        cg(sub_m(a, b) as int, a - b),
{
    lemma_negm(b);
    lemma_addm(a, neg_m(b));
    lemma_cg_add(a as int, a as int, neg_m(b) as int, -(b as int));
}

/// Congruent reduced values are equal.
proof fn lemma_cg_same(a: nat, b: nat)
    requires
        reduced(a),
        reduced(b),
        cg(a as int, b as int),
    ensures
        a == b,
{
    lemma_small_mod(a, r_mod());
    lemma_small_mod(b, r_mod());
}

/// The verifier's first-commitment reconstruction cancels: for a
/// commitment `t = base^y` and response `s = r + c·y`,
/// `base^s · t^(-c) = base^r`.
proof fn lemma_resp_commit(base: nat, y: nat, rr: nat, c: nat)
    ensures
        add_m(mul_m(base, add_m(rr, mul_m(c, y))), mul_m(mul_m(base, y), neg_m(c))) == mul_m(
            base,
            rr,
        ),
{
    let bi = base as int;
    let yi = y as int;
    let ri = rr as int;
    let ci = c as int;
    let cy = mul_m(c, y);
    let sa = add_m(rr, cy);
    let t = mul_m(base, y);
    let nc = neg_m(c);
    let x1 = mul_m(base, sa);
    let x2 = mul_m(t, nc);
    lemma_mulm(c, y);
    lemma_addm(rr, cy);
    lemma_cg_add(ri, ri, cy as int, ci * yi);
    lemma_mulm(base, sa);
    lemma_cg_mul(bi, bi, sa as int, ri + ci * yi);
    lemma_mulm(base, y);
    lemma_negm(c);
    lemma_mulm(t, nc);
    lemma_cg_mul(t as int, bi * yi, nc as int, -ci);
    lemma_addm(x1, x2);
    lemma_cg_add(x1 as int, bi * (ri + ci * yi), x2 as int, (bi * yi) * (-ci));
    assert(bi * (ri + ci * yi) + (bi * yi) * (-ci) == bi * ri) by (nonlinear_arith);
    lemma_mulm(base, rr);
    lemma_cg_same(add_m(x1, x2), mul_m(base, rr));
}

/// The verifier's auxiliary-commitment reconstruction cancels: for
/// `t = base^y`, `sx = rx + c·x` and `s_delta = r_delta + c·(y·x)`,
/// `t^sx · base^(-s_delta) = t^rx · base^(-r_delta)`.
proof fn lemma_second_commit(base: nat, y: nat, rx: nat, rd: nat, c: nat, x: nat)
    ensures
        add_m(
            mul_m(mul_m(base, y), add_m(rx, mul_m(c, x))),
            mul_m(base, neg_m(add_m(rd, mul_m(c, mul_m(y, x))))),
        ) == add_m(mul_m(mul_m(base, y), rx), mul_m(base, neg_m(rd))),
{
    let bi = base as int;
    let yi = y as int;
    let rxi = rx as int;
    let rdi = rd as int;
    let ci = c as int;
    let xi = x as int;
    let t = mul_m(base, y);
    let cx = mul_m(c, x);
    let sx = add_m(rx, cx);
    let yx = mul_m(y, x);
    let cyx = mul_m(c, yx);
    let sd = add_m(rd, cyx);
    let nsd = neg_m(sd);
    let p1 = mul_m(t, sx);
    let p2 = mul_m(base, nsd);
    let nrd = neg_m(rd);
    let q1 = mul_m(t, rx);
    let q2 = mul_m(base, nrd);
    lemma_mulm(base, y);
    lemma_mulm(c, x);
    lemma_addm(rx, cx);
    lemma_cg_add(rxi, rxi, cx as int, ci * xi);
    lemma_mulm(y, x);
    lemma_mulm(c, yx);
    lemma_cg_mul(ci, ci, yx as int, yi * xi);
    lemma_addm(rd, cyx);
    lemma_cg_add(rdi, rdi, cyx as int, ci * (yi * xi));
    lemma_negm(sd);
    lemma_cg_neg(sd as int, rdi + ci * (yi * xi));
    lemma_mulm(t, sx);
    lemma_cg_mul(t as int, bi * yi, sx as int, rxi + ci * xi);
    lemma_mulm(base, nsd);
    lemma_cg_mul(bi, bi, nsd as int, -(rdi + ci * (yi * xi)));
    lemma_addm(p1, p2);
    lemma_cg_add(
        p1 as int,
        (bi * yi) * (rxi + ci * xi),
        p2 as int,
        bi * (-(rdi + ci * (yi * xi))),
    );
    lemma_mulm(t, rx);
    lemma_cg_mul(t as int, bi * yi, rxi, rxi);
    lemma_negm(rd);
    lemma_mulm(base, nrd);
    lemma_cg_mul(bi, bi, nrd as int, -rdi);
    lemma_addm(q1, q2);
    lemma_cg_add(q1 as int, (bi * yi) * rxi, q2 as int, bi * (-rdi));
    assert((bi * yi) * (rxi + ci * xi) + bi * (-(rdi + ci * (yi * xi))) == (bi * yi) * rxi + bi * (
    -rdi)) by (nonlinear_arith);
    lemma_cg_same(add_m(p1, p2), add_m(q1, q2));
}

/// The challenge-weighted excess of the pairing-commitment reconstruction
/// vanishes once the blinded credential `a + h·(yu + yv)` is expanded:
/// the products cancel pairwise.
proof fn lemma_r3_excess(a: int, h: int, g2: int, gm: int, x: int, yu: int, yv: int)
    ensures
        ((a + h * (yu + yv)) * g2) * x - (h * (g2 * gm)) * (yu + yv) - (h * g2) * ((yu * x) + (yv
            * x)) + (a + h * (yu + yv)) * (g2 * gm) - (a * (gm + x)) * g2 == 0,
{
    assert(((a + h * (yu + yv)) * g2) * x == (a * g2) * x + (h * g2) * ((yu * x) + (yv * x))) by {
        assert((h * (yu + yv)) * g2 == (h * g2) * (yu + yv)) by (nonlinear_arith);
        assert(((h * g2) * (yu + yv)) * x == (h * g2) * ((yu * x) + (yv * x))) by (nonlinear_arith);
        assert((a * g2) * x + (h * (yu + yv)) * g2 * x == (a + h * (yu + yv)) * g2 * x)
            by (nonlinear_arith);
    }
    assert((a + h * (yu + yv)) * (g2 * gm) == (a * gm) * g2 + (h * (g2 * gm)) * (yu + yv)) by {
        assert(a * (g2 * gm) == (a * gm) * g2) by (nonlinear_arith);
        assert((h * (yu + yv)) * (g2 * gm) == (h * (g2 * gm)) * (yu + yv)) by (nonlinear_arith);
        assert(a * (g2 * gm) + (h * (yu + yv)) * (g2 * gm) == (a + h * (yu + yv)) * (g2 * gm))
            by (nonlinear_arith);
    }
    assert((a * (gm + x)) * g2 == (a * gm) * g2 + (a * g2) * x) by (nonlinear_arith);
}

/// The polynomial identity behind the pairing-commitment reconstruction,
/// stated over plain integers with the blinded credential `t` kept
/// symbolic: once `t = a + h·(yu + yv)`, the challenge-weighted terms
/// cancel exactly.
proof fn lemma_r3_ring(
    t: int,
    a: int,
    h: int,
    g2: int,
    gm: int,
    x: int,
    yu: int,
    yv: int,
    ru: int,
    rv: int,
    rdu: int,
    rdv: int,
    rx: int,
    c: int,
)
    requires
        t == a + h * (yu + yv),
    ensures
        (t * g2) * (rx + c * x) + (h * (g2 * gm)) * (-((ru + c * yu) + (rv + c * yv))) + (h * g2)
            * (-((rdu + c * (yu * x)) + (rdv + c * (yv * x)))) + (t * (g2 * gm) - (a * (gm + x))
            * g2) * c == (t * g2) * rx + (h * (g2 * gm)) * (-(ru + rv)) + (h * g2) * (-(rdu + rdv)),
{
    // Each verifier term splits into the matching signer term plus a
    // challenge-weighted excess.
    assert((t * g2) * (rx + c * x) == (t * g2) * rx + c * ((t * g2) * x)) by (nonlinear_arith);
    assert((h * (g2 * gm)) * (-((ru + c * yu) + (rv + c * yv))) == (h * (g2 * gm)) * (-(ru + rv))
        - c * ((h * (g2 * gm)) * (yu + yv))) by (nonlinear_arith);
    assert((h * g2) * (-((rdu + c * (yu * x)) + (rdv + c * (yv * x)))) == (h * g2) * (-(rdu + rdv))
        - c * ((h * g2) * ((yu * x) + (yv * x)))) by (nonlinear_arith);
    assert((t * (g2 * gm) - (a * (gm + x)) * g2) * c == c * (t * (g2 * gm)) - c * ((a * (gm + x))
        * g2)) by (nonlinear_arith);
    // The excesses sum to the challenge times one polynomial.
    assert(c * ((t * g2) * x) - c * ((h * (g2 * gm)) * (yu + yv)) - c * ((h * g2) * ((yu * x) + (yv
        * x))) + (c * (t * (g2 * gm)) - c * ((a * (gm + x)) * g2)) == c * ((t * g2) * x - (h * (g2
        * gm)) * (yu + yv) - (h * g2) * ((yu * x) + (yv * x)) + t * (g2 * gm) - (a * (gm + x))
        * g2)) by (nonlinear_arith);
    // That polynomial vanishes once the blinded credential is expanded.
    lemma_r3_excess(a, h, g2, gm, x, yu, yv);
    assert((t * g2) * x - (h * (g2 * gm)) * (yu + yv) - (h * g2) * ((yu * x) + (yv * x)) + t * (g2
        * gm) - (a * (gm + x)) * g2 == 0);
    assert(c * ((t * g2) * x - (h * (g2 * gm)) * (yu + yv) - (h * g2) * ((yu * x) + (yv * x)) + t
        * (g2 * gm) - (a * (gm + x)) * g2) == 0) by (nonlinear_arith)
        requires
            (t * g2) * x - (h * (g2 * gm)) * (yu + yv) - (h * g2) * ((yu * x) + (yv * x)) + t * (g2
                * gm) - (a * (gm + x)) * g2 == 0,
    ;
}

/// The verifier's pairing-commitment reconstruction coincides with the
/// signer's pairing commitment, given the credential relation
/// `a^(gamma + x) = g1`, the key relation `w = g2^gamma`, and the blinded
/// credential `t3 = a + h^(yu + yv)`.
proof fn lemma_r3_commit(
    a: nat,
    x: nat,
    gamma: nat,
    h: nat,
    g2v: nat,
    g1v: nat,
    yu: nat,
    yv: nat,
    ru: nat,
    rv: nat,
    rdu: nat,
    rdv: nat,
    rx: nat,
    c: nat,
    t3: nat,
    w: nat,
)
    requires
        t3 == add_m(a, mul_m(h, add_m(yu, yv))),
        w == mul_m(g2v, gamma),
        mul_m(a, add_m(gamma, x)) == g1v % r_mod(),
    ensures
        add_m(
            add_m(
                add_m(
                    mul_m(mul_m(t3, g2v), add_m(rx, mul_m(c, x))),
                    mul_m(
                        mul_m(h, w),
                        neg_m(add_m(add_m(ru, mul_m(c, yu)), add_m(rv, mul_m(c, yv)))),
                    ),
                ),
                mul_m(
                    mul_m(h, g2v),
                    neg_m(add_m(add_m(rdu, mul_m(c, mul_m(yu, x))), add_m(rdv, mul_m(c, mul_m(yv, x))))),
                ),
            ),
            mul_m(sub_m(mul_m(t3, w), mul_m(g1v, g2v)), c),
        ) == add_m(
            add_m(mul_m(mul_m(t3, g2v), rx), mul_m(mul_m(h, w), neg_m(add_m(ru, rv)))),
            mul_m(mul_m(h, g2v), neg_m(add_m(rdu, rdv))),
        ),
{
    let m = r_int();
    let ai = a as int;
    let xi = x as int;
    let gmi = gamma as int;
    let hi = h as int;
    let g2i = g2v as int;
    let g1i = g1v as int;
    let yui = yu as int;
    let yvi = yv as int;
    let rui = ru as int;
    let rvi = rv as int;
    let rdui = rdu as int;
    let rdvi = rdv as int;
    let rxi = rx as int;
    let ci = c as int;
    let ti = ai + hi * (yui + yvi);

    // t3 is congruent to the symbolic blinded credential.
    lemma_addm(yu, yv);
    lemma_mulm(h, add_m(yu, yv));
    lemma_cg_mul(hi, hi, add_m(yu, yv) as int, yui + yvi);
    assert(cg(mul_m(h, add_m(yu, yv)) as int, hi * (yui + yvi)));
    lemma_addm(a, mul_m(h, add_m(yu, yv)));
    lemma_cg_add(ai, ai, mul_m(h, add_m(yu, yv)) as int, hi * (yui + yvi));
    assert(cg(t3 as int, ti));

    // The public elements, congruent to their symbolic forms.
    lemma_mulm(g2v, gamma);
    assert(cg(w as int, g2i * gmi));
    lemma_addm(gamma, x);
    lemma_mulm(a, add_m(gamma, x));
    lemma_cg_mul(ai, ai, add_m(gamma, x) as int, gmi + xi);
    lemma_mod_twice(g1i, m);
    assert(cg(g1i, ai * (gmi + xi)));

    // The five pairing values.
    let a1 = mul_m(t3, g2v);
    let a2 = mul_m(h, w);
    let a3 = mul_m(h, g2v);
    let a4 = mul_m(t3, w);
    let a5 = mul_m(g1v, g2v);
    lemma_mulm(t3, g2v);
    lemma_cg_mul(t3 as int, ti, g2i, g2i);
    assert(cg(a1 as int, ti * g2i));
    lemma_mulm(h, w);
    lemma_cg_mul(hi, hi, w as int, g2i * gmi);
    assert(cg(a2 as int, hi * (g2i * gmi)));
    lemma_mulm(h, g2v);
    assert(cg(a3 as int, hi * g2i));
    lemma_mulm(t3, w);
    lemma_cg_mul(t3 as int, ti, w as int, g2i * gmi);
    assert(cg(a4 as int, ti * (g2i * gmi)));
    lemma_mulm(g1v, g2v);
    lemma_cg_mul(g1i, ai * (gmi + xi), g2i, g2i);
    assert(cg(a5 as int, (ai * (gmi + xi)) * g2i));

    // The responses, congruent to their unreduced forms.
    let cx = mul_m(c, x);
    let sx = add_m(rx, cx);
    lemma_mulm(c, x);
    lemma_addm(rx, cx);
    lemma_cg_add(rxi, rxi, cx as int, ci * xi);
    assert(cg(sx as int, rxi + ci * xi));

    let sa = add_m(ru, mul_m(c, yu));
    let sb = add_m(rv, mul_m(c, yv));
    lemma_mulm(c, yu);
    lemma_addm(ru, mul_m(c, yu));
    lemma_cg_add(rui, rui, mul_m(c, yu) as int, ci * yui);
    assert(cg(sa as int, rui + ci * yui));
    lemma_mulm(c, yv);
    lemma_addm(rv, mul_m(c, yv));
    lemma_cg_add(rvi, rvi, mul_m(c, yv) as int, ci * yvi);
    assert(cg(sb as int, rvi + ci * yvi));
    let sab = add_m(sa, sb);
    lemma_addm(sa, sb);
    lemma_cg_add(sa as int, rui + ci * yui, sb as int, rvi + ci * yvi);
    let nsab = neg_m(sab);
    lemma_negm(sab);
    lemma_cg_neg(sab as int, (rui + ci * yui) + (rvi + ci * yvi));
    assert(cg(nsab as int, -((rui + ci * yui) + (rvi + ci * yvi))));

    let sd1 = add_m(rdu, mul_m(c, mul_m(yu, x)));
    let sd2 = add_m(rdv, mul_m(c, mul_m(yv, x)));
    lemma_mulm(yu, x);
    lemma_mulm(c, mul_m(yu, x));
    lemma_cg_mul(ci, ci, mul_m(yu, x) as int, yui * xi);
    lemma_addm(rdu, mul_m(c, mul_m(yu, x)));
    lemma_cg_add(rdui, rdui, mul_m(c, mul_m(yu, x)) as int, ci * (yui * xi));
    assert(cg(sd1 as int, rdui + ci * (yui * xi)));
    lemma_mulm(yv, x);
    lemma_mulm(c, mul_m(yv, x));
    lemma_cg_mul(ci, ci, mul_m(yv, x) as int, yvi * xi);
    lemma_addm(rdv, mul_m(c, mul_m(yv, x)));
    lemma_cg_add(rdvi, rdvi, mul_m(c, mul_m(yv, x)) as int, ci * (yvi * xi));
    assert(cg(sd2 as int, rdvi + ci * (yvi * xi)));
    let sd12 = add_m(sd1, sd2);
    lemma_addm(sd1, sd2);
    lemma_cg_add(sd1 as int, rdui + ci * (yui * xi), sd2 as int, rdvi + ci * (yvi * xi));
    let nsd12 = neg_m(sd12);
    lemma_negm(sd12);
    lemma_cg_neg(sd12 as int, (rdui + ci * (yui * xi)) + (rdvi + ci * (yvi * xi)));

    // The verifier's combination, node by node.
    let v1 = mul_m(a1, sx);
    lemma_mulm(a1, sx);
    lemma_cg_mul(a1 as int, ti * g2i, sx as int, rxi + ci * xi);
    assert(cg(v1 as int, (ti * g2i) * (rxi + ci * xi)));
    let v2 = mul_m(a2, nsab);
    lemma_mulm(a2, nsab);
    lemma_cg_mul(
        a2 as int,
        hi * (g2i * gmi),
        nsab as int,
        -((rui + ci * yui) + (rvi + ci * yvi)),
    );
    let v3 = mul_m(a3, nsd12);
    lemma_mulm(a3, nsd12);
    lemma_cg_mul(
        a3 as int,
        hi * g2i,
        nsd12 as int,
        -((rdui + ci * (yui * xi)) + (rdvi + ci * (yvi * xi))),
    );
    let d45 = sub_m(a4, a5);
    lemma_subm(a4, a5);
    lemma_cg_neg(a5 as int, (ai * (gmi + xi)) * g2i);
    lemma_cg_add(a4 as int, ti * (g2i * gmi), -(a5 as int), -((ai * (gmi + xi)) * g2i));
    assert(cg(d45 as int, ti * (g2i * gmi) - (ai * (gmi + xi)) * g2i));
    let v4 = mul_m(d45, c);
    lemma_mulm(d45, c);
    lemma_cg_mul(d45 as int, ti * (g2i * gmi) - (ai * (gmi + xi)) * g2i, ci, ci);

    let v12 = add_m(v1, v2);
    lemma_addm(v1, v2);
    lemma_cg_add(
        v1 as int,
        (ti * g2i) * (rxi + ci * xi),
        v2 as int,
        (hi * (g2i * gmi)) * (-((rui + ci * yui) + (rvi + ci * yvi))),
    );
    let v123 = add_m(v12, v3);
    lemma_addm(v12, v3);
    lemma_cg_add(
        v12 as int,
        (ti * g2i) * (rxi + ci * xi) + (hi * (g2i * gmi)) * (-((rui + ci * yui) + (rvi + ci
            * yvi))),
        v3 as int,
        (hi * g2i) * (-((rdui + ci * (yui * xi)) + (rdvi + ci * (yvi * xi)))),
    );
    let lhs = add_m(v123, v4);
    lemma_addm(v123, v4);
    lemma_cg_add(
        v123 as int,
        (ti * g2i) * (rxi + ci * xi) + (hi * (g2i * gmi)) * (-((rui + ci * yui) + (rvi + ci * yvi)))
            + (hi * g2i) * (-((rdui + ci * (yui * xi)) + (rdvi + ci * (yvi * xi)))),
        v4 as int,
        (ti * (g2i * gmi) - (ai * (gmi + xi)) * g2i) * ci,
    );

    // The signer's combination, node by node.
    let nr = neg_m(add_m(ru, rv));
    lemma_addm(ru, rv);
    lemma_negm(add_m(ru, rv));
    lemma_cg_neg(add_m(ru, rv) as int, rui + rvi);
    let nrd = neg_m(add_m(rdu, rdv));
    lemma_addm(rdu, rdv);
    lemma_negm(add_m(rdu, rdv));
    lemma_cg_neg(add_m(rdu, rdv) as int, rdui + rdvi);
    let s1 = mul_m(a1, rx);
    lemma_mulm(a1, rx);
    lemma_cg_mul(a1 as int, ti * g2i, rxi, rxi);
    let s2 = mul_m(a2, nr);
    lemma_mulm(a2, nr);
    lemma_cg_mul(a2 as int, hi * (g2i * gmi), nr as int, -(rui + rvi));
    let s3 = mul_m(a3, nrd);
    lemma_mulm(a3, nrd);
    lemma_cg_mul(a3 as int, hi * g2i, nrd as int, -(rdui + rdvi));
    let s12 = add_m(s1, s2);
    lemma_addm(s1, s2);
    lemma_cg_add(
        s1 as int,
        (ti * g2i) * rxi,
        s2 as int,
        (hi * (g2i * gmi)) * (-(rui + rvi)),
    );
    let rhs = add_m(s12, s3);
    lemma_addm(s12, s3);
    lemma_cg_add(
        s12 as int,
        (ti * g2i) * rxi + (hi * (g2i * gmi)) * (-(rui + rvi)),
        s3 as int,
        (hi * g2i) * (-(rdui + rdvi)),
    );

    lemma_r3_ring(ti, ai, hi, g2i, gmi, xi, yui, yvi, rui, rvi, rdui, rdvi, rxi, ci);
    lemma_cg_same(lhs, rhs);
}

/// Completeness: a signature produced by an honest signer from a
/// credential bound to the group key — any blinding values at all — is
/// accepted by the verifier.  The verifier's five reconstructed
/// commitments equal the signer's, so the recomputed challenge equals the
/// signature's own.
pub proof fn lemma_sign_verifies(g: GskV, k: GpkV, u: UskV, rn: RandV)
    requires
        k.w == mul_m(k.g2, g.gamma),
        u.bound_to(g.gamma, k.g1),
    ensures
        verify_accepts(sign_spec(u, k, rn), k),
{
    let s = sign_spec(u, k, rn);
    lemma_resp_commit(k.u, rn.y_u, rn.r_u, s.c);
    lemma_resp_commit(k.v, rn.y_v, rn.r_v, s.c);
    lemma_second_commit(k.u, rn.y_u, rn.rx, rn.r_delta_u, s.c, u.x);
    lemma_second_commit(k.v, rn.y_v, rn.rx, rn.r_delta_v, s.c, u.x);
    lemma_r3_commit(
        u.a,
        u.x,
        g.gamma,
        k.h,
        k.g2,
        k.g1,
        rn.y_u,
        rn.y_v,
        rn.r_u,
        rn.r_v,
        rn.r_delta_u,
        rn.r_delta_v,
        rn.rx,
        s.c,
        s.t3,
        k.w,
    );
}

/// Opening correctness: for a public key whose `u`, `v`, `h` were derived
/// from one base point (`u = tmp^xi_1`, `v = tmp^xi_2`, `h = u^xi_2`),
/// opening any honestly produced signature under the group secret key
/// recovers exactly the credential point it was signed with.
pub proof fn lemma_open_recovers(g: GskV, k: GpkV, u: UskV, rn: RandV, tmp: nat)
    requires
        reduced(u.a),
        k.u == mul_m(tmp, g.xi_1),
        k.v == mul_m(tmp, g.xi_2),
        k.h == mul_m(k.u, g.xi_2),
    ensures
        open_val(sign_spec(u, k, rn), g) == u.a,
{
    let s = sign_spec(u, k, rn);
    let ti = tmp as int;
    let x1i = g.xi_1 as int;
    let x2i = g.xi_2 as int;
    let yui = rn.y_u as int;
    let yvi = rn.y_v as int;
    let ai = u.a as int;

    lemma_mulm(tmp, g.xi_1);
    lemma_mulm(tmp, g.xi_2);
    lemma_mulm(k.u, g.xi_2);
    lemma_cg_mul(k.u as int, ti * x1i, x2i, x2i);
    assert(cg(k.h as int, (ti * x1i) * x2i));

    // The two lifted commitments.
    lemma_mulm(k.u, rn.y_u);
    lemma_cg_mul(k.u as int, ti * x1i, yui, yui);
    assert(cg(s.t1 as int, (ti * x1i) * yui));
    lemma_mulm(k.v, rn.y_v);
    lemma_cg_mul(k.v as int, ti * x2i, yvi, yvi);
    assert(cg(s.t2 as int, (ti * x2i) * yvi));
    let l1 = mul_m(s.t1, g.xi_2);
    lemma_mulm(s.t1, g.xi_2);
    lemma_cg_mul(s.t1 as int, (ti * x1i) * yui, x2i, x2i);
    let l2 = mul_m(s.t2, g.xi_1);
    lemma_mulm(s.t2, g.xi_1);
    lemma_cg_mul(s.t2 as int, (ti * x2i) * yvi, x1i, x1i);
    let l12 = add_m(l1, l2);
    lemma_addm(l1, l2);
    lemma_cg_add(l1 as int, ((ti * x1i) * yui) * x2i, l2 as int, ((ti * x2i) * yvi) * x1i);

    // The blinded credential.
    lemma_addm(rn.y_u, rn.y_v);
    lemma_mulm(k.h, add_m(rn.y_u, rn.y_v));
    lemma_cg_mul(k.h as int, (ti * x1i) * x2i, add_m(rn.y_u, rn.y_v) as int, yui + yvi);
    lemma_addm(u.a, mul_m(k.h, add_m(rn.y_u, rn.y_v)));
    lemma_cg_add(
        ai,
        ai,
        mul_m(k.h, add_m(rn.y_u, rn.y_v)) as int,
        ((ti * x1i) * x2i) * (yui + yvi),
    );
    assert(cg(s.t3 as int, ai + ((ti * x1i) * x2i) * (yui + yvi)));

    // Opening subtracts the lift and leaves the credential.
    lemma_subm(s.t3, l12);
    lemma_cg_neg(l12 as int, ((ti * x1i) * yui) * x2i + ((ti * x2i) * yvi) * x1i);
    lemma_cg_add(
        s.t3 as int,
        ai + ((ti * x1i) * x2i) * (yui + yvi),
        -(l12 as int),
        -(((ti * x1i) * yui) * x2i + ((ti * x2i) * yvi) * x1i),
    );
    assert(ai + ((ti * x1i) * x2i) * (yui + yvi) - (((ti * x1i) * yui) * x2i + ((ti * x2i) * yvi)
        * x1i) == ai) by (nonlinear_arith);
    lemma_cg_same(open_val(s, g), u.a);
}

/// Determinism of the transcript: serializing the same eight commitments
/// always yields the same byte string, and hashing equal byte strings
/// always yields the same challenge scalar.
pub proof fn lemma_transcript_deterministic(
    t1: nat,
    t2: nat,
    t3: nat,
    r1: nat,
    r2: nat,
    r3: nat,
    r4: nat,
    r5: nat,
    bytes1: Seq<u8>,
    bytes2: Seq<u8>,
)
    requires
        bytes1 == transcript_of(t1, t2, t3, r1, r2, r3, r4, r5),
        bytes2 == transcript_of(t1, t2, t3, r1, r2, r3, r4, r5),
    ensures
        bytes1 == bytes2,
        hash_to_scalar_val(bytes1) == hash_to_scalar_val(bytes2),
        challenge_val(t1, t2, t3, r1, r2, r3, r4, r5) == hash_to_scalar_val(bytes1),
{
}

} // verus!
