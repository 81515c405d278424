//! End-to-end protocol tests: completeness, opening, tampering,
//! key-binding and degenerate issuance.

use bls12_381::{G1Projective, G2Projective, Scalar};
use rand::rngs::StdRng;
use rand::thread_rng;
use rand::SeedableRng;

use group_sig::sign::{process_sign_after_hash, process_sign_before_hash, sign};
use group_sig::{
    issue, issue_with_x, is_signed_member, open, setup, verify, IssueError, Signature, GPK,
};

fn copy_sig(s: &Signature) -> Signature {
    Signature {
        t1: s.t1,
        t2: s.t2,
        t3: s.t3,
        c: s.c,
        sa: s.sa,
        sb: s.sb,
        sx: s.sx,
        s_delta1: s.s_delta1,
        s_delta2: s.s_delta2,
    }
}

/// Flips one low bit of a scalar, retrying the next bit if the flip
/// leaves the canonical range.
fn flip_scalar_bit(s: &Scalar) -> Scalar {
    for bit in 0..8u8 {
        let mut bytes = s.to_bytes();
        bytes[0] ^= 1 << bit;
        let flipped: Option<Scalar> = Scalar::from_bytes(&bytes).into();
        if let Some(v) = flipped {
            return v;
        }
    }
    unreachable!()
}

fn tamper_point(p: &G1Projective) -> G1Projective {
    p + G1Projective::generator()
}

#[test]
fn test_all() {
    let mut rng = thread_rng();
    let sr = setup(&mut rng);
    let gsk = sr.gsk;
    let gpk = sr.gpk;
    let usk = issue(&gsk, &gpk, &mut rng).unwrap();
    let sig = sign(&usk, &gpk, &mut rng);
    verify(&sig, &gpk).unwrap();

    assert!(is_signed_member(&usk, &sig, &gsk));
}

#[test]
fn completeness_over_seeds() {
    for seed in 0..8u64 {
        let mut rng = StdRng::seed_from_u64(seed);
        let sr = setup(&mut rng);
        let usk = issue(&sr.gsk, &sr.gpk, &mut rng).unwrap();
        let sig = sign(&usk, &sr.gpk, &mut rng);
        assert!(verify(&sig, &sr.gpk).is_ok());
    }
}

#[test]
fn opening_recovers_credential() {
    for seed in 0..4u64 {
        let mut rng = StdRng::seed_from_u64(seed);
        let sr = setup(&mut rng);
        let usk = issue(&sr.gsk, &sr.gpk, &mut rng).unwrap();
        let sig = sign(&usk, &sr.gpk, &mut rng);
        assert!(verify(&sig, &sr.gpk).is_ok());
        let recovered = open(&sig, &sr.gsk);
        assert_eq!(recovered, usk.a);
        assert!(is_signed_member(&usk, &sig, &sr.gsk));
    }
}

#[test]
fn tampered_signatures_are_rejected() {
    let mut rng = StdRng::seed_from_u64(7);
    let sr = setup(&mut rng);
    let usk = issue(&sr.gsk, &sr.gpk, &mut rng).unwrap();
    let sig = sign(&usk, &sr.gpk, &mut rng);
    assert!(verify(&sig, &sr.gpk).is_ok());

    let mut bad = copy_sig(&sig);
    bad.t1 = tamper_point(&sig.t1);
    assert!(verify(&bad, &sr.gpk).is_err());

    let mut bad = copy_sig(&sig);
    bad.t2 = tamper_point(&sig.t2);
    assert!(verify(&bad, &sr.gpk).is_err());

    let mut bad = copy_sig(&sig);
    bad.t3 = tamper_point(&sig.t3);
    assert!(verify(&bad, &sr.gpk).is_err());

    let mut bad = copy_sig(&sig);
    bad.c = flip_scalar_bit(&sig.c);
    assert!(verify(&bad, &sr.gpk).is_err());

    let mut bad = copy_sig(&sig);
    bad.sa = flip_scalar_bit(&sig.sa);
    assert!(verify(&bad, &sr.gpk).is_err());

    let mut bad = copy_sig(&sig);
    bad.sb = flip_scalar_bit(&sig.sb);
    assert!(verify(&bad, &sr.gpk).is_err());

    let mut bad = copy_sig(&sig);
    bad.sx = flip_scalar_bit(&sig.sx);
    assert!(verify(&bad, &sr.gpk).is_err());

    let mut bad = copy_sig(&sig);
    bad.s_delta1 = flip_scalar_bit(&sig.s_delta1);
    assert!(verify(&bad, &sr.gpk).is_err());

    let mut bad = copy_sig(&sig);
    bad.s_delta2 = flip_scalar_bit(&sig.s_delta2);
    assert!(verify(&bad, &sr.gpk).is_err());
}

#[test]
fn signature_is_bound_to_its_public_key() {
    let mut rng = StdRng::seed_from_u64(11);
    let sr1 = setup(&mut rng);
    let sr2 = setup(&mut rng);
    let usk = issue(&sr1.gsk, &sr1.gpk, &mut rng).unwrap();
    let sig = sign(&usk, &sr1.gpk, &mut rng);
    assert!(verify(&sig, &sr1.gpk).is_ok());
    assert!(verify(&sig, &sr2.gpk).is_err());
}

#[test]
fn degenerate_issuance_is_detected() {
    let mut rng = StdRng::seed_from_u64(3);
    let sr = setup(&mut rng);
    // Force gamma + x = 0 by handing issuance x = -gamma.
    let x = -sr.gsk.gamma;
    let r = issue_with_x(&sr.gsk, &sr.gpk, x);
    assert!(matches!(r, Err(IssueError::DegenerateCredential)));
    // Any other exponent yields a credential.
    let ok = issue_with_x(&sr.gsk, &sr.gpk, -sr.gsk.gamma + Scalar::one());
    assert!(ok.is_ok());
}

#[test]
fn fixed_seed_scenario() {
    let mut rng = StdRng::seed_from_u64(42);
    let sr = setup(&mut rng);
    let usk = issue(&sr.gsk, &sr.gpk, &mut rng).unwrap();
    let sig = sign(&usk, &sr.gpk, &mut rng);
    assert!(verify(&sig, &sr.gpk).is_ok());
    let recovered = open(&sig, &sr.gsk);
    assert_eq!(
        group::GroupEncoding::to_bytes(&recovered).as_ref(),
        group::GroupEncoding::to_bytes(&usk.a).as_ref()
    );
    let mut bad = copy_sig(&sig);
    bad.c = sig.c + Scalar::one();
    assert!(verify(&bad, &sr.gpk).is_err());
}

#[test]
fn pairing_commitment_enters_the_transcript() {
    // Changing only `w` leaves every reconstructed commitment unchanged
    // except the pairing-based one, so rejection here shows that the
    // target-group commitment really is part of the hashed transcript.
    let mut rng = StdRng::seed_from_u64(5);
    let sr = setup(&mut rng);
    let usk = issue(&sr.gsk, &sr.gpk, &mut rng).unwrap();
    let sig = sign(&usk, &sr.gpk, &mut rng);
    assert!(verify(&sig, &sr.gpk).is_ok());
    let tampered = GPK {
        h: sr.gpk.h,
        u: sr.gpk.u,
        v: sr.gpk.v,
        w: sr.gpk.w + G2Projective::generator(),
        g1: sr.gpk.g1,
        g2: sr.gpk.g2,
    };
    assert!(verify(&sig, &tampered).is_err());
}

#[test]
fn two_phase_responses_fold_the_challenge() {
    let mut rng = StdRng::seed_from_u64(9);
    let x = Scalar::from(5u64);
    let rx = Scalar::from(7u64);
    let pk = G1Projective::generator() * Scalar::from(3u64);
    let cred = process_sign_before_hash(&x, &rx, &pk, &mut rng);
    assert_eq!(cred.t, pk * cred.y);
    assert_eq!(cred.delta, cred.y * x);
    assert_eq!(cred.r_first, pk * cred.r);
    assert_eq!(cred.r_second, cred.t * rx + pk * (-cred.r_delta));
    let c = Scalar::from(11u64);
    let resp = process_sign_after_hash(&cred, &c);
    assert_eq!(resp.s, cred.r + c * cred.y);
    assert_eq!(resp.s_delta, cred.r_delta + c * cred.delta);
}
