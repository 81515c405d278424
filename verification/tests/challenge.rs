//! Tests of the Fiat–Shamir challenge derivation: exact values against
//! known SHA-256 digests, and determinism of the transcript hashing.

use bls12_381::Scalar;

use group_sig::calc_sha256_scalar;

#[test]
fn challenge_of_empty_input_matches_sha256() {
    // SHA-256 of the empty string, read as four big-endian limbs, the
    // first least significant.
    let expected = Scalar::from_raw([
        0xe3b0c44298fc1c14,
        0x9afbf4c8996fb924,
        0x27ae41e4649b934c,
        0xa495991b7852b855,
    ]);
    assert_eq!(calc_sha256_scalar(&[]), expected);
}

#[test]
fn challenge_of_abc_matches_sha256() {
    let expected = Scalar::from_raw([
        0xba7816bf8f01cfea,
        0x414140de5dae2223,
        0xb00361a396177a9c,
        0xb410ff61f20015ad,
    ]);
    assert_eq!(calc_sha256_scalar(b"abc"), expected);
}

#[test]
fn challenge_is_deterministic() {
    let transcript: Vec<u8> = (0u8..=255).cycle().take(4096).collect();
    let first = calc_sha256_scalar(&transcript);
    let second = calc_sha256_scalar(&transcript);
    assert_eq!(first, second);
}

#[test]
fn challenge_depends_on_the_input() {
    assert_ne!(calc_sha256_scalar(&[0u8]), calc_sha256_scalar(&[1u8]));
    assert_ne!(calc_sha256_scalar(&[]), calc_sha256_scalar(&[0u8]));
}
