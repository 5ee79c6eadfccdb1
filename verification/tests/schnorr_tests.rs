use curve25519_dalek::constants::RISTRETTO_BASEPOINT_POINT;
use curve25519_dalek::ristretto::CompressedRistretto;
use sha2::Digest;
use zk_auth_totp::group::{RistrettoPoint, Scalar};
use zk_auth_totp::schnorr::{
    build_transcript, compute_fiat_shamir_challenge, generate_proof,
    generate_proof_with_commitment, keypair_gen, verify_proof, SchnorrProof,
};

fn small(v: u8) -> Scalar {
    let mut bytes = [0u8; 32];
    bytes[0] = v;
    Scalar::from_bytes_mod_order(bytes)
}

#[test]
fn transcript_layout() {
    let t = [1u8; 32];
    let y = [2u8; 32];
    let a = [3u8; 32];
    let b = [4u8; 32];
    let nonce = [5u8; 16];
    let transcript = build_transcript(&t, &y, &a, &b, 0x0102_0304, &nonce);
    let mut expected = b"ZK_AUTH_TOTP".to_vec();
    expected.extend_from_slice(&t);
    expected.extend_from_slice(&y);
    expected.extend_from_slice(&a);
    expected.extend_from_slice(&b);
    expected.extend_from_slice(&[1, 2, 3, 4]);
    expected.extend_from_slice(&nonce);
    assert_eq!(transcript, expected);
}

#[test]
fn challenge_is_sha512_reduced() {
    let t = RistrettoPoint::mul_base(&small(9));
    let y = RistrettoPoint::mul_base(&small(11));
    let a = [3u8; 32];
    let b = [4u8; 32];
    let nonce = [5u8; 16];
    let e = compute_fiat_shamir_challenge(&t, &y, &a, &b, 123456, &nonce);

    let mut hasher = sha2::Sha512::new();
    hasher.update(b"ZK_AUTH_TOTP");
    hasher.update(t.compress());
    hasher.update(y.compress());
    hasher.update(a);
    hasher.update(b);
    hasher.update(123456u32.to_be_bytes());
    hasher.update(nonce);
    let hash = hasher.finalize();
    let mut wide = [0u8; 64];
    wide.copy_from_slice(&hash);
    let expected = curve25519_dalek::scalar::Scalar::from_bytes_mod_order_wide(&wide);
    assert_eq!(e.to_bytes(), expected.to_bytes());
}

#[test]
fn honest_proof_verifies() {
    let (x, y) = keypair_gen();
    let a = [7u8; 32];
    let b = [8u8; 32];
    let nonce = [9u8; 16];
    let proof = generate_proof(&x, &y, &a, &b, 424242, &nonce);
    assert!(verify_proof(&proof, &y, &a, &b, 424242, &nonce));
}

#[test]
fn proof_with_given_commitment() {
    let x = small(5);
    let y = RistrettoPoint::mul_base(&x);
    let r = small(3);
    let a = [1u8; 32];
    let b = [2u8; 32];
    let nonce = [0u8; 16];
    let proof = generate_proof_with_commitment(&x, &y, &a, &b, 1, &nonce, &r);
    assert_eq!(proof.t, RistrettoPoint::mul_base(&r).compress());
    let t_point = RistrettoPoint::decompress(proof.t).unwrap();
    let e = compute_fiat_shamir_challenge(&t_point, &y, &a, &b, 1, &nonce);
    assert_eq!(proof.s, r.add(&e.mul(&x)).to_bytes());
    // g^s == t · Y^e, checked with curve25519-dalek directly.
    let s = curve25519_dalek::scalar::Scalar::from_bytes_mod_order(proof.s);
    let t = CompressedRistretto(proof.t).decompress().unwrap();
    let yd = CompressedRistretto(y.compress()).decompress().unwrap();
    let ed = curve25519_dalek::scalar::Scalar::from_bytes_mod_order(e.to_bytes());
    assert_eq!(RISTRETTO_BASEPOINT_POINT * s, t + yd * ed);
    assert!(verify_proof(&proof, &y, &a, &b, 1, &nonce));
}

#[test]
fn proof_bound_to_session() {
    let (x, y) = keypair_gen();
    let a = [7u8; 32];
    let b = [8u8; 32];
    let nonce = [9u8; 16];
    let proof = generate_proof(&x, &y, &a, &b, 111111, &nonce);
    assert!(!verify_proof(&proof, &y, &a, &b, 111112, &nonce));
    assert!(!verify_proof(&proof, &y, &a, &b, 111111, &[10u8; 16]));
    assert!(!verify_proof(&proof, &y, &b, &a, 111111, &nonce));
    let (_, other_y) = keypair_gen();
    assert!(!verify_proof(&proof, &other_y, &a, &b, 111111, &nonce));
}

#[test]
fn wrong_secret_rejected() {
    let (_, y) = keypair_gen();
    let (x_other, _) = keypair_gen();
    let a = [7u8; 32];
    let b = [8u8; 32];
    let nonce = [9u8; 16];
    let proof = generate_proof(&x_other, &y, &a, &b, 5, &nonce);
    assert!(!verify_proof(&proof, &y, &a, &b, 5, &nonce));
}

#[test]
fn tampered_proofs_rejected() {
    let (x, y) = keypair_gen();
    let a = [7u8; 32];
    let b = [8u8; 32];
    let nonce = [9u8; 16];
    let proof = generate_proof(&x, &y, &a, &b, 5, &nonce);
    let mut bad_s = proof;
    bad_s.s[0] ^= 1;
    assert!(!verify_proof(&bad_s, &y, &a, &b, 5, &nonce));
    let bad_t = SchnorrProof { t: [0xffu8; 32], s: proof.s };
    assert!(!verify_proof(&bad_t, &y, &a, &b, 5, &nonce));
}
