use curve25519_dalek::constants::{RISTRETTO_BASEPOINT_COMPRESSED, RISTRETTO_BASEPOINT_POINT};
use zk_auth_totp::dh::{derive_dh_key, dh_gen};
use zk_auth_totp::group::{RistrettoPoint, Scalar};

const GROUP_ORDER_BYTES: [u8; 32] = [
    0xed, 0xd3, 0xf5, 0x5c, 0x1a, 0x63, 0x12, 0x58, 0xd6, 0x9c, 0xf7, 0xa2, 0xde, 0xf9, 0xde, 0x14,
    0x00, 0x00, 0x00, 0x00, 0x00, 0x00, 0x00, 0x00, 0x00, 0x00, 0x00, 0x00, 0x00, 0x00, 0x00, 0x10,
];

fn small(v: u8) -> Scalar {
    let mut bytes = [0u8; 32];
    bytes[0] = v;
    Scalar::from_bytes_mod_order(bytes)
}

#[test]
fn group_order_reduces_to_zero() {
    assert_eq!(Scalar::from_bytes_mod_order(GROUP_ORDER_BYTES).to_bytes(), [0u8; 32]);
    let mut plus_one = GROUP_ORDER_BYTES;
    plus_one[0] += 1;
    assert_eq!(Scalar::from_bytes_mod_order(plus_one).to_bytes(), small(1).to_bytes());
}

#[test]
fn wide_reduction() {
    let mut wide = [0u8; 64];
    wide[..32].copy_from_slice(&GROUP_ORDER_BYTES);
    wide[0] += 5;
    assert_eq!(Scalar::from_bytes_mod_order_wide(&wide).to_bytes(), small(5).to_bytes());
    let ones = [0xffu8; 64];
    let expected = curve25519_dalek::scalar::Scalar::from_bytes_mod_order_wide(&ones).to_bytes();
    assert_eq!(Scalar::from_bytes_mod_order_wide(&ones).to_bytes(), expected);
}

#[test]
fn scalar_arithmetic() {
    assert_eq!(small(2).add(&small(3)).to_bytes(), small(5).to_bytes());
    assert_eq!(small(2).mul(&small(3)).to_bytes(), small(6).to_bytes());
    // (ℓ - 1) + 2 = 1 mod ℓ
    let mut minus_one = GROUP_ORDER_BYTES;
    minus_one[0] -= 1;
    let m1 = Scalar::from_bytes_mod_order(minus_one);
    assert_eq!(m1.add(&small(2)).to_bytes(), small(1).to_bytes());
    assert_eq!(m1.mul(&m1).to_bytes(), small(1).to_bytes());
}

#[test]
fn basepoint_multiples() {
    assert_eq!(RistrettoPoint::mul_base(&small(1)).compress(), RISTRETTO_BASEPOINT_COMPRESSED.to_bytes());
    let two_b = (RISTRETTO_BASEPOINT_POINT + RISTRETTO_BASEPOINT_POINT).compress().to_bytes();
    assert_eq!(RistrettoPoint::mul_base(&small(2)).compress(), two_b);
    let b = RistrettoPoint::mul_base(&small(1));
    assert_eq!(b.add(&b).compress(), two_b);
    assert_eq!(b.mul(&small(2)).compress(), two_b);
    let identity = RistrettoPoint::mul_base(&small(0)).compress();
    assert_eq!(identity, [0u8; 32]);
}

#[test]
fn point_equality() {
    let b = RistrettoPoint::mul_base(&small(1));
    let b3 = RistrettoPoint::mul_base(&small(3));
    assert!(b.add(&b).add(&b).equals(&b3));
    assert!(!b.equals(&b3));
}

#[test]
fn decompress_roundtrip_and_rejection() {
    let p = RistrettoPoint::mul_base(&small(7));
    let q = RistrettoPoint::decompress(p.compress()).expect("canonical encoding");
    assert!(p.equals(&q));
    assert_eq!(q.compress(), p.compress());
    assert!(RistrettoPoint::decompress([0xffu8; 32]).is_none());
    // Odd (negative) field elements are not canonical encodings.
    let mut odd = [0u8; 32];
    odd[0] = 1;
    assert!(RistrettoPoint::decompress(odd).is_none());
}

#[test]
fn dh_agreement() {
    let (a, big_a) = dh_gen();
    let (b, big_b) = dh_gen();
    let k1 = derive_dh_key(a, big_b);
    let k2 = derive_dh_key(b, big_a);
    assert!(k1.equals(&k2));
    assert_eq!(k1.compress(), k2.compress());
}

#[test]
fn dh_gen_public_matches_secret() {
    let (a, big_a) = dh_gen();
    assert_eq!(RistrettoPoint::mul_base(&a).compress(), big_a.compress());
    let expected = (RISTRETTO_BASEPOINT_POINT
        * curve25519_dalek::scalar::Scalar::from_bytes_mod_order(a.to_bytes()))
        .compress()
        .to_bytes();
    assert_eq!(big_a.compress(), expected);
}
