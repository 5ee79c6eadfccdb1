//! The Ristretto group of prime order `ℓ` and its scalars, as computed by
//! `curve25519-dalek`.
//!
//! A scalar is held as its canonical 32-byte little-endian encoding and is
//! modelled by the element of `Z/ℓZ` it represents. A group element is held
//! as its canonical 32-byte Ristretto encoding and is modelled by its
//! discrete logarithm with respect to the Ristretto basepoint `B`: the group
//! is cyclic of prime order `ℓ`, so every element is `k·B` for exactly one
//! `k` in `[0, ℓ)`. Group addition is then addition of logarithms mod `ℓ`,
//! and scalar multiplication is multiplication of the logarithm mod `ℓ`.
use vstd::prelude::*;
use crate::encoding::{le_bytes, le_nat, lemma_le_bytes_le_nat};
use curve25519_dalek::ristretto::CompressedRistretto;

verus! {

/// The order `ℓ = 2^252 + 27742317777372353535851937790883648493` of the
/// Ristretto group and of its scalar field.
pub open spec fn group_order() -> nat {
    7237005577332262213973186563042994240857116359379907606001950938285454250989nat
}

/// The canonical Ristretto encoding (`RistrettoPoint::compress`) of the
/// group element `k·B`.
pub uninterp spec fn ristretto_encoding(k: nat) -> Seq<u8>;

/// What `CompressedRistretto::decompress` yields for `bytes`: `None` when
/// `bytes` is not the canonical encoding of a group element, otherwise the
/// discrete logarithm in `[0, ℓ)` of the decoded element.
pub uninterp spec fn ristretto_decoding(bytes: Seq<u8>) -> Option<nat>;

/// `bytes` is the canonical encoding of a group element.
pub open spec fn is_point_encoding(bytes: Seq<u8>) -> bool {
    ristretto_decoding(bytes) is Some
}

// ---------------------------------------------------------------------
// Calls into curve25519-dalek
// ---------------------------------------------------------------------

/// Calls `Scalar::from_bytes_mod_order` and `Scalar::to_bytes`. Trusted:
/// the result is the little-endian encoding of the 256-bit little-endian
/// integer `bytes` reduced modulo `ℓ`.
#[verifier::external_body]
fn dalek_scalar_from_bytes_mod_order(bytes: [u8; 32]) -> (res: [u8; 32])
    ensures
        le_nat(res@) == le_nat(bytes@) % group_order(),
{
    curve25519_dalek::scalar::Scalar::from_bytes_mod_order(bytes).to_bytes()
}

/// Calls `Scalar::from_bytes_mod_order_wide`. Trusted: the result is the
/// little-endian encoding of the 512-bit little-endian integer `bytes`
/// reduced modulo `ℓ`.
#[verifier::external_body]
fn dalek_scalar_from_bytes_mod_order_wide(bytes: &[u8; 64]) -> (res: [u8; 32])
    ensures
        le_nat(res@) == le_nat(bytes@) % group_order(),
{
    curve25519_dalek::scalar::Scalar::from_bytes_mod_order_wide(bytes).to_bytes()
}

/// Calls `Scalar + Scalar`. Trusted: for reduced operands, the result
/// encodes their sum modulo `ℓ`.
#[verifier::external_body]
fn dalek_scalar_add(a: &[u8; 32], b: &[u8; 32]) -> (res: [u8; 32])
    requires
        le_nat(a@) < group_order(),
        le_nat(b@) < group_order(),
    ensures
        le_nat(res@) == (le_nat(a@) + le_nat(b@)) % group_order(),
{
    let a = curve25519_dalek::scalar::Scalar::from_bytes_mod_order(*a);
    let b = curve25519_dalek::scalar::Scalar::from_bytes_mod_order(*b);
    (a + b).to_bytes()
}

/// Calls `Scalar * Scalar`. Trusted: for reduced operands, the result
/// encodes their product modulo `ℓ`.
#[verifier::external_body]
fn dalek_scalar_mul(a: &[u8; 32], b: &[u8; 32]) -> (res: [u8; 32])
    requires
        le_nat(a@) < group_order(),
        le_nat(b@) < group_order(),
    ensures
        le_nat(res@) == (le_nat(a@) * le_nat(b@)) % group_order(),
{
    let a = curve25519_dalek::scalar::Scalar::from_bytes_mod_order(*a);
    let b = curve25519_dalek::scalar::Scalar::from_bytes_mod_order(*b);
    (a * b).to_bytes()
}

/// Calls `Scalar::random` with `rand_core::OsRng`. Trusted: the result is
/// reduced modulo `ℓ`; nothing is claimed of which scalar it is.
#[verifier::external_body]
fn dalek_scalar_random() -> (res: [u8; 32])
    ensures
        le_nat(res@) < group_order(),
{
    curve25519_dalek::scalar::Scalar::random(&mut rand_core::OsRng).to_bytes()
}

/// Calls `RISTRETTO_BASEPOINT_POINT * Scalar` and compresses the product.
/// Trusted: the result is the canonical encoding of `k·B` for the scalar
/// `k` that `s` encodes, and it decodes back to `k`.
#[verifier::external_body]
fn dalek_basepoint_mul(s: &[u8; 32]) -> (res: [u8; 32])
    requires
        le_nat(s@) < group_order(),
    ensures
        res@ == ristretto_encoding(le_nat(s@)),
        ristretto_decoding(res@) == Some(le_nat(s@)),
{
    let s = curve25519_dalek::scalar::Scalar::from_bytes_mod_order(*s);
    (curve25519_dalek::constants::RISTRETTO_BASEPOINT_POINT * s).compress().to_bytes()
}

/// Calls `RistrettoPoint * Scalar` on the decoded point and compresses the
/// product. Trusted: for `p` encoding `m·B`, the result is the canonical
/// encoding of `(m·k mod ℓ)·B`, and it decodes back to that logarithm.
#[verifier::external_body]
fn dalek_point_mul(p: &[u8; 32], s: &[u8; 32]) -> (res: [u8; 32])
    requires
        is_point_encoding(p@),
        le_nat(s@) < group_order(),
    ensures
        res@ == ristretto_encoding(
            (ristretto_decoding(p@)->0 * le_nat(s@)) % group_order(),
        ),
        ristretto_decoding(res@) == Some(
            (ristretto_decoding(p@)->0 * le_nat(s@)) % group_order(),
        ),
{
    let p = CompressedRistretto(*p).decompress().unwrap();
    let s = curve25519_dalek::scalar::Scalar::from_bytes_mod_order(*s);
    (p * s).compress().to_bytes()
}

/// Calls `RistrettoPoint + RistrettoPoint` on the decoded points and
/// compresses the sum. Trusted: for `p` encoding `m·B` and `q` encoding
/// `n·B`, the result is the canonical encoding of `((m + n) mod ℓ)·B`, and
/// it decodes back to that logarithm.
#[verifier::external_body]
fn dalek_point_add(p: &[u8; 32], q: &[u8; 32]) -> (res: [u8; 32])
    requires
        is_point_encoding(p@),
        is_point_encoding(q@),
    ensures
        res@ == ristretto_encoding(
            (ristretto_decoding(p@)->0 + ristretto_decoding(q@)->0) % group_order(),
        ),
        ristretto_decoding(res@) == Some(
            (ristretto_decoding(p@)->0 + ristretto_decoding(q@)->0) % group_order(),
        ),
{
    let p = CompressedRistretto(*p).decompress().unwrap();
    let q = CompressedRistretto(*q).decompress().unwrap();
    (p + q).compress().to_bytes()
}

/// Calls `CompressedRistretto::decompress` and reports whether it succeeds.
/// Trusted: success is `ristretto_decoding(bytes)` being `Some`; a decoded
/// logarithm lies in `[0, ℓ)`, and since the Ristretto encoding is
/// canonical, re-encoding the decoded element gives `bytes` back.
#[verifier::external_body]
fn dalek_decompresses(bytes: &[u8; 32]) -> (ok: bool)
    ensures
        ok == is_point_encoding(bytes@),
        ok ==> ristretto_decoding(bytes@)->0 < group_order(),
        ok ==> ristretto_encoding(ristretto_decoding(bytes@)->0) == bytes@,
{
    CompressedRistretto(*bytes).decompress().is_some()
}

/// Calls `RistrettoPoint == RistrettoPoint` on the decoded points. Trusted:
/// the result is whether the two elements are equal in the group.
#[verifier::external_body]
fn dalek_points_equal(p: &[u8; 32], q: &[u8; 32]) -> (eq: bool)
    requires
        is_point_encoding(p@),
        is_point_encoding(q@),
    ensures
        eq == (ristretto_decoding(p@)->0 == ristretto_decoding(q@)->0),
{
    CompressedRistretto(*p).decompress().unwrap() == CompressedRistretto(*q).decompress().unwrap()
}

// ---------------------------------------------------------------------
// Scalars
// ---------------------------------------------------------------------

/// An element of `Z/ℓZ`, held as its canonical little-endian encoding.
#[derive(Debug, Clone, Copy)]
pub struct Scalar {
    bytes: [u8; 32],
}

impl View for Scalar {
    type V = nat;

    /// The residue modulo `ℓ` that the scalar represents.
    closed spec fn view(&self) -> nat {
        le_nat(self.bytes@) % group_order()
    }
}

impl Scalar {
    #[verifier::type_invariant]
    closed spec fn is_reduced(self) -> bool {
        le_nat(self.bytes@) < group_order()
    }

    /// The residue of a scalar lies in `[0, ℓ)`.
    pub proof fn lemma_reduced(self)
        ensures
            self@ < group_order(),
    {
        vstd::arithmetic::div_mod::lemma_mod_pos_bound(le_nat(self.bytes@) as int, group_order() as int);
    }

    /// The scalar that the 256-bit little-endian integer `bytes` represents
    /// modulo `ℓ`.
    pub fn from_bytes_mod_order(bytes: [u8; 32]) -> (s: Scalar)
        ensures
            s@ == le_nat(bytes@) % group_order(),
    {
        Scalar { bytes: dalek_scalar_from_bytes_mod_order(bytes) }
    }

    /// The scalar that the 512-bit little-endian integer `bytes` represents
    /// modulo `ℓ`.
    pub fn from_bytes_mod_order_wide(bytes: &[u8; 64]) -> (s: Scalar)
        ensures
            s@ == le_nat(bytes@) % group_order(),
    {
        Scalar { bytes: dalek_scalar_from_bytes_mod_order_wide(bytes) }
    }

    /// A scalar drawn from the operating system's random source.
    pub fn random() -> (s: Scalar) {
        Scalar { bytes: dalek_scalar_random() }
    }

    /// The canonical little-endian encoding of the scalar.
    pub fn to_bytes(&self) -> (bytes: [u8; 32])
        ensures
            le_nat(bytes@) == self@,
            bytes@ == le_bytes(self@, 32),
    {
        proof {
            use_type_invariant(self);
            lemma_le_bytes_le_nat(self.bytes@);
            vstd::arithmetic::div_mod::lemma_small_mod(le_nat(self.bytes@), group_order());
        }
        self.bytes
    }

    /// `self + other` in `Z/ℓZ`.
    pub fn add(&self, other: &Scalar) -> (s: Scalar)
        ensures
            s@ == (self@ + other@) % group_order(),
    {
        proof {
            use_type_invariant(self);
            use_type_invariant(other);
        }
        Scalar { bytes: dalek_scalar_add(&self.bytes, &other.bytes) }
    }

    /// `self * other` in `Z/ℓZ`.
    pub fn mul(&self, other: &Scalar) -> (s: Scalar)
        ensures
            s@ == (self@ * other@) % group_order(),
    {
        proof {
            use_type_invariant(self);
            use_type_invariant(other);
        }
        Scalar { bytes: dalek_scalar_mul(&self.bytes, &other.bytes) }
    }
}

// ---------------------------------------------------------------------
// Group elements
// ---------------------------------------------------------------------

/// An element of the Ristretto group, held as its canonical encoding.
#[derive(Debug, Clone, Copy)]
pub struct RistrettoPoint {
    encoding: [u8; 32],
}

impl View for RistrettoPoint {
    type V = nat;

    /// The discrete logarithm of the element with respect to `B`.
    closed spec fn view(&self) -> nat {
        ristretto_decoding(self.encoding@)->0 % group_order()
    }
}

impl RistrettoPoint {
    #[verifier::type_invariant]
    closed spec fn is_canonical(self) -> bool {
        &&& is_point_encoding(self.encoding@)
        &&& ristretto_decoding(self.encoding@)->0 < group_order()
        &&& ristretto_encoding(ristretto_decoding(self.encoding@)->0) == self.encoding@
    }

    /// The logarithm of an element lies in `[0, ℓ)`.
    pub proof fn lemma_reduced(self)
        ensures
            self@ < group_order(),
    {
        vstd::arithmetic::div_mod::lemma_mod_pos_bound(
            ristretto_decoding(self.encoding@)->0 as int,
            group_order() as int,
        );
    }

    /// `s·B`, where `B` is the Ristretto basepoint.
    pub fn mul_base(s: &Scalar) -> (p: RistrettoPoint)
        ensures
            p@ == s@,
    {
        let bytes = s.to_bytes();
        RistrettoPoint { encoding: dalek_basepoint_mul(&bytes) }
    }

    /// `s·self`.
    pub fn mul(&self, s: &Scalar) -> (p: RistrettoPoint)
        ensures
            p@ == (self@ * s@) % group_order(),
    {
        proof {
            use_type_invariant(self);
        }
        let bytes = s.to_bytes();
        RistrettoPoint { encoding: dalek_point_mul(&self.encoding, &bytes) }
    }

    /// `self + other`.
    pub fn add(&self, other: &RistrettoPoint) -> (p: RistrettoPoint)
        ensures
            p@ == (self@ + other@) % group_order(),
    {
        proof {
            use_type_invariant(self);
            use_type_invariant(other);
        }
        RistrettoPoint { encoding: dalek_point_add(&self.encoding, &other.encoding) }
    }

    /// Whether `self` and `other` are the same group element.
    pub fn equals(&self, other: &RistrettoPoint) -> (eq: bool)
        ensures
            eq == (self@ == other@),
    {
        proof {
            use_type_invariant(self);
            use_type_invariant(other);
        }
        dalek_points_equal(&self.encoding, &other.encoding)
    }

    /// The canonical 32-byte encoding of the element.
    pub fn compress(&self) -> (bytes: [u8; 32])
        ensures
            bytes@ == ristretto_encoding(self@),
            ristretto_decoding(bytes@) == Some(self@),
    {
        proof {
            use_type_invariant(self);
        }
        self.encoding
    }

    /// Decodes a canonical 32-byte encoding; `None` when `bytes` encodes no
    /// group element.
    pub fn decompress(bytes: [u8; 32]) -> (p: Option<RistrettoPoint>)
        ensures
            p is Some <==> is_point_encoding(bytes@),
            p matches Some(q) ==> q@ == ristretto_decoding(bytes@)->0
                && ristretto_encoding(q@) == bytes@,
    {
        if dalek_decompresses(&bytes) {
            Some(RistrettoPoint { encoding: bytes })
        } else {
            None
        }
    }
}

} // verus!
