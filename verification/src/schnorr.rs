//! Non-interactive Schnorr proofs of knowledge of a discrete logarithm
//! (Fiat-Shamir transform), bound to a login session.
use vstd::prelude::*;
use crate::encoding::{append_bytes, le_nat, u32_be_bytes, u32_to_be_bytes};
use crate::group::{
    group_order, ristretto_decoding, ristretto_encoding, RistrettoPoint, Scalar,
};
use sha2::Digest;

verus! {

/// What SHA-512 (the `sha2` crate) computes for `data`.
pub uninterp spec fn sha512(data: Seq<u8>) -> Seq<u8>;

/// Calls `Sha512::digest`. Trusted: the 64-byte digest is `sha512(data)`.
/// Feeding the data in several `update` calls gives the same digest as one
/// call on their concatenation.
#[verifier::external_body]
fn sha512_digest(data: &[u8]) -> (digest: [u8; 64])
    ensures
        digest@ == sha512(data@),
{
    let hash = sha2::Sha512::digest(data);
    let mut digest = [0u8; 64];
    digest.copy_from_slice(&hash);
    digest
}

/// A proof that its author knows `x` with `Y = x·B`: the commitment `t`
/// (an encoded group element) and the response `s` (an encoded scalar).
#[derive(Debug, Clone, Copy, PartialEq, Eq)]
pub struct SchnorrProof {
    pub t: [u8; 32],
    pub s: [u8; 32],
}

/// The ASCII bytes of the domain separator `ZK_AUTH_TOTP`.
pub open spec fn domain_separator() -> Seq<u8> {
    seq![0x5Au8, 0x4Bu8, 0x5Fu8, 0x41u8, 0x55u8, 0x54u8, 0x48u8, 0x5Fu8, 0x54u8, 0x4Fu8, 0x54u8, 0x50u8]
}

/// The domain separator is the ASCII text `ZK_AUTH_TOTP`, byte for
/// character.
pub proof fn lemma_domain_separator_ascii()
    ensures
        domain_separator().len() == 12,
        domain_separator() == "ZK_AUTH_TOTP"@.map_values(|c: char| c as u8),
{
    reveal_strlit("ZK_AUTH_TOTP");
    assert(domain_separator() =~= "ZK_AUTH_TOTP"@.map_values(|c: char| c as u8));
}

/// The transcript is the domain separator, then `t`, `Y`, `A`, `B`, the
/// one-time password as four bytes and the nonce, each at a fixed offset.
pub proof fn lemma_transcript_layout(
    t: Seq<u8>,
    y: Seq<u8>,
    a: Seq<u8>,
    b: Seq<u8>,
    totp: u32,
    nonce: Seq<u8>,
)
    requires
        t.len() == 32,
        y.len() == 32,
        a.len() == 32,
        b.len() == 32,
        nonce.len() == 16,
    ensures
        ({
            let tr = fiat_shamir_transcript(t, y, a, b, totp, nonce);
            &&& tr.len() == 160
            &&& tr.subrange(0, 12) == domain_separator()
            &&& tr.subrange(12, 44) == t
            &&& tr.subrange(44, 76) == y
            &&& tr.subrange(76, 108) == a
            &&& tr.subrange(108, 140) == b
            &&& tr.subrange(140, 144) == u32_be_bytes(totp)
            &&& tr.subrange(144, 160) == nonce
        }),
{
    let tr = fiat_shamir_transcript(t, y, a, b, totp, nonce);
    assert(tr.subrange(0, 12) =~= domain_separator());
    assert(tr.subrange(12, 44) =~= t);
    assert(tr.subrange(44, 76) =~= y);
    assert(tr.subrange(76, 108) =~= a);
    assert(tr.subrange(108, 140) =~= b);
    assert(tr.subrange(140, 144) =~= u32_be_bytes(totp));
    assert(tr.subrange(144, 160) =~= nonce);
}

/// The hashed transcript `"ZK_AUTH_TOTP" || t || Y || A || B || TOTP || nonce`,
/// with the one-time password as four big-endian bytes.
pub open spec fn fiat_shamir_transcript(
    t: Seq<u8>,
    y: Seq<u8>,
    a: Seq<u8>,
    b: Seq<u8>,
    totp: u32,
    nonce: Seq<u8>,
) -> Seq<u8> {
    domain_separator() + t + y + a + b + u32_be_bytes(totp) + nonce
}

/// The Fiat-Shamir challenge: the SHA-512 digest of the transcript, read as
/// a 512-bit little-endian integer and reduced modulo `ℓ`.
pub open spec fn challenge_value(
    t: Seq<u8>,
    y: Seq<u8>,
    a: Seq<u8>,
    b: Seq<u8>,
    totp: u32,
    nonce: Seq<u8>,
) -> nat {
    le_nat(sha512(fiat_shamir_transcript(t, y, a, b, totp, nonce))) % group_order()
}

/// The verification equation `s·B == t + e·Y`, on discrete logarithms:
/// `t` must decode, and `s ≡ log(t) + e·log(Y) (mod ℓ)` for the challenge
/// `e` of the session.
pub open spec fn schnorr_accepts(
    proof: SchnorrProof,
    y: nat,
    a: Seq<u8>,
    b: Seq<u8>,
    totp: u32,
    nonce: Seq<u8>,
) -> bool {
    match ristretto_decoding(proof.t@) {
        None => false,
        Some(t) => {
            let e: nat = challenge_value(proof.t@, ristretto_encoding(y), a, b, totp, nonce);
            le_nat(proof.s@) % group_order() == (t + y * e) % group_order()
        },
    }
}

fn domain_separator_bytes() -> (ds: [u8; 12])
    ensures
        ds@ == domain_separator(),
{
    let ds = [0x5Au8, 0x4Bu8, 0x5Fu8, 0x41u8, 0x55u8, 0x54u8, 0x48u8, 0x5Fu8, 0x54u8, 0x4Fu8, 0x54u8, 0x50u8];
    assert(ds@ =~= domain_separator());
    ds
}

/// Builds the transcript that the challenge is hashed from.
pub fn build_transcript(
    t: &[u8; 32],
    y: &[u8; 32],
    a_bytes: &[u8; 32],
    b_bytes: &[u8; 32],
    totp: u32,
    nonce: &[u8; 16],
) -> (transcript: Vec<u8>)
    ensures
        transcript@ == fiat_shamir_transcript(t@, y@, a_bytes@, b_bytes@, totp, nonce@),
{
    let mut transcript: Vec<u8> = Vec::new();
    let ds = domain_separator_bytes();
    let totp_bytes = u32_to_be_bytes(totp);
    append_bytes(&mut transcript, &ds);
    append_bytes(&mut transcript, t);
    append_bytes(&mut transcript, y);
    append_bytes(&mut transcript, a_bytes);
    append_bytes(&mut transcript, b_bytes);
    append_bytes(&mut transcript, &totp_bytes);
    append_bytes(&mut transcript, nonce);
    assert(transcript@ =~= fiat_shamir_transcript(t@, y@, a_bytes@, b_bytes@, totp, nonce@));
    transcript
}

/// The Fiat-Shamir challenge `e = H("ZK_AUTH_TOTP" || t || Y || A || B || TOTP || nonce) mod ℓ`.
pub fn compute_fiat_shamir_challenge(
    t: &RistrettoPoint,
    y: &RistrettoPoint,
    a_bytes: &[u8; 32],
    b_bytes: &[u8; 32],
    totp: u32,
    nonce: &[u8; 16],
) -> (e: Scalar)
    ensures
        e@ == challenge_value(
            ristretto_encoding(t@),
            ristretto_encoding(y@),
            a_bytes@,
            b_bytes@,
            totp,
            nonce@,
        ),
{
    let t_bytes = t.compress();
    let y_bytes = y.compress();
    let transcript = build_transcript(&t_bytes, &y_bytes, a_bytes, b_bytes, totp, nonce);
    let hash = sha512_digest(transcript.as_slice());
    Scalar::from_bytes_mod_order_wide(&hash)
}

proof fn lemma_response_accepted(r: nat, x: nat, e: nat, s: nat)
    requires
        r < group_order(),
        x < group_order(),
        s == (r + (e * x) % group_order()) % group_order(),
    ensures
        s % group_order() == (r + x * e) % group_order(),
{
    let l: int = group_order() as int;
    let ex: int = (e * x) as int;
    vstd::arithmetic::div_mod::lemma_add_mod_noop(r as int, ex, l);
    vstd::arithmetic::div_mod::lemma_mod_twice(ex, l);
    vstd::arithmetic::div_mod::lemma_mod_twice(r as int + ex % l, l);
    vstd::arithmetic::mul::lemma_mul_is_commutative(e as int, x as int);
}

/// `proof` is `(r·B, r + e·x)` for some commitment scalar `r`, with `e` the
/// challenge of the session `(A, B, TOTP, nonce)` for the key `y`.
pub open spec fn is_response_with_commitment(
    proof: SchnorrProof,
    x: nat,
    y: nat,
    a: Seq<u8>,
    b: Seq<u8>,
    totp: u32,
    nonce: Seq<u8>,
) -> bool {
    exists|r: nat|
        #![trigger ristretto_encoding(r)]
        {
            &&& r < group_order()
            &&& proof.t@ == ristretto_encoding(r)
            &&& ristretto_decoding(proof.t@) == Some(r)
            &&& le_nat(proof.s@) == (r + challenge_value(
                proof.t@,
                ristretto_encoding(y),
                a,
                b,
                totp,
                nonce,
            ) * x) % group_order()
        }
}

/// Completeness: a response `(r·B, r + e·x)` to the challenge of a session
/// is accepted, in that session, for the key `x·B`.
pub proof fn lemma_schnorr_completeness(
    proof: SchnorrProof,
    x: nat,
    a: Seq<u8>,
    b: Seq<u8>,
    totp: u32,
    nonce: Seq<u8>,
)
    requires
        x < group_order(),
        is_response_with_commitment(proof, x, x, a, b, totp, nonce),
    ensures
        schnorr_accepts(proof, x, a, b, totp, nonce),
{
    let r = choose|r: nat|
        #![trigger ristretto_encoding(r)]
        {
            &&& r < group_order()
            &&& proof.t@ == ristretto_encoding(r)
            &&& ristretto_decoding(proof.t@) == Some(r)
            &&& le_nat(proof.s@) == (r + challenge_value(
                proof.t@,
                ristretto_encoding(x),
                a,
                b,
                totp,
                nonce,
            ) * x) % group_order()
        };
    let e = challenge_value(proof.t@, ristretto_encoding(x), a, b, totp, nonce);
    let l: int = group_order() as int;
    vstd::arithmetic::div_mod::lemma_mod_twice((r + e * x) as int, l);
    vstd::arithmetic::mul::lemma_mul_is_commutative(e as int, x as int);
}

/// Proves knowledge of `x` for `y` in the session `(A, B, TOTP, nonce)`,
/// with the commitment scalar `r` given: `t = r·B`, `s = r + e·x`.
pub fn generate_proof_with_commitment(
    x: &Scalar,
    y: &RistrettoPoint,
    a_bytes: &[u8; 32],
    b_bytes: &[u8; 32],
    totp: u32,
    server_nonce: &[u8; 16],
    r: &Scalar,
) -> (proof: SchnorrProof)
    ensures
        proof.t@ == ristretto_encoding(r@),
        ristretto_decoding(proof.t@) == Some(r@),
        le_nat(proof.s@) == (r@ + challenge_value(
            proof.t@,
            ristretto_encoding(y@),
            a_bytes@,
            b_bytes@,
            totp,
            server_nonce@,
        ) * x@) % group_order(),
        y@ == x@ ==> schnorr_accepts(proof, y@, a_bytes@, b_bytes@, totp, server_nonce@),
{
    let t_point = RistrettoPoint::mul_base(r);
    let e = compute_fiat_shamir_challenge(&t_point, y, a_bytes, b_bytes, totp, server_nonce);
    let s_point = r.add(&e.mul(x));
    let proof = SchnorrProof { t: t_point.compress(), s: s_point.to_bytes() };
    proof {
        r.lemma_reduced();
        x.lemma_reduced();
        y.lemma_reduced();
        e.lemma_reduced();
        vstd::arithmetic::div_mod::lemma_add_mod_noop(r@ as int, (e@ * x@) as int, group_order() as int);
        vstd::arithmetic::div_mod::lemma_mod_twice((e@ * x@) as int, group_order() as int);
        vstd::arithmetic::div_mod::lemma_mod_twice((r@ + e@ * x@) as int, group_order() as int);
        vstd::arithmetic::div_mod::lemma_small_mod(r@, group_order());
        if y@ == x@ {
            lemma_response_accepted(r@, x@, e@, le_nat(proof.s@));
        }
    }
    proof
}

/// Proves knowledge of `x` for `y` in the session `(A, B, TOTP, nonce)`
/// with a fresh random commitment. An honest proof (`y = x·B`) is accepted
/// by `verify_proof` in the same session.
pub fn generate_proof(
    x: &Scalar,
    y: &RistrettoPoint,
    a_bytes: &[u8; 32],
    b_bytes: &[u8; 32],
    totp: u32,
    server_nonce: &[u8; 16],
) -> (proof: SchnorrProof)
    ensures
        y@ == x@ ==> schnorr_accepts(proof, y@, a_bytes@, b_bytes@, totp, server_nonce@),
        is_response_with_commitment(proof, x@, y@, a_bytes@, b_bytes@, totp, server_nonce@),
{
    let r = Scalar::random();
    let proof = generate_proof_with_commitment(x, y, a_bytes, b_bytes, totp, server_nonce, &r);
    proof {
        r.lemma_reduced();
        assert(proof.t@ == ristretto_encoding(r@));
    }
    proof
}

/// Checks `s·B == t + e·Y` for the challenge `e` of the session.
pub fn verify_proof(
    proof: &SchnorrProof,
    y: &RistrettoPoint,
    a_bytes: &[u8; 32],
    b_bytes: &[u8; 32],
    totp: u32,
    nonce: &[u8; 16],
) -> (accepted: bool)
    ensures
        accepted == schnorr_accepts(*proof, y@, a_bytes@, b_bytes@, totp, nonce@),
{
    let t_point = match RistrettoPoint::decompress(proof.t) {
        Some(point) => point,
        None => return false,
    };
    let s_point = Scalar::from_bytes_mod_order(proof.s);
    let e = compute_fiat_shamir_challenge(&t_point, y, a_bytes, b_bytes, totp, nonce);
    let left_side = RistrettoPoint::mul_base(&s_point);
    let right_side = t_point.add(&y.mul(&e));
    let accepted = left_side.equals(&right_side);
    proof {
        t_point.lemma_reduced();
        y.lemma_reduced();
        let l: int = group_order() as int;
        vstd::arithmetic::div_mod::lemma_add_mod_noop(t_point@ as int, (y@ * e@) as int, l);
        vstd::arithmetic::div_mod::lemma_mod_twice((y@ * e@) as int, l);
        vstd::arithmetic::div_mod::lemma_small_mod(t_point@, group_order());
    }
    accepted
}

/// A long-term key pair: a random secret `x` and its public key `Y = x·B`.
pub fn keypair_gen() -> (pair: (Scalar, RistrettoPoint))
    ensures
        pair.1@ == pair.0@,
{
    let x = Scalar::random();
    let y = RistrettoPoint::mul_base(&x);
    (x, y)
}

} // verus!
