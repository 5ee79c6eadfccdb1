//! Ephemeral Diffie-Hellman over the Ristretto group.
use vstd::prelude::*;
use crate::group::{group_order, RistrettoPoint, Scalar};

verus! {

/// An ephemeral key pair: a random secret `b` and its public value `b·B`.
pub fn dh_gen() -> (pair: (Scalar, RistrettoPoint))
    ensures
        pair.1@ == pair.0@,
{
    let priv_local = Scalar::random();
    let pub_local = RistrettoPoint::mul_base(&priv_local);
    (priv_local, pub_local)
}

/// The shared element `priv_local · pub_peer`.
pub fn derive_dh_key(priv_local: Scalar, pub_peer: RistrettoPoint) -> (key: RistrettoPoint)
    ensures
        key@ == (priv_local@ * pub_peer@) % group_order(),
{
    pub_peer.mul(&priv_local)
}

/// Both ends of an exchange derive the same element: with `A = a·B` and
/// `B' = b·B`, `a·B' == b·A`.
pub proof fn lemma_dh_agreement(a: nat, b: nat, pub_a: nat, pub_b: nat)
    requires
        a < group_order(),
        b < group_order(),
        pub_a == a,
        pub_b == b,
    ensures
        (a * pub_b) % group_order() == (b * pub_a) % group_order(),
{
    vstd::arithmetic::mul::lemma_mul_is_commutative(a as int, b as int);
}

} // verus!
