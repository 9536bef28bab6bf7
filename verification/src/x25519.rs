//! X25519 keys.

use vstd::prelude::*;
use x25519_dalek::{PublicKey, StaticSecret};

verus! {

/// The public key that `x25519_dalek` computes from a private key.
pub uninterp spec fn x25519_public_key(private_key: Seq<u8>) -> Seq<u8>;

/// `From<&StaticSecret>` for `x25519_dalek::PublicKey`: the public key of a private key. What it is
/// is left to the name `x25519_public_key`.
#[verifier::external_body]
pub(crate) fn public_key(private_key: &[u8; 32]) -> (key: [u8; 32])
    ensures
        key@ == x25519_public_key(private_key@),
{
    PublicKey::from(&StaticSecret::from(*private_key)).to_bytes()
}

} // verus!
