//! Ed25519 signatures.

use ed25519_dalek::{PublicKey, Signature, Verifier};
use vstd::prelude::*;

use crate::errors::WireGuardError;
use crate::packet::{RODT_ID_PK_SZ, RODT_ID_SIGNATURE_SZ};

verus! {

/// Whether `ed25519_dalek::PublicKey::from_bytes` takes `key`: whether it is a compressed point of
/// the curve.
pub uninterp spec fn ed25519_key_decodes(key: Seq<u8>) -> bool;

/// Whether `ed25519_dalek` finds that `signature` is one of `message` by the owner of `key`.
pub uninterp spec fn ed25519_verifies(key: Seq<u8>, message: Seq<u8>, signature: Seq<u8>) -> bool;

/// Whether the bytes can be a signature at all: of the last byte the upper three bits are zero.
pub open spec fn ed25519_signature_parses(signature: Seq<u8>) -> bool {
    signature[63] < 32
}

/// `ed25519_dalek::Signature::from_bytes`, which takes 64 bytes unless one of the three highest
/// bits of the last is set.
#[verifier::external_body]
fn signature_parses(signature: &[u8; RODT_ID_SIGNATURE_SZ]) -> (parses: bool)
    ensures
        parses == ed25519_signature_parses(signature@),
{
    Signature::from_bytes(signature).is_ok()
}

/// `ed25519_dalek::PublicKey::from_bytes`, which takes 32 bytes where they are a compressed point of
/// the curve. Which those are is left to the name `ed25519_key_decodes`.
#[verifier::external_body]
fn key_decodes(key: &[u8; RODT_ID_PK_SZ]) -> (decodes: bool)
    ensures
        decodes == ed25519_key_decodes(key@),
{
    PublicKey::from_bytes(key).is_ok()
}

/// `Verifier::verify` of `ed25519_dalek::PublicKey`, for a key and a signature that parse: whether
/// the signature is one of `message` by the owner of the key, which is left to the name
/// `ed25519_verifies`.
#[verifier::external_body]
fn verifies(
    key: &[u8; RODT_ID_PK_SZ],
    message: &[u8],
    signature: &[u8; RODT_ID_SIGNATURE_SZ],
) -> (verified: bool)
    requires
        ed25519_key_decodes(key@),
        ed25519_signature_parses(signature@),
    ensures
        verified == ed25519_verifies(key@, message@, signature@),
{
    let key = PublicKey::from_bytes(key).unwrap();
    let signature = Signature::from_bytes(signature).unwrap();
    key.verify(message, &signature).is_ok()
}

/// What became of checking a signature.
#[derive(Debug, Copy, Clone, PartialEq, Eq, Structural)]
pub enum SignatureCheck {
    /// The bytes of the signature are none.
    MalformedSignature,
    /// The bytes of the key are none.
    MalformedKey,
    /// The signature is not one of the message by the owner of the key.
    Mismatch,
    /// The owner of the key signed the message.
    Match,
}

/// The outcome of checking `signature` on `message` against `key`: the signature is looked at
/// first, then the key, then whether they fit.
pub open spec fn checked_signature(
    key: Seq<u8>,
    message: Seq<u8>,
    signature: Seq<u8>,
) -> SignatureCheck {
    if !ed25519_signature_parses(signature) {
        SignatureCheck::MalformedSignature
    } else if !ed25519_key_decodes(key) {
        SignatureCheck::MalformedKey
    } else if !ed25519_verifies(key, message, signature) {
        SignatureCheck::Mismatch
    } else {
        SignatureCheck::Match
    }
}

/// Checks `signature` on `message` against `key`.
pub fn check_signature(
    key: &[u8; RODT_ID_PK_SZ],
    message: &[u8],
    signature: &[u8; RODT_ID_SIGNATURE_SZ],
) -> (check: SignatureCheck)
    ensures
        check == checked_signature(key@, message@, signature@),
{
    if !signature_parses(signature) {
        SignatureCheck::MalformedSignature
    } else if !key_decodes(key) {
        SignatureCheck::MalformedKey
    } else if !verifies(key, message, signature) {
        SignatureCheck::Mismatch
    } else {
        SignatureCheck::Match
    }
}

impl SignatureCheck {
    /// The error that a failed check of a peer's signature is reported as.
    pub open spec fn error(self) -> Option<WireGuardError> {
        match self {
            SignatureCheck::MalformedSignature => Some(
                WireGuardError::PeerEd25519SignatureParsingFailure,
            ),
            SignatureCheck::MalformedKey => Some(WireGuardError::PeerEd25519PublicKeyParsingFailure),
            SignatureCheck::Mismatch => Some(
                WireGuardError::PeerEd25519SignatureVerificationFailure,
            ),
            SignatureCheck::Match => None,
        }
    }

    /// What a check of a peer's signature means for the peer.
    pub fn verdict(self) -> (verdict: Result<(), WireGuardError>)
        ensures
            match self.error() {
                None => verdict == Ok::<(), WireGuardError>(()),
                Some(e) => verdict == Err::<(), WireGuardError>(e),
            },
    {
        match self {
            SignatureCheck::MalformedSignature => Err(
                WireGuardError::PeerEd25519SignatureParsingFailure,
            ),
            SignatureCheck::MalformedKey => Err(WireGuardError::PeerEd25519PublicKeyParsingFailure),
            SignatureCheck::Mismatch => Err(
                WireGuardError::PeerEd25519SignatureVerificationFailure,
            ),
            SignatureCheck::Match => Ok(()),
        }
    }
}

} // verus!
