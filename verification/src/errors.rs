//! The error type that the tunnel reports.

use vstd::prelude::*;

verus! {

/// Why a packet, a handshake or a peer was refused.
#[derive(Debug, Copy, Clone, PartialEq, Eq, Structural)]
pub enum WireGuardError {
    /// The bytes are no message of the protocol, or no IP packet.
    InvalidPacket,
    /// No session stands in the slot that the message names.
    NoCurrentSession,
    /// The peer's signature of its token identifier does not verify.
    PeerEd25519SignatureVerificationFailure,
    /// The owner of the peer's token is no Ed25519 public key.
    PeerEd25519PublicKeyParsingFailure,
    /// The peer's signature is no Ed25519 signature.
    PeerEd25519SignatureParsingFailure,
    /// The handshake, session or rate limiter engine refused, with its own number for the reason.
    Engine(u32),
}

} // verus!
