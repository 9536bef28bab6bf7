//! The session logic of a point-to-point WireGuard tunnel whose peers identify
//! themselves by signed tokens.

pub mod action;
pub mod bytes;
pub mod encoding;
pub mod errors;
pub mod exchange;
pub mod flow;
pub mod ip;
pub mod laws;
pub mod packet;
pub mod reading_laws;
pub mod rodt;
pub mod run;
pub mod serialization;
pub mod signature;
pub mod state;
pub mod token_laws;
pub mod tunn;
pub mod tunnel_laws;
pub mod validity;
pub mod x25519;

pub use action::{
    Action, InitiationWork, PacketCheck, PendingInitiation, PendingResponse, TunnResult,
};
pub use errors::WireGuardError;
pub use ip::{source_and_length, IpAddr};
pub use packet::{
    HandshakeInit, HandshakeResponse, Packet, PacketCookieReply, PacketData, COOKIE_REPLY,
    COOKIE_REPLY_SZ, DATA, DATA_OVERHEAD_SZ, HANDSHAKE_INIT_CONSTANT, HANDSHAKE_INIT_SZ,
    HANDSHAKE_RESP, HANDSHAKE_RESP_SZ, RODT_ID_PK_SZ, RODT_ID_SIGNATURE_SZ, RODT_ID_SZ,
};
pub use rodt::{
    owner_public_key, rodt_id_request, rodt_id_text, signature_from_decoded, token_request,
    try_verify_rodt_match, verify_and_fetch_rodt_id, verify_rodt_match, Rodt, VerificationFailure,
    LOOKUP_FAILURE_EXIT_CODE, TOKEN_METHOD,
};
pub use serialization::{keybytes_to_hex_string, KeyBytes};
pub use signature::{check_signature, SignatureCheck};
pub use state::{
    HandshakeConfig, HandshakeReply, HandshakeStatus, RateLimiter, Session, TimerEvent, TimerName,
    MAX_QUEUE_DEPTH, N_SESSIONS, PEER_HANDSHAKE_RATE_LIMIT,
};
pub use tunn::Tunn;
pub use validity::{parse_i64, verify_rodt_live_and_active, within_validity};
