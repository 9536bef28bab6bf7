//! The four messages of the protocol and how a datagram is read as one of them.

use vstd::prelude::*;
use vstd::slice::slice_subrange;

use crate::bytes::{array_at, le_int, read_u32_le, read_u64_le};
use crate::errors::WireGuardError;
use crate::tunn::Tunn;

verus! {

broadcast use vstd::slice::axiom_spec_len;

pub const HANDSHAKE_INIT_CONSTANT: u32 = 1;

pub const HANDSHAKE_RESP: u32 = 2;

pub const COOKIE_REPLY: u32 = 3;

pub const DATA: u32 = 4;

/// Length of the identifier field of a token, which ends in at least one zero byte.
pub const RODT_ID_SZ: usize = 128;

/// Length of an Ed25519 signature.
pub const RODT_ID_SIGNATURE_SZ: usize = 64;

/// Length of an Ed25519 public key.
pub const RODT_ID_PK_SZ: usize = 32;

/// A handshake initiation: the 148 bytes of WireGuard's, and a signed token identifier.
pub const HANDSHAKE_INIT_SZ: usize = 148 + RODT_ID_SZ + RODT_ID_SIGNATURE_SZ;

/// A handshake response: the 92 bytes of WireGuard's, and a signed token identifier.
pub const HANDSHAKE_RESP_SZ: usize = 92 + RODT_ID_SZ + RODT_ID_SIGNATURE_SZ;

pub const COOKIE_REPLY_SZ: usize = 64;

/// What a data message adds to the packet in it; also the least length of one.
pub const DATA_OVERHEAD_SZ: usize = 32;

#[derive(Debug, Copy, Clone)]
pub struct HandshakeInit<'a> {
    pub sender_session_index: u32,
    pub unencrypted_ephemeral: &'a [u8; 32],
    pub encrypted_static: &'a [u8],
    pub encrypted_timestamp: &'a [u8],
    pub rodt_id: &'a [u8; RODT_ID_SZ],
    pub rodt_id_signature: &'a [u8; RODT_ID_SIGNATURE_SZ],
}

#[derive(Debug, Copy, Clone)]
pub struct HandshakeResponse<'a> {
    pub sender_session_index: u32,
    pub receiver_session_index: u32,
    pub unencrypted_ephemeral: &'a [u8; 32],
    pub encrypted_nothing: &'a [u8],
    pub rodt_id: &'a [u8; RODT_ID_SZ],
    pub rodt_id_signature: &'a [u8; RODT_ID_SIGNATURE_SZ],
}

#[derive(Debug, Copy, Clone)]
pub struct PacketCookieReply<'a> {
    pub receiver_session_index: u32,
    pub nonce: &'a [u8],
    pub encrypted_cookie: &'a [u8],
}

#[derive(Debug, Copy, Clone)]
pub struct PacketData<'a> {
    pub receiver_session_index: u32,
    pub counter: u64,
    pub encrypted_encapsulated_packet: &'a [u8],
}

/// Describes a packet from network
#[derive(Debug, Copy, Clone)]
pub enum Packet<'a> {
    HandshakeInit(HandshakeInit<'a>),
    HandshakeResponse(HandshakeResponse<'a>),
    PacketCookieReply(PacketCookieReply<'a>),
    PacketData(PacketData<'a>),
}

/// What a [`Packet`] holds.
pub ghost enum PacketView {
    HandshakeInit {
        sender_session_index: int,
        unencrypted_ephemeral: Seq<u8>,
        encrypted_static: Seq<u8>,
        encrypted_timestamp: Seq<u8>,
        rodt_id: Seq<u8>,
        rodt_id_signature: Seq<u8>,
    },
    HandshakeResponse {
        sender_session_index: int,
        receiver_session_index: int,
        unencrypted_ephemeral: Seq<u8>,
        encrypted_nothing: Seq<u8>,
        rodt_id: Seq<u8>,
        rodt_id_signature: Seq<u8>,
    },
    PacketCookieReply { receiver_session_index: int, nonce: Seq<u8>, encrypted_cookie: Seq<u8> },
    PacketData { receiver_session_index: int, counter: int, encrypted_encapsulated_packet: Seq<u8> },
}

impl<'a> View for Packet<'a> {
    type V = PacketView;

    open spec fn view(&self) -> PacketView {
        match *self {
            Packet::HandshakeInit(p) => PacketView::HandshakeInit {
                sender_session_index: p.sender_session_index as int,
                unencrypted_ephemeral: p.unencrypted_ephemeral@,
                encrypted_static: p.encrypted_static@,
                encrypted_timestamp: p.encrypted_timestamp@,
                rodt_id: p.rodt_id@,
                rodt_id_signature: p.rodt_id_signature@,
            },
            Packet::HandshakeResponse(p) => PacketView::HandshakeResponse {
                sender_session_index: p.sender_session_index as int,
                receiver_session_index: p.receiver_session_index as int,
                unencrypted_ephemeral: p.unencrypted_ephemeral@,
                encrypted_nothing: p.encrypted_nothing@,
                rodt_id: p.rodt_id@,
                rodt_id_signature: p.rodt_id_signature@,
            },
            Packet::PacketCookieReply(p) => PacketView::PacketCookieReply {
                receiver_session_index: p.receiver_session_index as int,
                nonce: p.nonce@,
                encrypted_cookie: p.encrypted_cookie@,
            },
            Packet::PacketData(p) => PacketView::PacketData {
                receiver_session_index: p.receiver_session_index as int,
                counter: p.counter as int,
                encrypted_encapsulated_packet: p.encrypted_encapsulated_packet@,
            },
        }
    }
}

/// The message that the datagram `src` is, if it is one: the four bytes of the type, whose
/// upper three are reserved and zero, and the length decide which.
pub open spec fn packet_of(src: Seq<u8>) -> Option<PacketView> {
    let message_type = le_int(src.subrange(0, 4));
    if src.len() < 4 {
        None
    } else if message_type == HANDSHAKE_INIT_CONSTANT && src.len() == HANDSHAKE_INIT_SZ {
        Some(
            PacketView::HandshakeInit {
                sender_session_index: le_int(src.subrange(4, 8)),
                unencrypted_ephemeral: src.subrange(8, 40),
                encrypted_static: src.subrange(40, 88),
                encrypted_timestamp: src.subrange(88, 116),
                rodt_id: src.subrange(116, 244),
                rodt_id_signature: src.subrange(244, 308),
            },
        )
    } else if message_type == HANDSHAKE_RESP && src.len() == HANDSHAKE_RESP_SZ {
        Some(
            PacketView::HandshakeResponse {
                sender_session_index: le_int(src.subrange(4, 8)),
                receiver_session_index: le_int(src.subrange(8, 12)),
                unencrypted_ephemeral: src.subrange(12, 44),
                encrypted_nothing: src.subrange(44, 60),
                rodt_id: src.subrange(60, 188),
                rodt_id_signature: src.subrange(188, 252),
            },
        )
    } else if message_type == COOKIE_REPLY && src.len() == COOKIE_REPLY_SZ {
        Some(
            PacketView::PacketCookieReply {
                receiver_session_index: le_int(src.subrange(4, 8)),
                nonce: src.subrange(8, 32),
                encrypted_cookie: src.subrange(32, 64),
            },
        )
    } else if message_type == DATA && src.len() >= DATA_OVERHEAD_SZ {
        Some(
            PacketView::PacketData {
                receiver_session_index: le_int(src.subrange(4, 8)),
                counter: le_int(src.subrange(8, 16)),
                encrypted_encapsulated_packet: src.skip(16),
            },
        )
    } else {
        None
    }
}

impl Tunn {
    /// Reads a datagram as one of the four messages.
    pub fn consume_incoming_packet(src: &[u8]) -> (packet: Result<Packet<'_>, WireGuardError>)
        ensures
            match packet {
                Ok(p) => packet_of(src@) == Some(p@),
                Err(e) => e == WireGuardError::InvalidPacket && packet_of(src@) is None,
            },
    {
        let len: usize = src.len();
        if len < 4 {
            return Err(WireGuardError::InvalidPacket);
        }
        // Checks the type, as well as the reserved zero fields
        let packet_type: u32 = read_u32_le(src, 0);
        if packet_type == HANDSHAKE_INIT_CONSTANT && len == HANDSHAKE_INIT_SZ {
            Ok(
                Packet::HandshakeInit(
                    HandshakeInit {
                        sender_session_index: read_u32_le(src, 4),
                        unencrypted_ephemeral: array_at::<32>(src, 8),
                        encrypted_static: slice_subrange(src, 40, 88),
                        encrypted_timestamp: slice_subrange(src, 88, 116),
                        rodt_id: array_at::<RODT_ID_SZ>(src, 116),
                        rodt_id_signature: array_at::<RODT_ID_SIGNATURE_SZ>(src, 244),
                    },
                ),
            )
        } else if packet_type == HANDSHAKE_RESP && len == HANDSHAKE_RESP_SZ {
            Ok(
                Packet::HandshakeResponse(
                    HandshakeResponse {
                        sender_session_index: read_u32_le(src, 4),
                        receiver_session_index: read_u32_le(src, 8),
                        unencrypted_ephemeral: array_at::<32>(src, 12),
                        encrypted_nothing: slice_subrange(src, 44, 60),
                        rodt_id: array_at::<RODT_ID_SZ>(src, 60),
                        rodt_id_signature: array_at::<RODT_ID_SIGNATURE_SZ>(src, 188),
                    },
                ),
            )
        } else if packet_type == COOKIE_REPLY && len == COOKIE_REPLY_SZ {
            Ok(
                Packet::PacketCookieReply(
                    PacketCookieReply {
                        receiver_session_index: read_u32_le(src, 4),
                        nonce: slice_subrange(src, 8, 32),
                        encrypted_cookie: slice_subrange(src, 32, 64),
                    },
                ),
            )
        } else if packet_type == DATA && len >= DATA_OVERHEAD_SZ {
            Ok(
                Packet::PacketData(
                    PacketData {
                        receiver_session_index: read_u32_le(src, 4),
                        counter: read_u64_le(src, 8),
                        encrypted_encapsulated_packet: slice_subrange(src, 16, len),
                    },
                ),
            )
        } else {
            Err(WireGuardError::InvalidPacket)
        }
    }
}

} // verus!
