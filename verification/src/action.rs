//! What the tunnel hands back to its driver.
//!
//! The tunnel decides and keeps the books. Encryption, the handshake, rate limiting and looking up
//! tokens are done by engines outside: where one of them has to work before the tunnel can go on,
//! the tunnel returns an [`Action`], and the driver calls the tunnel again with what came of it.

use vstd::prelude::*;

use crate::encoding::view_of;
use crate::errors::WireGuardError;
use crate::ip::{is_ip_packet, source_of, stated_length, IpAddrView, IPV4_IP_SZ, IPV6_IP_SZ};
use crate::packet::{
    HandshakeInit, HandshakeResponse, Packet, PacketCookieReply, PacketData, RODT_ID_SIGNATURE_SZ,
    RODT_ID_SZ,
};
use crate::rodt::{
    owner_signed, rodt_id_chars, token_request_chars, Rodt, LOOKUP_FAILURE_EXIT_CODE,
};
use crate::signature::SignatureCheck;
use crate::state::{slot_of, HandshakeReply, Session, TimerName, TunnState};

verus! {

/// What an operation of the tunnel comes to.
#[derive(Debug)]
pub enum TunnResult {
    Done,
    Error(WireGuardError),
    WriteToNetwork(Vec<u8>),
    WriteToTunnelV4(Vec<u8>, [u8; IPV4_IP_SZ]),
    WriteToTunnelV6(Vec<u8>, [u8; IPV6_IP_SZ]),
}

impl From<WireGuardError> for TunnResult {
    fn from(err: WireGuardError) -> (result: TunnResult) {
        TunnResult::Error(err)
    }
}

impl vstd::std_specs::convert::FromSpecImpl<WireGuardError> for TunnResult {
    open spec fn obeys_from_spec() -> bool {
        true
    }

    open spec fn from_spec(err: WireGuardError) -> TunnResult {
        TunnResult::Error(err)
    }
}

impl TunnResult {
    /// Whether the result comes of delivering the decrypted `packet` in the state `before` and leaves
    /// the state `after`: an IP packet goes to the tunnel interface, cut to the length that its
    /// header gives, with its source address; an empty one is a keepalive.
    pub open spec fn delivers(self, before: TunnState, packet: Seq<u8>, after: TunnState) -> bool {
        if packet.len() == 0 {
            self == TunnResult::Done && after == before
        } else if !is_ip_packet(packet) {
            self == TunnResult::Error(WireGuardError::InvalidPacket) && after == before
        } else {
            &&& after == before.received_data(stated_length(packet))
            &&& match source_of(packet)->0 {
                IpAddrView::V4(source) => {
                    &&& self matches TunnResult::WriteToTunnelV4(p, address)
                    &&& p@ == packet.take(stated_length(packet))
                    &&& address@ == source
                },
                IpAddrView::V6(source) => {
                    &&& self matches TunnResult::WriteToTunnelV6(p, address)
                    &&& p@ == packet.take(stated_length(packet))
                    &&& address@ == source
                },
            }
        }
    }
}

impl TunnResult {
    /// Whether the result comes of a data packet for the session with the index `index` that
    /// decrypting made `opened` of.
    pub open spec fn opens(
        self,
        before: TunnState,
        index: int,
        opened: Result<Vec<u8>, WireGuardError>,
        session_timers: Seq<u128>,
        after: TunnState,
    ) -> bool {
        match opened {
            Err(e) => self == TunnResult::Error(e) && after == before,
            Ok(packet) => self.delivers(
                before.with_current(index, session_timers).ticked(TimerName::TimeLastPacketReceived),
                packet@,
                after,
            ),
        }
    }

    /// Whether the result comes of an initiation that the handshake engine answered with `reply`.
    pub open spec fn initiates(
        self,
        before: TunnState,
        work: InitiationWork,
        reply: HandshakeReply<Vec<u8>>,
        after: TunnState,
    ) -> bool {
        let answered = before.with_handshake(reply.status);
        match (reply.outcome, work.requeue) {
            (Ok(packet), _) => {
                &&& self == TunnResult::WriteToNetwork(packet)
                &&& after == answered.initiated(work.starting_new_handshake)
            },
            (Err(_), Some(packet)) => self == TunnResult::Done && after == answered.requeued(packet@),
            (Err(e), None) => self == TunnResult::Error(e) && after == answered,
        }
    }

    /// Whether the result comes of the keepalive `packet` that answers a response.
    pub open spec fn keeps_alive(
        self,
        before: TunnState,
        local_index: int,
        packet: Vec<u8>,
        session_timers: Seq<u128>,
        after: TunnState,
    ) -> bool {
        &&& self == TunnResult::WriteToNetwork(packet)
        &&& after == before.with_current(local_index, session_timers)
    }

    /// Whether the result comes of a cookie that the handshake engine answered with `reply`.
    pub open spec fn takes_cookie(
        self,
        before: TunnState,
        reply: HandshakeReply<()>,
        after: TunnState,
    ) -> bool {
        let answered = before.with_handshake(reply.status);
        match reply.outcome {
            Err(e) => self == TunnResult::Error(e) && after == answered,
            Ok(_) => {
                &&& self == TunnResult::Done
                &&& after == answered.ticked(TimerName::TimeLastPacketReceived).ticked(
                    TimerName::TimeCookieReceived,
                )
            },
        }
    }
}

/// What the rate limiter makes of a datagram.
#[derive(Debug)]
pub enum PacketCheck<'a> {
    /// The datagram is this message, and may be processed.
    Accepted(Packet<'a>),
    /// The peer is to be sent this cookie instead.
    Cookie(Vec<u8>),
    Rejected(WireGuardError),
}

/// A peer's initiation that was consumed, while its token is looked up.
#[derive(Debug)]
pub struct PendingInitiation {
    pub rodt_id: [u8; RODT_ID_SZ],
    pub rodt_id_signature: [u8; RODT_ID_SIGNATURE_SZ],
    /// The response to the initiation.
    pub packet: Vec<u8>,
    pub session: Session,
}

/// A peer's response that was consumed, while its token is looked up.
#[derive(Debug, Copy, Clone)]
pub struct PendingResponse {
    pub rodt_id: [u8; RODT_ID_SZ],
    pub rodt_id_signature: [u8; RODT_ID_SIGNATURE_SZ],
    pub session: Session,
}

/// An initiation that is being written.
#[derive(Debug)]
pub struct InitiationWork {
    /// Whether no handshake was in progress before.
    pub starting_new_handshake: bool,
    /// The packet that goes back to the front of the queue where writing the initiation fails. For
    /// lack of a session it also waits at the end of the queue by then.
    pub requeue: Option<Vec<u8>>,
}

/// What the driver has to do next.
#[derive(Debug)]
pub enum Action<'a> {
    /// The operation is over and comes to this.
    Return(TunnResult),
    /// End the process with this code.
    Exit(i32),
    /// Have the rate limiter check the datagram; then `packet_checked`.
    CheckPacket,
    /// Have the handshake engine consume the initiation; then
    /// `process_received_handshake_initiation`.
    ConsumeInitiation(HandshakeInit<'a>),
    /// Have the handshake engine consume the response; then `process_received_handshake_response`.
    ConsumeResponse(HandshakeResponse<'a>),
    /// Have the handshake engine receive the cookie; then `consume_cookie_reply`.
    ReceiveCookieReply(PacketCookieReply<'a>),
    /// Have the session in the slot decrypt the packet; then `data_opened`.
    OpenData { slot: usize, packet: PacketData<'a> },
    /// Have the session in the slot encrypt the payload, and write the packet to the network.
    SealData { slot: usize, payload: Vec<u8> },
    /// Have the handshake engine write an initiation; then `handshake_initiation_produced`.
    ProduceInitiation(InitiationWork),
    /// Look a token up by the request; then `initiator_token_found`.
    FindInitiatorToken { request: String, pending: PendingInitiation },
    /// Look a token up by the request; then `initiator_token_fetched`.
    FetchInitiatorToken { request: String, pending: PendingInitiation },
    /// Look a token up by the request; then `responder_token_fetched`.
    FetchResponderToken { request: String, response: PendingResponse },
    /// Have the session in the slot encrypt an empty packet; then `keepalive_produced`.
    SealKeepalive { slot: usize, local_index: usize },
}

impl<'a> Action<'a> {
    /// Whether the action comes of asking for a handshake initiation in the state `before` and
    /// leaves the state `after`. A handshake that is in progress is left alone unless `force_resend`.
    pub open spec fn requests_initiation(
        self,
        before: TunnState,
        force_resend: bool,
        requeue: Option<Seq<u8>>,
        after: TunnState,
    ) -> bool {
        if before.handshake.in_progress && !force_resend {
            self == Action::Return(TunnResult::Done) && after == before
        } else {
            &&& after == before.initiating()
            &&& self matches Action::ProduceInitiation(work)
            &&& work.starting_new_handshake == !before.handshake.in_progress
            &&& view_of(work.requeue) == requeue
        }
    }

    /// Whether the action comes of encapsulating `src` in the state `before` and leaves the state
    /// `after`: the session in use encrypts it, and where there is none it waits for one.
    pub open spec fn encapsulates(
        self,
        before: TunnState,
        src: Seq<u8>,
        requeue: Option<Seq<u8>>,
        after: TunnState,
    ) -> bool {
        if before.current_session() is Some {
            &&& after == before.sent(src)
            &&& self matches Action::SealData { slot, payload }
            &&& slot == slot_of(before.current)
            &&& payload@ == src
        } else {
            self.requests_initiation(before.queued(src), false, requeue, after)
        }
    }

    /// Whether the action comes of sending what waits in the state `before` and leaves the state
    /// `after`.
    pub open spec fn sends_queued(self, before: TunnState, after: TunnState) -> bool {
        if before.queue.len() == 0 {
            self == Action::Return(TunnResult::Done) && after == before
        } else {
            self.encapsulates(before.dequeued(), before.queue[0], Some(before.queue[0]), after)
        }
    }

    /// Whether the action comes of processing `packet` in the state `before`, which stays.
    pub open spec fn consumes(self, before: TunnState, packet: Packet<'a>) -> bool {
        match packet {
            Packet::HandshakeInit(p) => self == Action::ConsumeInitiation(p),
            Packet::HandshakeResponse(p) => self == Action::ConsumeResponse(p),
            Packet::PacketCookieReply(p) => self == Action::ReceiveCookieReply(p),
            Packet::PacketData(p) => if before.session_at(p.receiver_session_index as int) is Some {
                self == (Action::OpenData {
                    slot: slot_of(p.receiver_session_index as int) as usize,
                    packet: p,
                })
            } else {
                self == Action::Return(TunnResult::Error(WireGuardError::NoCurrentSession))
            },
        }
    }

    /// Whether the action comes of the datagram `datagram`: an empty one asks for what waits.
    pub open spec fn decapsulates(
        self,
        before: TunnState,
        datagram: Seq<u8>,
        after: TunnState,
    ) -> bool {
        if datagram.len() == 0 {
            self.sends_queued(before, after)
        } else {
            self == Action::CheckPacket && after == before
        }
    }

    /// Whether the action comes of a datagram that the rate limiter made `check` of, in the state
    /// `before`, which stays.
    pub open spec fn follows_check(self, before: TunnState, check: PacketCheck<'a>) -> bool {
        match check {
            PacketCheck::Accepted(packet) => self.consumes(before, packet),
            PacketCheck::Cookie(cookie) => self == Action::Return(TunnResult::WriteToNetwork(cookie)),
            PacketCheck::Rejected(e) => self == Action::Return(TunnResult::Error(e)),
        }
    }

    /// Whether the action comes of the peer's initiation `init` that the handshake engine answered
    /// with `reply`: the token that the peer names is looked up.
    pub open spec fn answers_initiation(
        self,
        before: TunnState,
        init: HandshakeInit<'_>,
        reply: HandshakeReply<(Vec<u8>, Session)>,
        after: TunnState,
    ) -> bool {
        &&& after == before.with_handshake(reply.status)
        &&& match reply.outcome {
            Err(e) => self == Action::Return(TunnResult::Error(e)),
            Ok((packet, session)) => {
                &&& self matches Action::FindInitiatorToken { request, pending }
                &&& request@ == token_request_chars(rodt_id_chars(init.rodt_id@))
                &&& pending.rodt_id == *init.rodt_id
                &&& pending.rodt_id_signature == *init.rodt_id_signature
                &&& pending.packet == packet
                &&& pending.session == session
            },
        }
    }

    /// Whether the action comes of looking up the token of `pending` with the outcome `found`.
    pub open spec fn fetches_initiator(self, pending: PendingInitiation, found: Option<Rodt>) -> bool {
        match found {
            None => self == Action::Exit(LOOKUP_FAILURE_EXIT_CODE),
            Some(_) => {
                &&& self matches Action::FetchInitiatorToken { request, pending: fetching }
                &&& request@ == token_request_chars(rodt_id_chars(pending.rodt_id@))
                &&& fetching == pending
            },
        }
    }

    /// Whether the action comes of fetching the token of `pending` with the outcome `fetched`: the
    /// response goes out, and the session is kept, where the owner of the token signed its
    /// identifier.
    pub open spec fn judges_initiator(
        self,
        before: TunnState,
        pending: PendingInitiation,
        fetched: Option<Rodt>,
        after: TunnState,
    ) -> bool {
        match fetched {
            None => self == Action::Exit(LOOKUP_FAILURE_EXIT_CODE) && after == before,
            Some(rodt) => if owner_signed(
                rodt.owner_id@,
                pending.rodt_id@,
                pending.rodt_id_signature@,
            ) == SignatureCheck::Match {
                &&& self == Action::Return(TunnResult::WriteToNetwork(pending.packet))
                &&& after == before.responded(pending.session)
            } else {
                &&& self == Action::Return(
                    TunnResult::Error(WireGuardError::PeerEd25519SignatureVerificationFailure),
                )
                &&& after == before
            },
        }
    }

    /// Whether the action comes of the peer's response `response` that the handshake engine answered
    /// with `reply`: the token that the peer names is looked up.
    pub open spec fn answers_response(
        self,
        before: TunnState,
        response: HandshakeResponse<'_>,
        reply: HandshakeReply<Session>,
        after: TunnState,
    ) -> bool {
        &&& after == before.with_handshake(reply.status)
        &&& match reply.outcome {
            Err(e) => self == Action::Return(TunnResult::Error(e)),
            Ok(session) => {
                &&& self matches Action::FetchResponderToken { request, response: pending }
                &&& request@ == token_request_chars(rodt_id_chars(response.rodt_id@))
                &&& pending.rodt_id == *response.rodt_id
                &&& pending.rodt_id_signature == *response.rodt_id_signature
                &&& pending.session == session
            },
        }
    }

    /// Whether the action comes of fetching the token of `response` with the outcome `fetched`: the
    /// session is kept, and a keepalive is to go out through it, where the owner of the token signed
    /// its identifier.
    pub open spec fn judges_responder(
        self,
        before: TunnState,
        response: PendingResponse,
        fetched: Option<Rodt>,
        after: TunnState,
    ) -> bool {
        match fetched {
            None => self == Action::Exit(LOOKUP_FAILURE_EXIT_CODE) && after == before,
            Some(rodt) => if owner_signed(
                rodt.owner_id@,
                response.rodt_id@,
                response.rodt_id_signature@,
            ) == SignatureCheck::Match {
                &&& self == (Action::SealKeepalive {
                    slot: slot_of(response.session.local_index as int) as usize,
                    local_index: response.session.local_index,
                })
                &&& after == before.connected(response.session)
            } else {
                &&& self == Action::Return(
                    TunnResult::Error(WireGuardError::PeerEd25519SignatureVerificationFailure),
                )
                &&& after == before
            },
        }
    }
}

} // verus!
