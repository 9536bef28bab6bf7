//! How the tunnel carries packets: what each event leads to.

use vstd::prelude::*;
use vstd::utf8::valid_utf8;

use crate::action::{
    Action, InitiationWork, PacketCheck, PendingInitiation, PendingResponse, TunnResult,
};
use crate::errors::WireGuardError;
use crate::ip::{is_ip_packet, source_and_length, stated_length, IpAddr};
use crate::packet::{HandshakeInit, HandshakeResponse, Packet, PacketData};
use crate::rodt::{
    is_owner_key, rodt_id_request, verify_and_fetch_rodt_id, Rodt, VerificationFailure,
    LOOKUP_FAILURE_EXIT_CODE,
};
use crate::state::{HandshakeReply, Session, TimerName, N_SESSIONS};
use crate::tunn::Tunn;

verus! {

broadcast use vstd::slice::axiom_spec_len;

impl Tunn {
    /// Encapsulate a single packet from the tunnel interface.
    pub fn encapsulate(&mut self, src: &[u8]) -> (action: Action<'static>)
        requires
            old(self)@.wf(),
            old(self)@.current_session() is Some ==> old(self)@.tx_bytes + src@.len() <= usize::MAX,
        ensures
            action.encapsulates(old(self)@, src@, None, final(self)@),
            final(self)@.wf(),
    {
        if self.has_current_session() {
            let slot: usize = self.current_slot();
            // Send the packet using an established session
            self.timer_tick(TimerName::TimeLastPacketSent);
            // Exclude Keepalive packets from timer update.
            if src.len() > 0 {
                self.timer_tick(TimerName::TimeLastDataPacketSent);
            }
            self.count_sent(src.len());
            return Action::SealData { slot, payload: vstd::slice::slice_to_vec(src) };
        }
        // If there is no session, queue the packet for future retry
        self.queue_packet(src);
        // Initiate a new handshake if none is in progress
        self.produce_handshake_initiation(false)
    }

    /// Receives a UDP datagram from the network.
    ///
    /// If the operation comes to [`TunnResult::WriteToNetwork`], should repeat the call with empty
    /// datagram, until it comes to [`TunnResult::Done`]. If batch processing packets, it is OK to
    /// defer until last packet is processed.
    pub fn decapsulate(&mut self, datagram: &[u8]) -> (action: Action<'static>)
        requires
            old(self)@.wf(),
            datagram@.len() == 0 && old(self)@.queue.len() > 0 && old(self)@.current_session() is Some
                ==> old(self)@.tx_bytes + old(self)@.queue[0].len() <= usize::MAX,
        ensures
            action.decapsulates(old(self)@, datagram@, final(self)@),
            final(self)@.wf(),
    {
        if datagram.len() == 0 {
            // Indicates a repeated call
            return self.send_queued_packet();
        }
        Action::CheckPacket
    }

    /// Goes on with a datagram that the rate limiter checked.
    pub fn packet_checked<'a>(&self, check: PacketCheck<'a>) -> (action: Action<'a>)
        requires
            self@.wf(),
        ensures
            action.follows_check(self@, check),
    {
        match check {
            PacketCheck::Accepted(packet) => self.consume_verified_packet(packet),
            PacketCheck::Cookie(cookie) => Action::Return(TunnResult::WriteToNetwork(cookie)),
            PacketCheck::Rejected(e) => Action::Return(TunnResult::Error(e)),
        }
    }

    /// Goes on with a message that may be processed.
    pub fn consume_verified_packet<'a>(&self, packet: Packet<'a>) -> (action: Action<'a>)
        requires
            self@.wf(),
        ensures
            action.consumes(self@, packet),
    {
        match packet {
            Packet::HandshakeInit(p) => Action::ConsumeInitiation(p),
            Packet::HandshakeResponse(p) => Action::ConsumeResponse(p),
            Packet::PacketCookieReply(p) => Action::ReceiveCookieReply(p),
            Packet::PacketData(p) => self.consume_data(p),
        }
    }

    /// Finds the session that decrypts a data packet.
    pub fn consume_data<'a>(&self, packet: PacketData<'a>) -> (action: Action<'a>)
        requires
            self@.wf(),
        ensures
            action.consumes(self@, Packet::PacketData(packet)),
    {
        let slot: usize = packet.receiver_session_index as usize % N_SESSIONS;
        // Get the (probably) right session
        if self.has_session(slot) {
            Action::OpenData { slot, packet }
        } else {
            Action::Return(TunnResult::from(WireGuardError::NoCurrentSession))
        }
    }

    /// Goes on with a data packet that names the session index `receiver_session_index`, where
    /// decrypting it led to `opened`. The session timers say when the session in each slot was
    /// established.
    pub fn data_opened(
        &mut self,
        receiver_session_index: u32,
        opened: Result<Vec<u8>, WireGuardError>,
        session_timers: &[u128; N_SESSIONS],
    ) -> (result: TunnResult)
        requires
            old(self)@.wf(),
            opened matches Ok(packet) ==> is_ip_packet(packet@) ==> old(self)@.rx_bytes
                + stated_length(packet@) <= usize::MAX,
        ensures
            result.opens(
                old(self)@,
                receiver_session_index as int,
                opened,
                session_timers@,
                final(self)@,
            ),
            final(self)@.wf(),
    {
        match opened {
            Err(e) => TunnResult::from(e),
            Ok(packet) => {
                self.set_current_session(receiver_session_index as usize, session_timers);
                self.timer_tick(TimerName::TimeLastPacketReceived);
                self.validate_decapsulated_packet(packet)
            },
        }
    }

    /// Check if an IP packet is v4 or v6, truncate to the length indicated by the length field
    /// Returns the truncated packet and the source IP as TunnResult
    pub fn validate_decapsulated_packet(&mut self, packet: Vec<u8>) -> (result: TunnResult)
        requires
            old(self)@.wf(),
            is_ip_packet(packet@) ==> old(self)@.rx_bytes + stated_length(packet@) <= usize::MAX,
        ensures
            result.delivers(old(self)@, packet@, final(self)@),
            final(self)@.wf(),
    {
        if packet.len() == 0 {
            return TunnResult::Done;  // This is keepalive, and not an error
        }
        match source_and_length(packet.as_slice()) {
            None => TunnResult::Error(WireGuardError::InvalidPacket),
            Some((source, length)) => {
                self.timer_tick(TimerName::TimeLastDataPacketReceived);
                self.count_received(length);
                let mut packet = packet;
                packet.truncate(length);
                match source {
                    IpAddr::V4(addr) => TunnResult::WriteToTunnelV4(packet, addr),
                    IpAddr::V6(addr) => TunnResult::WriteToTunnelV6(packet, addr),
                }
            },
        }
    }

    /// Formats a new handshake initiation message. If force_resend is true will send a new handshake,
    /// even if a handshake is already in progress (for example when a handshake times out)
    pub fn produce_handshake_initiation(&mut self, force_resend: bool) -> (action: Action<'static>)
        requires
            old(self)@.wf(),
        ensures
            action.requests_initiation(old(self)@, force_resend, None, final(self)@),
            final(self)@.wf(),
    {
        if self.handshake_in_progress() && !force_resend {
            return Action::Return(TunnResult::Done);
        }
        if self.is_expired() {
            self.clear_timers();
        }
        Action::ProduceInitiation(
            InitiationWork {
                starting_new_handshake: !self.handshake_in_progress(),
                requeue: None,
            },
        )
    }

    /// Get a packet from the queue, and try to encapsulate it
    pub fn send_queued_packet(&mut self) -> (action: Action<'static>)
        requires
            old(self)@.wf(),
            old(self)@.queue.len() > 0 && old(self)@.current_session() is Some ==> old(self)@.tx_bytes
                + old(self)@.queue[0].len() <= usize::MAX,
        ensures
            action.sends_queued(old(self)@, final(self)@),
            final(self)@.wf(),
    {
        match self.dequeue_packet() {
            None => Action::Return(TunnResult::Done),
            Some(packet) => match self.encapsulate(packet.as_slice()) {
                // On error, return packet to the queue
                Action::ProduceInitiation(work) => Action::ProduceInitiation(
                    InitiationWork {
                        starting_new_handshake: work.starting_new_handshake,
                        requeue: Some(packet),
                    },
                ),
                action => action,
            },
        }
    }

    /// Goes on with a handshake initiation, where writing it led to `reply`.
    pub fn handshake_initiation_produced(
        &mut self,
        work: InitiationWork,
        reply: HandshakeReply<Vec<u8>>,
    ) -> (result: TunnResult)
        requires
            old(self)@.wf(),
        ensures
            result.initiates(old(self)@, work, reply, final(self)@),
            final(self)@.wf(),
    {
        self.set_handshake_status(reply.status);
        match reply.outcome {
            Ok(packet) => {
                if work.starting_new_handshake {
                    self.timer_tick(TimerName::TimeLastHandshakeStarted);
                }
                self.timer_tick(TimerName::TimeLastPacketSent);
                TunnResult::WriteToNetwork(packet)
            },
            Err(e) => match work.requeue {
                Some(packet) => {
                    self.requeue_packet(packet);
                    TunnResult::Done
                },
                None => TunnResult::Error(e),
            },
        }
    }

    /// Goes on with a peer's initiation, where consuming it led to `reply`: the token that the peer
    /// names is looked up.
    pub fn process_received_handshake_initiation(
        &mut self,
        peer_handshake_init: HandshakeInit<'_>,
        reply: HandshakeReply<(Vec<u8>, Session)>,
    ) -> (action: Action<'static>)
        requires
            old(self)@.wf(),
            reply.outcome is Ok ==> valid_utf8(peer_handshake_init.rodt_id@),
        ensures
            action.answers_initiation(old(self)@, peer_handshake_init, reply, final(self)@),
            final(self)@.wf(),
    {
        self.set_handshake_status(reply.status);
        match reply.outcome {
            Err(e) => Action::Return(TunnResult::from(e)),
            Ok((packet, session)) => Action::FindInitiatorToken {
                request: rodt_id_request(peer_handshake_init.rodt_id),
                pending: PendingInitiation {
                    rodt_id: *peer_handshake_init.rodt_id,
                    rodt_id_signature: *peer_handshake_init.rodt_id_signature,
                    packet,
                    session,
                },
            },
        }
    }

    /// Goes on with a peer's initiation whose token was looked up with the outcome `found`: the
    /// token is fetched again to check the peer's signature against it.
    pub fn initiator_token_found(pending: PendingInitiation, found: Option<Rodt>) -> (action: Action<
        'static,
    >)
        requires
            valid_utf8(pending.rodt_id@),
        ensures
            action.fetches_initiator(pending, found),
    {
        match found {
            None => Action::Exit(LOOKUP_FAILURE_EXIT_CODE),
            Some(_) => Action::FetchInitiatorToken {
                request: rodt_id_request(&pending.rodt_id),
                pending,
            },
        }
    }

    /// Goes on with a peer's initiation whose token was fetched with the outcome `fetched`: the
    /// response goes out, and the session is kept, where the owner of the token signed its
    /// identifier.
    pub fn initiator_token_fetched(
        &mut self,
        pending: PendingInitiation,
        fetched: Option<Rodt>,
    ) -> (action: Action<'static>)
        requires
            old(self)@.wf(),
            valid_utf8(pending.rodt_id@),
            fetched matches Some(rodt) ==> is_owner_key(rodt.owner_id@),
        ensures
            action.judges_initiator(old(self)@, pending, fetched, final(self)@),
            final(self)@.wf(),
    {
        match verify_and_fetch_rodt_id(pending.rodt_id, pending.rodt_id_signature, fetched) {
            Ok(_) => {
                self.store_session(pending.session);
                self.timer_tick(TimerName::TimeLastPacketReceived);
                self.timer_tick(TimerName::TimeLastPacketSent);
                // New session established, we are not the initiator
                self.timer_tick_session_established(false, pending.session.local_index);
                Action::Return(TunnResult::WriteToNetwork(pending.packet))
            },
            Err(VerificationFailure::Exit(code)) => Action::Exit(code),
            Err(VerificationFailure::Refused(_)) => Action::Return(
                TunnResult::from(WireGuardError::PeerEd25519SignatureVerificationFailure),
            ),
        }
    }

    /// Goes on with a peer's response, where consuming it led to `reply`: the token that the peer
    /// names is looked up.
    pub fn process_received_handshake_response(
        &mut self,
        peer_handshake_response: HandshakeResponse<'_>,
        reply: HandshakeReply<Session>,
    ) -> (action: Action<'static>)
        requires
            old(self)@.wf(),
            reply.outcome is Ok ==> valid_utf8(peer_handshake_response.rodt_id@),
        ensures
            action.answers_response(old(self)@, peer_handshake_response, reply, final(self)@),
            final(self)@.wf(),
    {
        self.set_handshake_status(reply.status);
        match reply.outcome {
            Err(e) => Action::Return(TunnResult::from(e)),
            Ok(session) => Action::FetchResponderToken {
                request: rodt_id_request(peer_handshake_response.rodt_id),
                response: PendingResponse {
                    rodt_id: *peer_handshake_response.rodt_id,
                    rodt_id_signature: *peer_handshake_response.rodt_id_signature,
                    session,
                },
            },
        }
    }

    /// Goes on with a peer's response whose token was fetched with the outcome `fetched`: the
    /// session is kept, and a keepalive goes out through it, where the owner of the token signed its
    /// identifier.
    pub fn responder_token_fetched(
        &mut self,
        response: PendingResponse,
        fetched: Option<Rodt>,
    ) -> (action: Action<'static>)
        requires
            old(self)@.wf(),
            valid_utf8(response.rodt_id@),
            fetched matches Some(rodt) ==> is_owner_key(rodt.owner_id@),
        ensures
            action.judges_responder(old(self)@, response, fetched, final(self)@),
            final(self)@.wf(),
    {
        match verify_and_fetch_rodt_id(response.rodt_id, response.rodt_id_signature, fetched) {
            Ok(_) => {
                // Store new session in ring buffer
                let local_index: usize = response.session.local_index;
                let slot: usize = local_index % N_SESSIONS;
                self.store_session(response.session);
                self.timer_tick(TimerName::TimeLastPacketReceived);
                // New session established, we are the initiator
                self.timer_tick_session_established(true, slot);
                Action::SealKeepalive { slot, local_index }
            },
            Err(VerificationFailure::Exit(code)) => Action::Exit(code),
            Err(VerificationFailure::Refused(_)) => Action::Return(
                TunnResult::from(WireGuardError::PeerEd25519SignatureVerificationFailure),
            ),
        }
    }

    /// Goes on with the keepalive that answers a peer's response: the new session is offered for
    /// use. The session timers are those after the timers were told what they had not been told.
    pub fn keepalive_produced(
        &mut self,
        local_index: usize,
        keepalive_packet: Vec<u8>,
        session_timers: &[u128; N_SESSIONS],
    ) -> (result: TunnResult)
        requires
            old(self)@.wf(),
        ensures
            result.keeps_alive(
                old(self)@,
                local_index as int,
                keepalive_packet,
                session_timers@,
                final(self)@,
            ),
            final(self)@.wf(),
    {
        self.set_current_session(local_index, session_timers);
        // Send a keepalive as a response
        TunnResult::WriteToNetwork(keepalive_packet)
    }

    /// Goes on with a cookie reply, where handing it to the handshake engine led to `reply`.
    pub fn consume_cookie_reply(&mut self, reply: HandshakeReply<()>) -> (result: TunnResult)
        requires
            old(self)@.wf(),
        ensures
            result.takes_cookie(old(self)@, reply, final(self)@),
            final(self)@.wf(),
    {
        self.set_handshake_status(reply.status);
        match reply.outcome {
            Err(e) => TunnResult::from(e),
            Ok(()) => {
                self.timer_tick(TimerName::TimeLastPacketReceived);
                self.timer_tick(TimerName::TimeCookieReceived);
                TunnResult::Done
            },
        }
    }
}

} // verus!
