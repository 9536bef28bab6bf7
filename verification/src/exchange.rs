//! The messages that two tunnels exchange to set up a session and to carry packets.
//!
//! The rate limiters, the handshake engines, the sessions and the look-ups are not the tunnel's:
//! what they answer stands in the values here.

use vstd::prelude::*;

use crate::action::{Action, PacketCheck, TunnResult};
use crate::bytes::le_int;
use crate::errors::WireGuardError;
use crate::ip::{has_ipv4_header, is_ip_packet, stated_length};
use crate::packet::{
    packet_of, Packet, PacketData, PacketView, DATA, DATA_OVERHEAD_SZ, HANDSHAKE_INIT_CONSTANT,
    HANDSHAKE_INIT_SZ, HANDSHAKE_RESP, HANDSHAKE_RESP_SZ,
};
use crate::rodt::{owner_signed, rodt_id_chars, token_request_chars, Rodt};
use crate::signature::SignatureCheck;
use crate::state::{slot_of, HandshakeReply, HandshakeStatus, Session, TunnState};

verus! {

/// A tunnel asks for a handshake, by force where one is in progress, and the engine writes the
/// initiation `packet`.
pub ghost struct InitiationSent {
    pub before: TunnState,
    pub force_resend: bool,
    pub request: Action<'static>,
    pub requested: TunnState,
    pub packet: Vec<u8>,
    pub status: HandshakeStatus,
    pub result: TunnResult,
    pub after: TunnState,
}

impl InitiationSent {
    /// Whether each step is what the tunnel does.
    pub open spec fn happens(self) -> bool {
        &&& self.before.wf()
        &&& self.before.handshake.in_progress ==> self.force_resend
        &&& self.request.requests_initiation(self.before, self.force_resend, None, self.requested)
        &&& self.request matches Action::ProduceInitiation(work) ==> self.result.initiates(
            self.requested,
            work,
            HandshakeReply { outcome: Ok(self.packet), status: self.status },
            self.after,
        )
    }
}

/// A tunnel receives the initiation `datagram`: the limiter and the engine accept it, the engine
/// writes `response` and makes `session`, and the two look-ups lead to `found` and `fetched`.
pub ghost struct InitiationReceived<'a> {
    pub datagram: Seq<u8>,
    pub message: Packet<'a>,
    pub before: TunnState,
    pub check: Action<'static>,
    pub checked: TunnState,
    pub consume: Action<'a>,
    pub response: Vec<u8>,
    pub session: Session,
    pub status: HandshakeStatus,
    pub find: Action<'static>,
    pub consumed: TunnState,
    pub found: Rodt,
    pub fetch: Action<'static>,
    pub fetched: Rodt,
    pub answer: Action<'static>,
    pub after: TunnState,
}

impl<'a> InitiationReceived<'a> {
    /// Whether each step is what the tunnel does.
    pub open spec fn happens(self) -> bool {
        &&& self.before.wf()
        &&& packet_of(self.datagram) == Some(self.message@)
        &&& self.message is HandshakeInit
        &&& self.check.decapsulates(self.before, self.datagram, self.checked)
        &&& self.consume.follows_check(self.checked, PacketCheck::Accepted(self.message))
        &&& self.consume matches Action::ConsumeInitiation(init) ==> self.find.answers_initiation(
            self.checked,
            init,
            HandshakeReply { outcome: Ok((self.response, self.session)), status: self.status },
            self.consumed,
        )
        &&& self.find matches Action::FindInitiatorToken {
            request,
            pending,
        } ==> self.fetch.fetches_initiator(pending, Some(self.found))
        &&& self.fetch matches Action::FetchInitiatorToken {
            request,
            pending,
        } ==> self.answer.judges_initiator(self.consumed, pending, Some(self.fetched), self.after)
    }

    /// The identifier field of the initiation.
    pub open spec fn rodt_id(self) -> Seq<u8> {
        self.datagram.subrange(116, 244)
    }

    /// Whether the owner of the token signed the identifier.
    pub open spec fn token_matches(self) -> bool {
        owner_signed(self.fetched.owner_id@, self.rodt_id(), self.datagram.subrange(244, 308))
            == SignatureCheck::Match
    }
}

/// A tunnel receives the response `datagram`: the limiter and the engine accept it, the engine makes
/// `session`, the look-up leads to `fetched`, and the session seals `keepalive`.
pub ghost struct ResponseReceived<'a> {
    pub datagram: Seq<u8>,
    pub message: Packet<'a>,
    pub before: TunnState,
    pub check: Action<'static>,
    pub checked: TunnState,
    pub consume: Action<'a>,
    pub session: Session,
    pub status: HandshakeStatus,
    pub fetch: Action<'static>,
    pub consumed: TunnState,
    pub fetched: Rodt,
    pub seal: Action<'static>,
    pub connected: TunnState,
    pub keepalive: Vec<u8>,
    pub session_timers: Seq<u128>,
    pub result: TunnResult,
    pub after: TunnState,
}

impl<'a> ResponseReceived<'a> {
    /// Whether each step is what the tunnel does.
    pub open spec fn happens(self) -> bool {
        &&& self.before.wf()
        &&& packet_of(self.datagram) == Some(self.message@)
        &&& self.message is HandshakeResponse
        &&& self.check.decapsulates(self.before, self.datagram, self.checked)
        &&& self.consume.follows_check(self.checked, PacketCheck::Accepted(self.message))
        &&& self.consume matches Action::ConsumeResponse(response) ==> self.fetch.answers_response(
            self.checked,
            response,
            HandshakeReply { outcome: Ok(self.session), status: self.status },
            self.consumed,
        )
        &&& self.fetch matches Action::FetchResponderToken {
            request,
            response,
        } ==> self.seal.judges_responder(
            self.consumed,
            response,
            Some(self.fetched),
            self.connected,
        )
        &&& self.seal matches Action::SealKeepalive { slot, local_index } ==> self.result.keeps_alive(
            self.connected,
            local_index as int,
            self.keepalive,
            self.session_timers,
            self.after,
        )
    }

    /// The identifier field of the response.
    pub open spec fn rodt_id(self) -> Seq<u8> {
        self.datagram.subrange(60, 188)
    }

    /// Whether the owner of the token signed the identifier.
    pub open spec fn token_matches(self) -> bool {
        owner_signed(self.fetched.owner_id@, self.rodt_id(), self.datagram.subrange(188, 252))
            == SignatureCheck::Match
    }
}

/// A tunnel receives the data message `datagram`: the limiter accepts it, and the session that it
/// names opens it to `opened`.
pub ghost struct DataReceived<'a> {
    pub datagram: Seq<u8>,
    pub message: PacketData<'a>,
    pub before: TunnState,
    pub check: Action<'static>,
    pub checked: TunnState,
    pub open: Action<'a>,
    pub opened: Vec<u8>,
    pub session_timers: Seq<u128>,
    pub result: TunnResult,
    pub after: TunnState,
}

impl<'a> DataReceived<'a> {
    /// Whether each step is what the tunnel does.
    pub open spec fn happens(self) -> bool {
        &&& self.before.wf()
        &&& packet_of(self.datagram) == Some(Packet::PacketData(self.message)@)
        &&& self.check.decapsulates(self.before, self.datagram, self.checked)
        &&& self.open.follows_check(
            self.checked,
            PacketCheck::Accepted(Packet::PacketData(self.message)),
        )
        &&& self.open is OpenData ==> self.result.opens(
            self.checked,
            self.message.receiver_session_index as int,
            Ok(self.opened),
            self.session_timers,
            self.after,
        )
    }

    /// Whether the message names the session with the index `local_index`.
    pub open spec fn names(self, local_index: usize) -> bool {
        self.message.receiver_session_index == local_index
    }
}

/// Whether `bytes` start with the number of a message's kind, which three zero bytes follow.
pub open spec fn starts_with_type(bytes: Seq<u8>, message_type: u32) -> bool {
    &&& bytes.len() >= 4
    &&& bytes[0] == message_type
    &&& bytes[1] == 0
    &&& bytes[2] == 0
    &&& bytes[3] == 0
}

/// The type is read as it is written.
proof fn lemma_type(bytes: Seq<u8>, message_type: u32)
    requires
        starts_with_type(bytes, message_type),
    ensures
        le_int(bytes.subrange(0, 4)) == message_type,
{
    let t = bytes.subrange(0, 4);
    reveal_with_fuel(le_int, 5);
    assert(t.skip(1).skip(1).skip(1).skip(1).len() == 0);
    assert(t.skip(1)[0] == bytes[1]);
    assert(t.skip(1).skip(1)[0] == bytes[2]);
    assert(t.skip(1).skip(1).skip(1)[0] == bytes[3]);
}

/// A tunnel that asks for a handshake sends the initiation that the engine writes.
pub proof fn law_initiation_is_sent(sent: InitiationSent)
    requires
        sent.happens(),
    ensures
        sent.request matches Action::ProduceInitiation(work) && work.starting_new_handshake
            == !sent.before.handshake.in_progress,
        sent.result == TunnResult::WriteToNetwork(sent.packet),
        sent.after.wf(),
{
}

/// The initiation that a tunnel sends is read back as one, with the identifier and the signature in
/// it, where the engine writes the bytes of one.
pub proof fn law_sent_initiation_is_read_back(sent: InitiationSent)
    requires
        sent.happens(),
        sent.packet@.len() == HANDSHAKE_INIT_SZ,
        starts_with_type(sent.packet@, HANDSHAKE_INIT_CONSTANT),
    ensures
        sent.result matches TunnResult::WriteToNetwork(packet) && packet_of(packet@) matches Some(
            PacketView::HandshakeInit { rodt_id, rodt_id_signature, .. },
        ) && rodt_id == sent.packet@.subrange(116, 244) && rodt_id_signature
            == sent.packet@.subrange(244, 308),
{
    lemma_type(sent.packet@, HANDSHAKE_INIT_CONSTANT);
}

/// A peer's initiation is answered by the token that it names: both look-ups ask for that token, and
/// where its owner signed the identifier, the response that the engine wrote goes out, and the
/// session is found at its index; where not, the peer gets nothing but the error, and no session.
pub proof fn law_initiation_is_answered(received: InitiationReceived<'_>)
    requires
        received.happens(),
    ensures
        received.check == Action::CheckPacket,
        received.consume matches Action::ConsumeInitiation(init) && Packet::HandshakeInit(init)
            == received.message,
        received.find matches Action::FindInitiatorToken { request, pending } && request@
            == token_request_chars(rodt_id_chars(received.rodt_id())),
        received.fetch matches Action::FetchInitiatorToken { request, pending } && request@
            == token_request_chars(rodt_id_chars(received.rodt_id())),
        received.token_matches() ==> {
            &&& received.answer == Action::Return(TunnResult::WriteToNetwork(received.response))
            &&& received.after.session_at(received.session.local_index as int) == Some(
                received.session,
            )
        },
        !received.token_matches() ==> {
            &&& received.answer == Action::Return(
                TunnResult::Error(WireGuardError::PeerEd25519SignatureVerificationFailure),
            )
            &&& received.after == received.before.with_handshake(received.status)
        },
        received.after.wf(),
{
}

/// A peer's response is answered by the token that it names: the look-up asks for that token, and
/// where its owner signed the identifier, a keepalive is sealed with the new session and goes out,
/// and the session is in use where none was or the one in use is no younger; where not, the operation
/// comes to the error, and there is no session.
pub proof fn law_response_is_answered(received: ResponseReceived<'_>)
    requires
        received.happens(),
    ensures
        received.check == Action::CheckPacket,
        received.consume matches Action::ConsumeResponse(response) && Packet::HandshakeResponse(
            response,
        ) == received.message,
        received.fetch matches Action::FetchResponderToken { request, response } && request@
            == token_request_chars(rodt_id_chars(received.rodt_id())),
        received.token_matches() ==> {
            &&& received.seal == (Action::SealKeepalive {
                slot: slot_of(received.session.local_index as int) as usize,
                local_index: received.session.local_index,
            })
            &&& received.result == TunnResult::WriteToNetwork(received.keepalive)
            &&& received.after.session_at(received.session.local_index as int) == Some(
                received.session,
            )
            &&& received.before.current_session() is None || received.session_timers[
                received.session.local_index as int % 8
            ] >= received.session_timers[received.before.current % 8]
                ==> received.after.current_session() == Some(received.session)
            &&& received.after.wf()
        },
        !received.token_matches() ==> {
            &&& received.seal == Action::Return(
                TunnResult::Error(WireGuardError::PeerEd25519SignatureVerificationFailure),
            )
            &&& received.connected == received.before.with_handshake(received.status)
        },
{
}

/// The response by which a tunnel answers an initiation is read back as one, with the identifier and
/// the signature in it, where the engine writes the bytes of one.
pub proof fn law_sent_response_is_read_back(received: InitiationReceived<'_>)
    requires
        received.happens(),
        received.token_matches(),
        received.response@.len() == HANDSHAKE_RESP_SZ,
        starts_with_type(received.response@, HANDSHAKE_RESP),
    ensures
        received.answer matches Action::Return(TunnResult::WriteToNetwork(packet)) && packet_of(
            packet@,
        ) matches Some(PacketView::HandshakeResponse { rodt_id, rodt_id_signature, .. }) && rodt_id
            == received.response@.subrange(60, 188) && rodt_id_signature
            == received.response@.subrange(188, 252),
{
    lemma_type(received.response@, HANDSHAKE_RESP);
}

/// The keepalive by which a tunnel answers a response is read back as a data message, where the
/// session writes the bytes of one.
pub proof fn law_sent_keepalive_is_read_back(received: ResponseReceived<'_>)
    requires
        received.happens(),
        received.token_matches(),
        received.keepalive@.len() >= DATA_OVERHEAD_SZ,
        starts_with_type(received.keepalive@, DATA),
    ensures
        received.result matches TunnResult::WriteToNetwork(packet) && packet_of(packet@) matches Some(
            PacketView::PacketData { .. },
        ),
{
    lemma_type(received.keepalive@, DATA);
}

/// Whether two tunnels set up a session: the initiation that the one sends is received by the other,
/// the response of that one by the first, and the keepalive of the first by the other, where the
/// tokens match and the keepalive names the session that the initiation led to and opens to an empty
/// packet.
pub open spec fn is_handshake(
    sent: InitiationSent,
    initiation: InitiationReceived<'_>,
    response: ResponseReceived<'_>,
    keepalive: DataReceived<'_>,
) -> bool {
    &&& sent.happens()
    &&& initiation.happens()
    &&& initiation.datagram == sent.packet@
    &&& initiation.token_matches()
    &&& response.happens()
    &&& response.before == sent.after
    &&& response.datagram == initiation.response@
    &&& response.token_matches()
    &&& keepalive.happens()
    &&& keepalive.before == initiation.after
    &&& keepalive.datagram == response.keepalive@
    &&& keepalive.names(initiation.session.local_index)
    &&& keepalive.opened@.len() == 0
}

/// The sequence by which two tunnels set up a session: the initiation that the one sends leads the
/// other to send its response, the response leads the first to send a keepalive, and the keepalive
/// comes to `Done` at the other end. Both ends then use the session, where they used none before, and
/// have counted no byte.
pub proof fn law_handshake_sequence(
    sent: InitiationSent,
    initiation: InitiationReceived<'_>,
    response: ResponseReceived<'_>,
    keepalive: DataReceived<'_>,
)
    requires
        is_handshake(sent, initiation, response, keepalive),
    ensures
        sent.result == TunnResult::WriteToNetwork(sent.packet),
        initiation.answer == Action::Return(TunnResult::WriteToNetwork(initiation.response)),
        response.seal is SealKeepalive,
        response.result == TunnResult::WriteToNetwork(response.keepalive),
        keepalive.open is OpenData,
        keepalive.result == TunnResult::Done,
        sent.before.current_session() is None ==> response.after.current_session() == Some(
            response.session,
        ),
        keepalive.after.session_at(initiation.session.local_index as int) == Some(
            initiation.session,
        ),
        initiation.before.current_session() is None ==> keepalive.after.current_session() == Some(
            initiation.session,
        ),
        response.after.tx_bytes == sent.before.tx_bytes,
        response.after.rx_bytes == sent.before.rx_bytes,
        keepalive.after.tx_bytes == initiation.before.tx_bytes,
        keepalive.after.rx_bytes == initiation.before.rx_bytes,
        response.after.wf(),
        keepalive.after.wf(),
{
    law_initiation_is_sent(sent);
    law_initiation_is_answered(initiation);
    law_response_is_answered(response);
}

/// What one tunnel is given to carry, the other delivers: an IP packet that is as long as its header
/// says, encapsulated through a session, comes out unchanged and with its source address where the
/// session of the other end, which the data message names, opens the message to the payload that was
/// sealed. Both ends count its bytes.
pub proof fn law_ip_packet_round_trip(
    src: Seq<u8>,
    sender: TunnState,
    seal: Action<'static>,
    sender_after: TunnState,
    received: DataReceived<'_>,
)
    requires
        is_ip_packet(src),
        stated_length(src) == src.len(),
        sender.current_session() is Some,
        seal.encapsulates(sender, src, None, sender_after),
        received.happens(),
        received.before.session_at(received.message.receiver_session_index as int) is Some,
        seal matches Action::SealData { slot, payload } ==> received.opened@ == payload@,
    ensures
        seal matches Action::SealData { slot, payload } && slot == slot_of(sender.current) && payload@
            == src,
        received.check == Action::CheckPacket,
        received.open == (Action::OpenData {
            slot: slot_of(received.message.receiver_session_index as int) as usize,
            packet: received.message,
        }),
        has_ipv4_header(src) ==> (received.result matches TunnResult::WriteToTunnelV4(packet, address)
            && packet@ == src && address@ == src.subrange(12, 16)),
        !has_ipv4_header(src) ==> (received.result matches TunnResult::WriteToTunnelV6(packet, address)
            && packet@ == src && address@ == src.subrange(8, 24)),
        sender_after.tx_bytes == sender.tx_bytes + src.len(),
        received.after.rx_bytes == received.before.rx_bytes + src.len(),
{
    assert(src.take(src.len() as int) =~= src);
}

/// An empty packet is a keepalive: it goes through the sessions like any other, is not delivered, is
/// no error, and counts nothing at either end.
pub proof fn law_keepalive_round_trip(
    sender: TunnState,
    seal: Action<'static>,
    sender_after: TunnState,
    received: DataReceived<'_>,
)
    requires
        sender.current_session() is Some,
        seal.encapsulates(sender, Seq::empty(), None, sender_after),
        received.happens(),
        received.before.session_at(received.message.receiver_session_index as int) is Some,
        seal matches Action::SealData { slot, payload } ==> received.opened@ == payload@,
    ensures
        seal is SealData,
        received.open is OpenData,
        received.result == TunnResult::Done,
        sender_after.tx_bytes == sender.tx_bytes,
        received.after.rx_bytes == received.before.rx_bytes,
{
}

/// After two tunnels that used no session set one up, an IP packet that the first is given is sealed
/// with the session that the response led to, and delivered unchanged at the other end, where the
/// data message names the session that the initiation led to and opens to the payload that was
/// sealed.
pub proof fn law_handshake_lets_packets_through(
    sent: InitiationSent,
    initiation: InitiationReceived<'_>,
    response: ResponseReceived<'_>,
    keepalive: DataReceived<'_>,
    src: Seq<u8>,
    seal: Action<'static>,
    sender_after: TunnState,
    received: DataReceived<'_>,
)
    requires
        is_handshake(sent, initiation, response, keepalive),
        sent.before.current_session() is None,
        is_ip_packet(src),
        stated_length(src) == src.len(),
        seal.encapsulates(response.after, src, None, sender_after),
        received.happens(),
        received.before == keepalive.after,
        received.names(initiation.session.local_index),
        seal matches Action::SealData { slot, payload } ==> received.opened@ == payload@,
    ensures
        seal matches Action::SealData { slot, payload } && slot == slot_of(
            response.session.local_index as int,
        ) && payload@ == src,
        has_ipv4_header(src) ==> (received.result matches TunnResult::WriteToTunnelV4(packet, address)
            && packet@ == src && address@ == src.subrange(12, 16)),
        !has_ipv4_header(src) ==> (received.result matches TunnResult::WriteToTunnelV6(packet, address)
            && packet@ == src && address@ == src.subrange(8, 24)),
        sender_after.tx_bytes == sent.before.tx_bytes + src.len(),
        received.after.rx_bytes == initiation.before.rx_bytes + src.len(),
{
    law_handshake_sequence(sent, initiation, response, keepalive);
    law_ip_packet_round_trip(src, response.after, seal, sender_after, received);
}

} // verus!
