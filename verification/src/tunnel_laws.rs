//! What the operations of a tunnel come to, and everything that they change.
//!
//! Each law speaks of calls: `call_ensures` holds of the arguments and the result of a call. Where one
//! call follows another, the tunnel is in the state that the first left.

use std::sync::Arc;
use vstd::prelude::*;
use vstd::utf8::encode_utf8;

use crate::action::{
    Action, InitiationWork, PacketCheck, PendingInitiation, PendingResponse, TunnResult,
};
use crate::errors::WireGuardError;
use crate::ip::{is_ip_packet, stated_length};
use crate::packet::{HandshakeInit, HandshakeResponse, Packet, PacketData, RODT_ID_SIGNATURE_SZ};
use crate::reading_laws::{
    ipv4_length, ipv6_length, lemma_be_pair, starts_as_ipv4, starts_as_ipv6, starts_with_ip, writes_hex,
};
use crate::rodt::{token_request, Rodt};
use crate::state::{
    HandshakeConfig, HandshakeReply, HandshakeStatus, RateLimiter, Session, TimerEvent, TimerName,
    TunnState, N_SESSIONS,
};
use crate::token_laws::{holds_id, lemma_hex_decoded, lemma_holds_id, signed_by};
use crate::tunn::Tunn;
use crate::x25519::x25519_public_key;

verus! {

/// What the timers are told of.
pub open spec fn tick(name: TimerName) -> TimerEvent {
    TimerEvent::Tick(name)
}

/// The queue with `packet` at its end, where fewer than 256 packets wait.
pub open spec fn joined_by(queue: Seq<Seq<u8>>, packet: Seq<u8>) -> Seq<Seq<u8>> {
    if queue.len() < 256 {
        queue.push(packet)
    } else {
        queue
    }
}

/// Whether a tunnel that is to ask for a handshake does so: not while one is in progress, unless it is
/// forced to. The timers start over after a handshake that expired.
pub open spec fn asks_for_handshake(
    s: TunnState,
    force: bool,
    requeue: Option<Seq<u8>>,
    action: Action<'_>,
    after: TunnState,
) -> bool {
    if s.handshake.in_progress && !force {
        action == Action::Return(TunnResult::Done) && after == s
    } else {
        &&& action matches Action::ProduceInitiation(work)
        &&& work.starting_new_handshake <==> !s.handshake.in_progress
        &&& match requeue {
            None => work.requeue is None,
            Some(packet) => work.requeue matches Some(p) && p@ == packet,
        }
        &&& after == TunnState {
            timer_events: if s.handshake.expired {
                s.timer_events.push(TimerEvent::Clear)
            } else {
                s.timer_events
            },
            ..s
        }
    }
}

/// Whether a packet is carried as far as it can be: the session in use seals it as it is and its
/// bytes are counted, or it waits at the end of the queue and a handshake is asked for.
pub open spec fn carries(
    s: TunnState,
    src: Seq<u8>,
    requeue: Option<Seq<u8>>,
    action: Action<'_>,
    after: TunnState,
) -> bool {
    if s.sessions[s.current % 8] is Some {
        &&& action matches Action::SealData { slot, payload }
        &&& slot == s.current % 8
        &&& payload@ == src
        &&& after == TunnState {
            tx_bytes: s.tx_bytes + src.len(),
            timer_events: if src.len() > 0 {
                s.timer_events.push(tick(TimerName::TimeLastPacketSent)).push(
                    tick(TimerName::TimeLastDataPacketSent),
                )
            } else {
                s.timer_events.push(tick(TimerName::TimeLastPacketSent))
            },
            ..s
        }
    } else {
        asks_for_handshake(
            TunnState { queue: joined_by(s.queue, src), ..s },
            false,
            requeue,
            action,
            after,
        )
    }
}

/// Whether the oldest waiting packet is carried; where none waits, there is nothing to do.
pub open spec fn carries_oldest(s: TunnState, action: Action<'_>, after: TunnState) -> bool {
    if s.queue.len() == 0 {
        action == Action::Return(TunnResult::Done) && after == s
    } else {
        carries(
            TunnState { queue: s.queue.subrange(1, s.queue.len() as int), ..s },
            s.queue[0],
            Some(s.queue[0]),
            action,
            after,
        )
    }
}

/// A packet from the tunnel interface is sealed unchanged by the session in use, or waits.
pub proof fn law_packet_is_carried_unchanged(tunn: &mut Tunn, src: &[u8], action: Action<'static>)
    requires
        old(tunn)@.wf(),
        call_ensures(Tunn::encapsulate, (tunn, src), action),
    ensures
        carries(old(tunn)@, src@, None, action, final(tunn)@),
{
}

/// An empty datagram sends the oldest waiting packet, which leaves the queue; any other is for the
/// rate limiter first and changes nothing.
pub proof fn law_empty_datagram_sends_the_oldest_packet(
    tunn: &mut Tunn,
    datagram: &[u8],
    action: Action<'static>,
)
    requires
        old(tunn)@.wf(),
        call_ensures(Tunn::decapsulate, (tunn, datagram), action),
    ensures
        datagram@.len() == 0 ==> carries_oldest(old(tunn)@, action, final(tunn)@),
        datagram@.len() > 0 ==> action == Action::CheckPacket && final(tunn)@ == old(tunn)@,
{
    let s = old(tunn)@;
    if s.queue.len() > 0 {
        assert(s.queue.skip(1) =~= s.queue.subrange(1, s.queue.len() as int));
    }
}

/// The oldest waiting packet is the one that is sent.
pub proof fn law_oldest_packet_is_sent_first(tunn: &mut Tunn, action: Action<'static>)
    requires
        old(tunn)@.wf(),
        call_ensures(Tunn::send_queued_packet, (tunn,), action),
    ensures
        carries_oldest(old(tunn)@, action, final(tunn)@),
{
    let s = old(tunn)@;
    if s.queue.len() > 0 {
        assert(s.queue.skip(1) =~= s.queue.subrange(1, s.queue.len() as int));
    }
}

/// Packets join the queue at its end, go back to its front and leave from its front, and no more than
/// 256 wait.
pub proof fn law_queue_is_first_in_first_out(
    queueing: &mut Tunn,
    packet: &[u8],
    requeueing: &mut Tunn,
    returned: Vec<u8>,
    dequeueing: &mut Tunn,
    taken: Option<Vec<u8>>,
)
    requires
        old(queueing)@.wf(),
        call_ensures(Tunn::queue_packet, (queueing, packet), ()),
        old(requeueing)@.wf(),
        call_ensures(Tunn::requeue_packet, (requeueing, returned), ()),
        old(dequeueing)@.wf(),
        call_ensures(Tunn::dequeue_packet, (dequeueing,), taken),
    ensures
        final(queueing)@ == (TunnState {
            queue: joined_by(old(queueing)@.queue, packet@),
            ..old(queueing)@
        }),
        final(requeueing)@ == (TunnState {
            queue: if old(requeueing)@.queue.len() < 256 {
                seq![returned@] + old(requeueing)@.queue
            } else {
                old(requeueing)@.queue
            },
            ..old(requeueing)@
        }),
        taken is None <==> old(dequeueing)@.queue.len() == 0,
        taken matches Some(p) ==> seq![p@] + final(dequeueing)@.queue == old(dequeueing)@.queue,
        final(dequeueing)@ == (TunnState { queue: final(dequeueing)@.queue, ..old(dequeueing)@ }),
        taken is None ==> final(dequeueing)@ == old(dequeueing)@,
{
    let s = old(dequeueing)@;
    if s.queue.len() > 0 {
        assert(seq![s.queue[0]] + s.queue.skip(1) =~= s.queue);
    }
}

/// A packet that was put back is the next to leave.
pub proof fn law_packet_put_back_leaves_next(
    requeueing: &mut Tunn,
    returned: Vec<u8>,
    dequeueing: &mut Tunn,
    taken: Option<Vec<u8>>,
)
    requires
        old(requeueing)@.wf(),
        old(requeueing)@.queue.len() < 256,
        call_ensures(Tunn::requeue_packet, (requeueing, returned), ()),
        old(dequeueing)@ == final(requeueing)@,
        call_ensures(Tunn::dequeue_packet, (dequeueing,), taken),
    ensures
        taken matches Some(p) && p@ == returned@,
        final(dequeueing)@ == old(requeueing)@,
{
    let s = old(requeueing)@;
    assert((seq![returned@] + s.queue).skip(1) =~= s.queue);
}

/// At no time do more than 256 packets wait, and each session stands in the slot of its index modulo
/// eight.
pub proof fn law_valid_tunnel(s: TunnState)
    requires
        s.wf(),
    ensures
        s.queue.len() <= 256,
        s.sessions.len() == 8,
        forall|i: int|
            0 <= i < 8 ==> (#[trigger] s.sessions[i] matches Some(session) ==> session.local_index % 8
                == i),
{
}

/// Whether `p` is a whole IP packet: as long as its header says.
pub open spec fn is_whole_ip(p: Seq<u8>) -> bool {
    ||| starts_as_ipv4(p) && ipv4_length(p) == p.len()
    ||| starts_as_ipv6(p) && ipv6_length(p) == p.len()
}

/// Whether the whole IP packet `p` goes to the tunnel interface, with the source address that stands
/// in its header.
pub open spec fn hands_out(result: TunnResult, p: Seq<u8>) -> bool {
    if starts_as_ipv4(p) {
        result matches TunnResult::WriteToTunnelV4(packet, address) && packet@ == p && address@
            == p.subrange(12, 16)
    } else {
        result matches TunnResult::WriteToTunnelV6(packet, address) && packet@ == p && address@
            == p.subrange(8, 24)
    }
}

/// The state after an IP packet of `length` bytes went to the tunnel interface.
pub open spec fn counted_in(s: TunnState, length: int) -> TunnState {
    TunnState {
        rx_bytes: s.rx_bytes + length,
        timer_events: s.timer_events.push(tick(TimerName::TimeLastDataPacketReceived)),
        ..s
    }
}

/// Whether the start of `packet` that its header gives as the length goes to the tunnel interface,
/// with the source address in the header.
pub open spec fn hands_out_start(result: TunnResult, packet: Seq<u8>) -> bool {
    if starts_as_ipv4(packet) {
        result matches TunnResult::WriteToTunnelV4(p, address) && p@ == packet.subrange(
            0,
            ipv4_length(packet),
        ) && address@ == packet.subrange(12, 16)
    } else {
        result matches TunnResult::WriteToTunnelV6(p, address) && p@ == packet.subrange(
            0,
            ipv6_length(packet),
        ) && address@ == packet.subrange(8, 24)
    }
}

/// The length that the header of a packet gives, by its version.
pub open spec fn header_length(packet: Seq<u8>) -> int {
    if starts_as_ipv4(packet) {
        ipv4_length(packet)
    } else {
        ipv6_length(packet)
    }
}

proof fn lemma_start(packet: Seq<u8>)
    requires
        starts_with_ip(packet),
    ensures
        is_ip_packet(packet),
        stated_length(packet) == header_length(packet),
        packet.take(header_length(packet)) == packet.subrange(0, header_length(packet)),
{
    lemma_be_pair(packet, 2);
    lemma_be_pair(packet, 4);
    assert(packet.take(header_length(packet)) =~= packet.subrange(0, header_length(packet)));
}

/// What goes to the tunnel interface is the start of the packet that its header gives as the length,
/// however short, and that many bytes count.
pub proof fn law_header_decides_what_is_delivered(
    tunn: &mut Tunn,
    packet: Vec<u8>,
    result: TunnResult,
    opening: &mut Tunn,
    index: u32,
    timers: &[u128; N_SESSIONS],
    opened: TunnResult,
)
    requires
        starts_with_ip(packet@),
        old(tunn)@.wf(),
        call_ensures(Tunn::validate_decapsulated_packet, (tunn, packet), result),
        old(opening)@.wf(),
        call_ensures(Tunn::data_opened, (opening, index, Ok(packet), timers), opened),
    ensures
        hands_out_start(result, packet@),
        final(tunn)@ == counted_in(old(tunn)@, header_length(packet@)),
        hands_out_start(opened, packet@),
        final(opening)@ == counted_in(
            heard_from(old(opening)@, index as int, timers@),
            header_length(packet@),
        ),
{
    lemma_start(packet@);
}

/// The fields of a packet do not change where padding follows it.
proof fn lemma_padded(p: Seq<u8>, padding: Seq<u8>)
    requires
        is_whole_ip(p),
    ensures
        ({
            let packet = p + padding;
            &&& starts_as_ipv4(p) <==> starts_as_ipv4(packet)
            &&& starts_as_ipv6(p) <==> starts_as_ipv6(packet)
            &&& packet.len() > 0
            &&& is_ip_packet(packet)
            &&& stated_length(packet) == p.len()
            &&& packet.take(p.len() as int) == p
            &&& packet.subrange(12, 16) == p.subrange(12, 16)
            &&& starts_as_ipv6(p) ==> packet.subrange(8, 24) == p.subrange(8, 24)
        }),
{
    let packet = p + padding;
    lemma_be_pair(packet, 2);
    lemma_be_pair(packet, 4);
    assert(packet.take(p.len() as int) =~= p);
    assert(packet.subrange(12, 16) =~= p.subrange(12, 16));
    if starts_as_ipv6(p) {
        assert(packet.subrange(8, 24) =~= p.subrange(8, 24));
    }
}

/// Padding behind an IP packet is cut off and nothing else: whatever follows a whole IP packet, the
/// packet itself goes to the tunnel interface, with its source address, and only its bytes count.
pub proof fn law_padding_is_cut_off(
    tunn: &mut Tunn,
    packet: Vec<u8>,
    result: TunnResult,
    p: Seq<u8>,
    padding: Seq<u8>,
)
    requires
        old(tunn)@.wf(),
        call_ensures(Tunn::validate_decapsulated_packet, (tunn, packet), result),
        packet@ == p + padding,
        is_whole_ip(p),
    ensures
        hands_out(result, p),
        final(tunn)@ == counted_in(old(tunn)@, p.len() as int),
{
    lemma_padded(p, padding);
}

/// An empty packet is a keepalive, and bytes that start with no whole IP packet are refused; neither
/// changes anything.
pub proof fn law_nothing_else_is_delivered(tunn: &mut Tunn, packet: Vec<u8>, result: TunnResult)
    requires
        old(tunn)@.wf(),
        call_ensures(Tunn::validate_decapsulated_packet, (tunn, packet), result),
        !starts_with_ip(packet@),
    ensures
        packet@.len() == 0 ==> result == TunnResult::Done,
        packet@.len() > 0 ==> result == TunnResult::Error(WireGuardError::InvalidPacket),
        final(tunn)@ == old(tunn)@,
{
    if packet@.len() >= 20 {
        lemma_be_pair(packet@, 2);
        lemma_be_pair(packet@, 4);
    }
}

/// Which session is in use after one was offered: the one offered, where the one in use is gone or is
/// no younger by the session timers, and else the one that was.
pub open spec fn in_use_after_offer(s: TunnState, index: int, timers: Seq<u128>) -> int {
    if s.sessions[s.current % 8] is None || timers[index % 8] >= timers[s.current % 8] {
        index
    } else {
        s.current
    }
}

/// The state after a data message for the session with the index `index` was opened.
pub open spec fn heard_from(s: TunnState, index: int, timers: Seq<u128>) -> TunnState {
    TunnState {
        current: in_use_after_offer(s, index, timers),
        timer_events: s.timer_events.push(tick(TimerName::TimeLastPacketReceived)),
        ..s
    }
}

/// A data message that opens is delivered cut to the IP packet in it, whatever padding follows, and its
/// session is offered for use; one that does not open is answered with the reason and changes nothing.
pub proof fn law_opened_data_is_delivered(
    tunn: &mut Tunn,
    index: u32,
    opened: Result<Vec<u8>, WireGuardError>,
    timers: &[u128; N_SESSIONS],
    result: TunnResult,
    p: Seq<u8>,
    padding: Seq<u8>,
)
    requires
        old(tunn)@.wf(),
        call_ensures(Tunn::data_opened, (tunn, index, opened, timers), result),
    ensures
        match opened {
            Err(e) => result == TunnResult::Error(e) && final(tunn)@ == old(tunn)@,
            Ok(packet) => {
                let s = heard_from(old(tunn)@, index as int, timers@);
                &&& is_whole_ip(p) && packet@ == p + padding ==> hands_out(result, p) && final(tunn)@
                    == counted_in(s, p.len() as int)
                &&& packet@.len() == 0 ==> result == TunnResult::Done && final(tunn)@ == s
                &&& packet@.len() > 0 && !starts_with_ip(packet@) ==> result == TunnResult::Error(
                    WireGuardError::InvalidPacket,
                ) && final(tunn)@ == s
            },
        },
{
    if let Ok(packet) = opened {
        if is_whole_ip(p) && packet@ == p + padding {
            lemma_padded(p, padding);
        }
        if packet@.len() >= 20 {
            lemma_be_pair(packet@, 2);
            lemma_be_pair(packet@, 4);
        }
    }
}

/// A session that is offered comes into use by its age, and nothing else changes.
pub proof fn law_younger_session_comes_into_use(
    tunn: &mut Tunn,
    index: usize,
    timers: &[u128; N_SESSIONS],
)
    requires
        old(tunn)@.wf(),
        call_ensures(Tunn::set_current_session, (tunn, index, timers), ()),
    ensures
        final(tunn)@ == (TunnState {
            current: in_use_after_offer(old(tunn)@, index as int, timers@),
            ..old(tunn)@
        }),
{
}

/// Whether a tunnel uses a session is what the slot of the index in use holds.
pub proof fn law_session_in_use(tunn: &Tunn, present: bool)
    requires
        call_ensures(Tunn::has_current_session, (tunn,), present),
    ensures
        present <==> tunn@.sessions[tunn@.current % 8] is Some,
{
}

/// What becomes of a message that may be processed: handshake messages and cookies go to the
/// handshake engine, and data goes to the session in the slot of the index that it names, modulo
/// eight.
pub open spec fn passes_on<'a>(s: TunnState, packet: Packet<'a>, action: Action<'a>) -> bool {
    match packet {
        Packet::HandshakeInit(p) => action == Action::ConsumeInitiation(p),
        Packet::HandshakeResponse(p) => action == Action::ConsumeResponse(p),
        Packet::PacketCookieReply(p) => action == Action::ReceiveCookieReply(p),
        Packet::PacketData(p) => if s.sessions[p.receiver_session_index as int % 8] is Some {
            action matches Action::OpenData { slot, packet: message } && slot
                == p.receiver_session_index % 8 && message == p
        } else {
            action == Action::Return(TunnResult::Error(WireGuardError::NoCurrentSession))
        },
    }
}

/// A datagram goes on as the rate limiter decides.
pub proof fn law_limiter_decides<'a>(tunn: &Tunn, check: PacketCheck<'a>, action: Action<'a>)
    requires
        tunn@.wf(),
        call_ensures(Tunn::packet_checked, (tunn, check), action),
    ensures
        match check {
            PacketCheck::Accepted(packet) => passes_on(tunn@, packet, action),
            PacketCheck::Cookie(cookie) => action == Action::Return(TunnResult::WriteToNetwork(cookie)),
            PacketCheck::Rejected(e) => action == Action::Return(TunnResult::Error(e)),
        },
{
}

/// A message goes to the engine that its kind is for.
pub proof fn law_message_goes_to_its_engine<'a>(
    tunn: &Tunn,
    packet: Packet<'a>,
    action: Action<'a>,
    data: PacketData<'a>,
    data_action: Action<'a>,
)
    requires
        tunn@.wf(),
        call_ensures(Tunn::consume_verified_packet, (tunn, packet), action),
        call_ensures(Tunn::consume_data, (tunn, data), data_action),
    ensures
        passes_on(tunn@, packet, action),
        passes_on(tunn@, Packet::PacketData(data), data_action),
{
}

/// Asking for a handshake starts one, unless one is in progress and the request is not forced.
pub proof fn law_handshake_is_asked_for_once(tunn: &mut Tunn, force: bool, action: Action<'static>)
    requires
        old(tunn)@.wf(),
        call_ensures(Tunn::produce_handshake_initiation, (tunn, force), action),
    ensures
        asks_for_handshake(old(tunn)@, force, None, action, final(tunn)@),
{
}

/// An initiation that was written goes out as it is, and the timers hear of it; one that could not be
/// written is reported, or sends the packet that caused it back to the front of the queue.
pub proof fn law_initiation_goes_out_as_written(
    tunn: &mut Tunn,
    work: InitiationWork,
    reply: HandshakeReply<Vec<u8>>,
    result: TunnResult,
)
    requires
        old(tunn)@.wf(),
        call_ensures(Tunn::handshake_initiation_produced, (tunn, work, reply), result),
    ensures
        ({
            let s = TunnState { handshake: reply.status, ..old(tunn)@ };
            let sent = tick(TimerName::TimeLastPacketSent);
            match reply.outcome {
                Ok(packet) => {
                    &&& result == TunnResult::WriteToNetwork(packet)
                    &&& final(tunn)@ == TunnState {
                        timer_events: if work.starting_new_handshake {
                            s.timer_events.push(tick(TimerName::TimeLastHandshakeStarted)).push(sent)
                        } else {
                            s.timer_events.push(sent)
                        },
                        ..s
                    }
                },
                Err(e) => match work.requeue {
                    None => result == TunnResult::Error(e) && final(tunn)@ == s,
                    Some(packet) => {
                        &&& result == TunnResult::Done
                        &&& final(tunn)@ == TunnState {
                            queue: if s.queue.len() < 256 {
                                seq![packet@] + s.queue
                            } else {
                                s.queue
                            },
                            ..s
                        }
                    },
                },
            }
        }),
{
}

/// The state after a session took the slot of its index modulo eight.
pub open spec fn keeps_session(s: TunnState, session: Session) -> TunnState {
    TunnState { sessions: s.sessions.update(session.local_index as int % 8, Some(session)), ..s }
}

/// A peer's initiation asks for the token by the identifier in its field, and hands what the handshake
/// engine answered on to the check of the token; what the engine refuses is answered with its reason.
/// Nothing changes but how the engine stands.
pub proof fn law_initiation_asks_for_the_peers_token(
    tunn: &mut Tunn,
    init: HandshakeInit<'_>,
    reply: HandshakeReply<(Vec<u8>, Session)>,
    action: Action<'static>,
    id: &str,
    expected: String,
)
    requires
        old(tunn)@.wf(),
        call_ensures(Tunn::process_received_handshake_initiation, (tunn, init, reply), action),
        call_ensures(token_request, (id,), expected),
        holds_id(init.rodt_id@, encode_utf8(id@)),
    ensures
        final(tunn)@ == (TunnState { handshake: reply.status, ..old(tunn)@ }),
        match reply.outcome {
            Err(e) => action == Action::Return(TunnResult::Error(e)),
            Ok((response, session)) => {
                &&& action matches Action::FindInitiatorToken { request, pending }
                &&& request@ == expected@
                &&& pending.rodt_id@ == init.rodt_id@
                &&& pending.rodt_id_signature@ == init.rodt_id_signature@
                &&& pending.packet == response
                &&& pending.session == session
            },
        },
{
    lemma_holds_id(init.rodt_id@, encode_utf8(id@));
    vstd::utf8::encode_utf8_decode_utf8(id@);
}

/// A peer's response asks for the token by the identifier in its field, and hands the session on to the
/// check of the token; what the engine refuses is answered with its reason. Nothing changes but how
/// the engine stands.
pub proof fn law_response_asks_for_the_peers_token(
    tunn: &mut Tunn,
    response: HandshakeResponse<'_>,
    reply: HandshakeReply<Session>,
    action: Action<'static>,
    id: &str,
    expected: String,
)
    requires
        old(tunn)@.wf(),
        call_ensures(Tunn::process_received_handshake_response, (tunn, response, reply), action),
        call_ensures(token_request, (id,), expected),
        holds_id(response.rodt_id@, encode_utf8(id@)),
    ensures
        final(tunn)@ == (TunnState { handshake: reply.status, ..old(tunn)@ }),
        match reply.outcome {
            Err(e) => action == Action::Return(TunnResult::Error(e)),
            Ok(session) => {
                &&& action matches Action::FetchResponderToken { request, response: pending }
                &&& request@ == expected@
                &&& pending.rodt_id@ == response.rodt_id@
                &&& pending.rodt_id_signature@ == response.rodt_id_signature@
                &&& pending.session == session
            },
        },
{
    lemma_holds_id(response.rodt_id@, encode_utf8(id@));
    vstd::utf8::encode_utf8_decode_utf8(id@);
}

/// An initiator whose token was found has it fetched, by the same identifier; without a token the
/// process is to end with code 1.
pub proof fn law_found_token_is_fetched(
    pending: PendingInitiation,
    found: Option<Rodt>,
    action: Action<'static>,
    id: &str,
    expected: String,
)
    requires
        call_ensures(Tunn::initiator_token_found, (pending, found), action),
        call_ensures(token_request, (id,), expected),
        holds_id(pending.rodt_id@, encode_utf8(id@)),
    ensures
        match found {
            None => action matches Action::Exit(code) && code == 1,
            Some(_) => {
                &&& action matches Action::FetchInitiatorToken { request, pending: fetching }
                &&& request@ == expected@
                &&& fetching == pending
            },
        },
{
    lemma_holds_id(pending.rodt_id@, encode_utf8(id@));
    vstd::utf8::encode_utf8_decode_utf8(id@);
}

/// An initiator gets the response, and its session is kept, exactly where the owner of its token made
/// the signature of its identifier. Anybody else gets an error and changes nothing.
pub proof fn law_initiator_is_let_in_by_its_signature(
    tunn: &mut Tunn,
    pending: PendingInitiation,
    fetched: Option<Rodt>,
    action: Action<'static>,
    id: Seq<u8>,
    key: Seq<u8>,
)
    requires
        old(tunn)@.wf(),
        call_ensures(Tunn::initiator_token_fetched, (tunn, pending, fetched), action),
        holds_id(pending.rodt_id@, id),
        key.len() == 32,
        fetched matches Some(rodt) ==> writes_hex(rodt.owner_id@, key),
    ensures
        ({
            let s = old(tunn)@;
            if fetched is None {
                action matches Action::Exit(code) && code == 1 && final(tunn)@ == s
            } else if signed_by(key, id, pending.rodt_id_signature@) {
                &&& action == Action::Return(TunnResult::WriteToNetwork(pending.packet))
                &&& final(tunn)@ == TunnState {
                    timer_events: s.timer_events + seq![
                        tick(TimerName::TimeLastPacketReceived),
                        tick(TimerName::TimeLastPacketSent),
                        TimerEvent::SessionEstablished {
                            is_initiator: false,
                            index: pending.session.local_index,
                        },
                    ],
                    ..keeps_session(s, pending.session)
                }
            } else {
                &&& action == Action::Return(
                    TunnResult::Error(WireGuardError::PeerEd25519SignatureVerificationFailure),
                )
                &&& final(tunn)@ == s
            }
        }),
{
    lemma_holds_id(pending.rodt_id@, id);
    if let Some(rodt) = fetched {
        lemma_hex_decoded(rodt.owner_id@, key);
    }
}

/// A responder's session is kept, and a keepalive is to go out through it, exactly where the owner of
/// its token made the signature of its identifier. Anybody else gets an error and changes nothing.
pub proof fn law_responder_is_let_in_by_its_signature(
    tunn: &mut Tunn,
    response: PendingResponse,
    fetched: Option<Rodt>,
    action: Action<'static>,
    id: Seq<u8>,
    key: Seq<u8>,
)
    requires
        old(tunn)@.wf(),
        call_ensures(Tunn::responder_token_fetched, (tunn, response, fetched), action),
        holds_id(response.rodt_id@, id),
        key.len() == 32,
        fetched matches Some(rodt) ==> writes_hex(rodt.owner_id@, key),
    ensures
        ({
            let s = old(tunn)@;
            let index = response.session.local_index;
            if fetched is None {
                action matches Action::Exit(code) && code == 1 && final(tunn)@ == s
            } else if signed_by(key, id, response.rodt_id_signature@) {
                &&& action matches Action::SealKeepalive { slot, local_index }
                &&& slot == index % 8
                &&& local_index == index
                &&& final(tunn)@ == TunnState {
                    timer_events: s.timer_events + seq![
                        tick(TimerName::TimeLastPacketReceived),
                        TimerEvent::SessionEstablished {
                            is_initiator: true,
                            index: (index % 8) as usize,
                        },
                    ],
                    ..keeps_session(s, response.session)
                }
            } else {
                &&& action == Action::Return(
                    TunnResult::Error(WireGuardError::PeerEd25519SignatureVerificationFailure),
                )
                &&& final(tunn)@ == s
            }
        }),
{
    lemma_holds_id(response.rodt_id@, id);
    if let Some(rodt) = fetched {
        lemma_hex_decoded(rodt.owner_id@, key);
    }
}

/// The keepalive that answers a response goes out as it was sealed, and the new session is in use by
/// its age.
pub proof fn law_keepalive_goes_out_as_sealed(
    tunn: &mut Tunn,
    local_index: usize,
    packet: Vec<u8>,
    timers: &[u128; N_SESSIONS],
    result: TunnResult,
)
    requires
        old(tunn)@.wf(),
        call_ensures(Tunn::keepalive_produced, (tunn, local_index, packet, timers), result),
    ensures
        result == TunnResult::WriteToNetwork(packet),
        final(tunn)@ == (TunnState {
            current: in_use_after_offer(old(tunn)@, local_index as int, timers@),
            ..old(tunn)@
        }),
{
}

/// After a response was accepted and its keepalive went out, packets go through the session that it
/// led to, where no session was in use or the one in use is no younger: also when a tunnel in use gets
/// new keys. Where the one in use is younger, it stays.
pub proof fn law_accepted_response_changes_the_session_in_use(
    accepting: &mut Tunn,
    response: PendingResponse,
    fetched: Option<Rodt>,
    accepted: Action<'static>,
    answering: &mut Tunn,
    keepalive: Vec<u8>,
    timers: &[u128; N_SESSIONS],
    result: TunnResult,
    sending: &mut Tunn,
    src: &[u8],
    action: Action<'static>,
)
    requires
        old(accepting)@.wf(),
        call_ensures(Tunn::responder_token_fetched, (accepting, response, fetched), accepted),
        accepted is SealKeepalive,
        old(answering)@ == final(accepting)@,
        call_ensures(
            Tunn::keepalive_produced,
            (answering, response.session.local_index, keepalive, timers),
            result,
        ),
        old(sending)@ == final(answering)@,
        call_ensures(Tunn::encapsulate, (sending, src), action),
    ensures
        ({
            let before = old(accepting)@;
            let index = response.session.local_index as int;
            let younger = before.sessions[before.current % 8] is Some && timers@[index % 8]
                < timers@[before.current % 8];
            &&& action matches Action::SealData { slot, payload }
            &&& slot == if younger {
                before.current % 8
            } else {
                index % 8
            }
            &&& payload@ == src@
            &&& !younger ==> old(sending)@.sessions[old(sending)@.current % 8] == Some(
                response.session,
            )
        }),
{
}

/// A session that a peer set up carries packets once a data message for it opens, where no session was
/// in use or the one in use is no younger.
pub proof fn law_data_changes_the_session_in_use(
    opening: &mut Tunn,
    index: u32,
    packet: Vec<u8>,
    timers: &[u128; N_SESSIONS],
    result: TunnResult,
    sending: &mut Tunn,
    src: &[u8],
    action: Action<'static>,
)
    requires
        old(opening)@.wf(),
        old(opening)@.sessions[index as int % 8] is Some,
        call_ensures(Tunn::data_opened, (opening, index, Ok(packet), timers), result),
        old(sending)@ == final(opening)@,
        call_ensures(Tunn::encapsulate, (sending, src), action),
    ensures
        ({
            let before = old(opening)@;
            let younger = before.sessions[before.current % 8] is Some && timers@[index as int % 8]
                < timers@[before.current % 8];
            action matches Action::SealData { slot, payload } && payload@ == src@ && slot == if younger {
                before.current % 8
            } else {
                index as int % 8
            }
        }),
{
}

/// A cookie that the handshake engine takes is heard of by the timers; one that it refuses is answered
/// with its reason.
pub proof fn law_cookie_is_taken(tunn: &mut Tunn, reply: HandshakeReply<()>, result: TunnResult)
    requires
        old(tunn)@.wf(),
        call_ensures(Tunn::consume_cookie_reply, (tunn, reply), result),
    ensures
        ({
            let s = TunnState { handshake: reply.status, ..old(tunn)@ };
            match reply.outcome {
                Err(e) => result == TunnResult::Error(e) && final(tunn)@ == s,
                Ok(_) => result == TunnResult::Done && final(tunn)@ == TunnState {
                    timer_events: s.timer_events + seq![
                        tick(TimerName::TimeLastPacketReceived),
                        tick(TimerName::TimeCookieReceived),
                    ],
                    ..s
                },
            }
        }),
{
}

/// The rate limiter in use: the given one, or one for `public_key` with the limit 10.
pub open spec fn is_limiter(
    limiter: RateLimiter,
    given: Option<Arc<RateLimiter>>,
    public_key: Seq<u8>,
) -> bool {
    match given {
        Some(g) => limiter == *g,
        None => limiter.public_key@ == public_key && limiter.limit == 10 && limiter.identity is None,
    }
}

/// A new private key that the handshake engine takes leaves not one of the sessions, in whatever slot;
/// one that it refuses leaves them all. The rate limiter is replaced either way, and what waits or was
/// counted stays.
pub proof fn law_new_key_clears_every_session(
    tunn: &mut Tunn,
    private: [u8; 32],
    public: [u8; 32],
    given: Option<Arc<RateLimiter>>,
    reply: HandshakeReply<()>,
    result: Result<(), WireGuardError>,
)
    requires
        old(tunn)@.wf(),
        call_ensures(Tunn::set_static_private, (tunn, private, public, given, reply), result),
    ensures
        ({
            let (s, after) = (old(tunn)@, final(tunn)@);
            &&& result == reply.outcome
            &&& result is Ok ==> after.sessions.len() == 8 && forall|i: int|
                0 <= i < 8 ==> #[trigger] after.sessions[i] is None
            &&& result is Ok ==> after.config == HandshakeConfig {
                static_private: private,
                static_public: public,
                ..s.config
            }
            &&& result is Err ==> after.sessions == s.sessions && after.config == s.config
            &&& after.should_reset_rr == (given is None)
            &&& is_limiter(after.rate_limiter, given, public@)
            &&& after == TunnState {
                handshake: reply.status,
                sessions: after.sessions,
                config: after.config,
                should_reset_rr: after.should_reset_rr,
                rate_limiter: after.rate_limiter,
                ..s
            }
        }),
{
}

/// After a new private key was taken, every data message is refused, whichever session it names, and
/// packets wait for a handshake.
pub proof fn law_old_sessions_carry_nothing_after_a_new_key(
    tunn: &mut Tunn,
    private: [u8; 32],
    public: [u8; 32],
    given: Option<Arc<RateLimiter>>,
    reply: HandshakeReply<()>,
    result: Result<(), WireGuardError>,
    receiving: &Tunn,
    message: PacketData<'_>,
    received: Action<'_>,
    sending: &mut Tunn,
    src: &[u8],
    action: Action<'static>,
)
    requires
        old(tunn)@.wf(),
        call_ensures(Tunn::set_static_private, (tunn, private, public, given, reply), result),
        reply.outcome is Ok,
        receiving@ == final(tunn)@,
        call_ensures(Tunn::consume_data, (receiving, message), received),
        old(sending)@ == final(tunn)@,
        call_ensures(Tunn::encapsulate, (sending, src), action),
    ensures
        received == Action::Return(TunnResult::Error(WireGuardError::NoCurrentSession)),
        !(action is SealData),
        final(sending)@.queue == joined_by(old(tunn)@.queue, src@),
{
}

/// Whether `field` holds as much of the identifier as leaves room for a zero byte, and zeros.
pub open spec fn holds_start_of(field: Seq<u8>, id: Seq<u8>) -> bool {
    &&& field.len() == 128
    &&& field[127] == 0
    &&& forall|i: int| 0 <= i < 127 && i < id.len() ==> #[trigger] field[i] == id[i]
    &&& forall|i: int| id.len() <= i < 128 ==> #[trigger] field[i] == 0
}

/// The handshake engine is started with what the tunnel is made with: the public key of the private
/// one, the session index moved up by eight bits, and the identifier in its field.
pub proof fn law_engine_is_started_with_what_is_given(
    private: [u8; 32],
    peer: [u8; 32],
    preshared: Option<[u8; 32]>,
    id: String,
    signature: [u8; RODT_ID_SIGNATURE_SZ],
    index: u32,
    config: HandshakeConfig,
)
    requires
        call_ensures(
            Tunn::handshake_config,
            (private, peer, preshared, id, signature, index),
            config,
        ),
    ensures
        config.static_private@ == private@,
        config.static_public@ == x25519_public_key(private@),
        config.peer_static_public@ == peer@,
        config.preshared_key == preshared,
        config.rodt_id_signature@ == signature@,
        config.index % 0x100 == 0,
        config.index / 0x100 == index % 0x100_0000,
        holds_start_of(config.rodt_id@, encode_utf8(id@)),
{
}

/// A new tunnel has no session, nothing waits, nothing was counted and the timers have nothing to hear;
/// its engine works with what [`Tunn::handshake_config`] gives. There is none where the engine did not
/// start.
pub proof fn law_new_tunnel_is_empty(
    private: [u8; 32],
    peer: [u8; 32],
    preshared: Option<[u8; 32]>,
    id: String,
    signature: [u8; RODT_ID_SIGNATURE_SZ],
    keepalive: Option<u16>,
    index: u32,
    given: Option<Arc<RateLimiter>>,
    started: Result<HandshakeStatus, WireGuardError>,
    made: Result<Tunn, &'static str>,
    config: HandshakeConfig,
)
    requires
        call_ensures(
            Tunn::new,
            (private, peer, preshared, id, signature, keepalive, index, given, started),
            made,
        ),
        call_ensures(
            Tunn::handshake_config,
            (private, peer, preshared, id, signature, index),
            config,
        ),
    ensures
        match started {
            Err(_) => made matches Err(e) && e@ == "Error: Invalid parameters"@,
            Ok(status) => {
                &&& made matches Ok(tunn)
                &&& tunn@.wf()
                &&& tunn@.handshake == status
                &&& tunn@.sessions.len() == 8
                &&& forall|i: int| 0 <= i < 8 ==> #[trigger] tunn@.sessions[i] is None
                &&& tunn@.current == 0
                &&& tunn@.queue.len() == 0
                &&& tunn@.timer_events.len() == 0
                &&& tunn@.tx_bytes == 0
                &&& tunn@.rx_bytes == 0
                &&& tunn@.persistent_keepalive == keepalive
                &&& tunn@.should_reset_rr == (given is None)
                &&& is_limiter(tunn@.rate_limiter, given, x25519_public_key(private@))
                &&& tunn@.config.static_private == config.static_private
                &&& tunn@.config.static_public@ == config.static_public@
                &&& tunn@.config.peer_static_public == config.peer_static_public
                &&& tunn@.config.index == config.index
                &&& tunn@.config.preshared_key == config.preshared_key
                &&& tunn@.config.rodt_id@ == config.rodt_id@
                &&& tunn@.config.rodt_id_signature == config.rodt_id_signature
            },
        },
{
}

/// How many of the sessions at the index in use and the `n - 1` before it are there.
pub open spec fn sessions_back(s: TunnState, n: int) -> int
    decreases n,
{
    if n <= 0 {
        0
    } else {
        sessions_back(s, n - 1) + if s.sessions[(s.current - (n - 1)) % 8] is Some {
            1int
        } else {
            0
        }
    }
}

proof fn lemma_samples(s: TunnState, counts: Seq<(u64, u64)>, n: int)
    requires
        s.wf(),
        0 <= n <= 8,
    ensures
        s.counts_back(counts, n).len() == sessions_back(s, n),
        0 <= sessions_back(s, n) <= n,
        forall|k: int|
            0 <= k < n && s.sessions[(s.current - k) % 8] is Some ==> 0 <= #[trigger] sessions_back(s, k)
                < sessions_back(s, n) && s.counts_back(counts, n)[sessions_back(s, k)]
                == counts[(s.current - k) % 8],
    decreases n,
{
    if n > 0 {
        lemma_samples(s, counts, n - 1);
    }
}

/// The loss is sampled from every session once: the one in use first, then those of the indices before
/// it, backwards round the ring.
pub proof fn law_samples_go_back_round_the_ring(
    tunn: &Tunn,
    counts: &[(u64, u64); N_SESSIONS],
    samples: Vec<(u64, u64)>,
)
    requires
        tunn@.wf(),
        call_ensures(Tunn::loss_samples, (tunn, counts), samples),
    ensures
        samples@.len() == sessions_back(tunn@, 8),
        forall|k: int|
            0 <= k < 8 && tunn@.sessions[(tunn@.current - k) % 8] is Some ==> samples@[
                #[trigger] sessions_back(tunn@, k)
            ] == counts@[(tunn@.current - k) % 8],
{
    lemma_samples(tunn@, counts@, 8);
}

/// The statistics are what they say: the time as given, the bytes sent and received, the samples of the
/// loss, and the round trip time that the handshake engine reported.
pub proof fn law_statistics(
    tunn: &Tunn,
    time: Option<std::time::Duration>,
    counts: &[(u64, u64); N_SESSIONS],
    stats: (Option<std::time::Duration>, usize, usize, Vec<(u64, u64)>, Option<u32>),
    samples: Vec<(u64, u64)>,
)
    requires
        tunn@.wf(),
        call_ensures(Tunn::stats, (tunn, time, counts), stats),
        call_ensures(Tunn::loss_samples, (tunn, counts), samples),
    ensures
        stats.0 == time,
        stats.1 == tunn@.tx_bytes,
        stats.2 == tunn@.rx_bytes,
        stats.3@ == samples@,
        stats.4 == tunn@.handshake.last_rtt,
{
}

/// A packet that a session seals adds its length to the bytes sent, and one that goes to the tunnel
/// interface to the bytes received, as the statistics before and after show.
pub proof fn law_statistics_count_what_is_carried(
    before: &Tunn,
    time: Option<std::time::Duration>,
    counts: &[(u64, u64); N_SESSIONS],
    stats: (Option<std::time::Duration>, usize, usize, Vec<(u64, u64)>, Option<u32>),
    sending: &mut Tunn,
    src: &[u8],
    action: Action<'static>,
    delivering: &mut Tunn,
    packet: Vec<u8>,
    result: TunnResult,
    after: &Tunn,
    later: (Option<std::time::Duration>, usize, usize, Vec<(u64, u64)>, Option<u32>),
)
    requires
        before@.wf(),
        before@.sessions[before@.current % 8] is Some,
        call_ensures(Tunn::stats, (before, time, counts), stats),
        old(sending)@ == before@,
        call_ensures(Tunn::encapsulate, (sending, src), action),
        old(delivering)@ == final(sending)@,
        call_ensures(Tunn::validate_decapsulated_packet, (delivering, packet), result),
        is_whole_ip(packet@),
        after@ == final(delivering)@,
        call_ensures(Tunn::stats, (after, time, counts), later),
    ensures
        later.1 == stats.1 + src@.len(),
        later.2 == stats.2 + packet@.len(),
{
    assert(packet@ + Seq::<u8>::empty() =~= packet@);
    lemma_padded(packet@, Seq::empty());
}

/// The timers are handed everything that happened, oldest first, and once.
pub proof fn law_timers_hear_everything_once(
    ticking: &mut Tunn,
    name: TimerName,
    telling: &mut Tunn,
    events: Vec<TimerEvent>,
)
    requires
        old(ticking)@.wf(),
        call_ensures(Tunn::timer_tick, (ticking, name), ()),
        old(telling)@ == final(ticking)@,
        call_ensures(Tunn::take_timer_events, (telling,), events),
    ensures
        events@ == old(ticking)@.timer_events.push(tick(name)),
        final(telling)@ == (TunnState { timer_events: Seq::empty(), ..old(ticking)@ }),
{
}

/// A status that is recorded is the one that counts, and nothing else changes.
pub proof fn law_recorded_status_counts(
    recording: &mut Tunn,
    status: HandshakeStatus,
    asking: &Tunn,
    expired: bool,
)
    requires
        old(recording)@.wf(),
        call_ensures(Tunn::set_handshake_status, (recording, status), ()),
        asking@ == final(recording)@,
        call_ensures(Tunn::is_expired, (asking,), expired),
    ensures
        final(recording)@ == (TunnState { handshake: status, ..old(recording)@ }),
        expired == status.expired,
{
}

/// What a tunnel was made or set with can be asked for.
pub proof fn law_settings_are_handed_out(
    tunn: &Tunn,
    config: HandshakeConfig,
    limiter: Arc<RateLimiter>,
    settings: (Option<u16>, bool),
)
    requires
        call_ensures(Tunn::config, (tunn,), config),
        call_ensures(Tunn::rate_limiter, (tunn,), limiter),
        call_ensures(Tunn::timer_settings, (tunn,), settings),
    ensures
        config == tunn@.config,
        *limiter == tunn@.rate_limiter,
        settings.0 == tunn@.persistent_keepalive,
        settings.1 == tunn@.should_reset_rr,
{
}

/// The operations take every valid tunnel and everything that they are for: packets of any bytes, as
/// far as the counters have room.
pub proof fn law_operations_take_everything(
    tunn: &mut Tunn,
    looking: &Tunn,
    src: &[u8],
    packet: Vec<u8>,
    index: u32,
    slot: usize,
    opened: Result<Vec<u8>, WireGuardError>,
    timers: &[u128; N_SESSIONS],
    force: bool,
    check: PacketCheck<'_>,
    reply: HandshakeReply<()>,
    work: InitiationWork,
    written: HandshakeReply<Vec<u8>>,
    key: [u8; 32],
    given: Option<Arc<RateLimiter>>,
)
    requires
        old(tunn)@.wf(),
        looking@.wf(),
        old(tunn)@.tx_bytes + src@.len() <= usize::MAX,
        old(tunn)@.queue.len() > 0 ==> old(tunn)@.tx_bytes + old(tunn)@.queue[0].len() <= usize::MAX,
        old(tunn)@.rx_bytes + packet@.len() <= usize::MAX,
        opened matches Ok(p) ==> old(tunn)@.rx_bytes + p@.len() <= usize::MAX,
    ensures
        call_requires(Tunn::consume_incoming_packet, (src,)),
        call_requires(Tunn::dst_address, (src,)),
        call_requires(Tunn::encapsulate, (tunn, src)),
        call_requires(Tunn::decapsulate, (tunn, src)),
        call_requires(Tunn::send_queued_packet, (tunn,)),
        call_requires(Tunn::packet_checked, (looking, check)),
        call_requires(Tunn::data_opened, (tunn, index, opened, timers)),
        call_requires(Tunn::validate_decapsulated_packet, (tunn, packet)),
        call_requires(Tunn::produce_handshake_initiation, (tunn, force)),
        call_requires(Tunn::handshake_initiation_produced, (tunn, work, written)),
        call_requires(Tunn::keepalive_produced, (tunn, slot, packet, timers)),
        call_requires(Tunn::consume_cookie_reply, (tunn, reply)),
        call_requires(Tunn::set_static_private, (tunn, key, key, given, reply)),
        call_requires(Tunn::set_current_session, (tunn, slot, timers)),
{
}

} // verus!
