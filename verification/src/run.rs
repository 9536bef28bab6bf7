//! Runs of a tunnel: what holds after any number of its operations, in any order.

use std::sync::Arc;
use vstd::prelude::*;

use crate::action::{Action, InitiationWork, PendingInitiation, PendingResponse, TunnResult};
use crate::bytes::be_int;
use crate::errors::WireGuardError;
use crate::ip::{is_ip_packet, stated_length};
use crate::packet::{HandshakeInit, HandshakeResponse};
use crate::rodt::Rodt;
use crate::state::{
    HandshakeConfig, HandshakeReply, HandshakeStatus, RateLimiter, Session, TimerName, TunnState,
};

verus! {

/// One call of an operation of the tunnel, with what it was given and what it came to.
#[allow(inconsistent_fields)]
pub ghost enum Step<'a> {
    /// An operation that only looks, such as `stats` or `packet_checked`.
    Look,
    QueuePacket { packet: Seq<u8> },
    RequeuePacket { packet: Seq<u8> },
    DequeuePacket,
    TimerTick { name: TimerName },
    TakeTimerEvents,
    SetCurrentSession { new_index: int, session_timers: Seq<u128> },
    SetHandshakeStatus { status: HandshakeStatus },
    SetStaticPrivate {
        static_private: [u8; 32],
        static_public: [u8; 32],
        rate_limiter: Option<Arc<RateLimiter>>,
        reply: HandshakeReply<()>,
    },
    Encapsulate { src: Seq<u8>, action: Action<'a> },
    Decapsulate { datagram: Seq<u8>, action: Action<'a> },
    SendQueuedPacket { action: Action<'a> },
    ProduceHandshakeInitiation { force_resend: bool, action: Action<'a> },
    HandshakeInitiationProduced {
        work: InitiationWork,
        reply: HandshakeReply<Vec<u8>>,
        result: TunnResult,
    },
    ProcessReceivedHandshakeInitiation {
        init: HandshakeInit<'a>,
        reply: HandshakeReply<(Vec<u8>, Session)>,
        action: Action<'a>,
    },
    InitiatorTokenFetched {
        pending: PendingInitiation,
        fetched: Option<Rodt>,
        action: Action<'a>,
    },
    ProcessReceivedHandshakeResponse {
        response: HandshakeResponse<'a>,
        reply: HandshakeReply<Session>,
        action: Action<'a>,
    },
    ResponderTokenFetched {
        response: PendingResponse,
        fetched: Option<Rodt>,
        action: Action<'a>,
    },
    KeepaliveProduced {
        local_index: int,
        packet: Vec<u8>,
        session_timers: Seq<u128>,
        result: TunnResult,
    },
    ConsumeCookieReply { reply: HandshakeReply<()>, result: TunnResult },
    DataOpened {
        index: int,
        opened: Result<Vec<u8>, WireGuardError>,
        session_timers: Seq<u128>,
        result: TunnResult,
    },
    ValidateDecapsulatedPacket { packet: Seq<u8>, result: TunnResult },
}

impl<'a> Step<'a> {
    /// Whether the step leads from the state `before` to the state `after`: what the operation
    /// promises.
    pub open spec fn leads(self, before: TunnState, after: TunnState) -> bool {
        match self {
            Step::Look => after == before,
            Step::QueuePacket { packet } => after == before.queued(packet),
            Step::RequeuePacket { packet } => after == before.requeued(packet),
            Step::DequeuePacket => after == before.dequeued(),
            Step::TimerTick { name } => after == before.ticked(name),
            Step::TakeTimerEvents => after == before.timers_told(),
            Step::SetCurrentSession { new_index, session_timers } => after == before.with_current(
                new_index,
                session_timers,
            ),
            Step::SetHandshakeStatus { status } => after == before.with_handshake(status),
            Step::SetStaticPrivate { static_private, static_public, rate_limiter, reply } => after
                == before.with_keys(static_private, static_public, rate_limiter, reply),
            Step::Encapsulate { src, action } => action.encapsulates(before, src, None, after),
            Step::Decapsulate { datagram, action } => action.decapsulates(before, datagram, after),
            Step::SendQueuedPacket { action } => action.sends_queued(before, after),
            Step::ProduceHandshakeInitiation { force_resend, action } => action.requests_initiation(
                before,
                force_resend,
                None,
                after,
            ),
            Step::HandshakeInitiationProduced { work, reply, result } => result.initiates(
                before,
                work,
                reply,
                after,
            ),
            Step::ProcessReceivedHandshakeInitiation { init, reply, action } => action.answers_initiation(
                before,
                init,
                reply,
                after,
            ),
            Step::InitiatorTokenFetched { pending, fetched, action } => action.judges_initiator(
                before,
                pending,
                fetched,
                after,
            ),
            Step::ProcessReceivedHandshakeResponse { response, reply, action } => action.answers_response(
                before,
                response,
                reply,
                after,
            ),
            Step::ResponderTokenFetched { response, fetched, action } => action.judges_responder(
                before,
                response,
                fetched,
                after,
            ),
            Step::KeepaliveProduced { local_index, packet, session_timers, result } => result.keeps_alive(
                before,
                local_index,
                packet,
                session_timers,
                after,
            ),
            Step::ConsumeCookieReply { reply, result } => result.takes_cookie(before, reply, after),
            Step::DataOpened { index, opened, session_timers, result } => result.opens(
                before,
                index,
                opened,
                session_timers,
                after,
            ),
            Step::ValidateDecapsulatedPacket { packet, result } => result.delivers(
                before,
                packet,
                after,
            ),
        }
    }

    /// What the step asks the driver for, where it asks for anything.
    pub open spec fn action(self) -> Option<Action<'a>> {
        match self {
            Step::Encapsulate { action, .. } => Some(action),
            Step::Decapsulate { action, .. } => Some(action),
            Step::SendQueuedPacket { action } => Some(action),
            Step::ProduceHandshakeInitiation { action, .. } => Some(action),
            Step::ProcessReceivedHandshakeInitiation { action, .. } => Some(action),
            Step::InitiatorTokenFetched { action, .. } => Some(action),
            Step::ProcessReceivedHandshakeResponse { action, .. } => Some(action),
            Step::ResponderTokenFetched { action, .. } => Some(action),
            _ => None,
        }
    }

    /// What the operation comes to, where the step ends it.
    pub open spec fn result(self) -> Option<TunnResult> {
        match self {
            Step::HandshakeInitiationProduced { result, .. } => Some(result),
            Step::KeepaliveProduced { result, .. } => Some(result),
            Step::ConsumeCookieReply { result, .. } => Some(result),
            Step::DataOpened { result, .. } => Some(result),
            Step::ValidateDecapsulatedPacket { result, .. } => Some(result),
            _ => match self.action() {
                Some(Action::Return(result)) => Some(result),
                _ => None,
            },
        }
    }

    /// The bytes of the payload that the step hands to a session to encrypt.
    pub open spec fn sealed_bytes(self) -> int {
        match self.action() {
            Some(Action::SealData { slot, payload }) => payload@.len() as int,
            _ => 0,
        }
    }

    /// The bytes of the packet that the step hands to the tunnel interface.
    pub open spec fn delivered_bytes(self) -> int {
        match self.result() {
            Some(TunnResult::WriteToTunnelV4(packet, _)) => packet@.len() as int,
            Some(TunnResult::WriteToTunnelV6(packet, _)) => packet@.len() as int,
            _ => 0,
        }
    }
}

/// Whether `steps` lead through `states`, one after the other.
pub open spec fn is_run(states: Seq<TunnState>, steps: Seq<Step<'_>>) -> bool {
    &&& states.len() == steps.len() + 1
    &&& forall|i: int| 0 <= i < steps.len() ==> (#[trigger] steps[i]).leads(states[i], states[i + 1])
}

/// The bytes of all payloads that the steps hand to sessions to encrypt.
pub open spec fn total_sealed(steps: Seq<Step<'_>>) -> int
    decreases steps.len(),
{
    if steps.len() == 0 {
        0
    } else {
        total_sealed(steps.drop_last()) + steps.last().sealed_bytes()
    }
}

/// The bytes of all packets that the steps hand to the tunnel interface.
pub open spec fn total_delivered(steps: Seq<Step<'_>>) -> int
    decreases steps.len(),
{
    if steps.len() == 0 {
        0
    } else {
        total_delivered(steps.drop_last()) + steps.last().delivered_bytes()
    }
}

/// No packet states a length below zero.
proof fn lemma_stated_length(packet: Seq<u8>)
    requires
        is_ip_packet(packet),
    ensures
        0 <= stated_length(packet) <= packet.len(),
{
    reveal_with_fuel(be_int, 3);
}

/// One step counts what it seals and what it delivers.
proof fn lemma_step_counts(step: Step<'_>, before: TunnState, after: TunnState)
    requires
        step.leads(before, after),
    ensures
        after.tx_bytes == before.tx_bytes + step.sealed_bytes(),
        after.rx_bytes == before.rx_bytes + step.delivered_bytes(),
{
    match step {
        Step::DataOpened { opened: Ok(packet), .. } => {
            if is_ip_packet(packet@) {
                lemma_stated_length(packet@);
            }
        },
        Step::ValidateDecapsulatedPacket { packet, .. } => {
            if is_ip_packet(packet) {
                lemma_stated_length(packet);
            }
        },
        _ => {},
    }
}

/// Over any run, the bytes sent grow by those of the payloads that a session encrypts, each counted
/// when it is sent and not when it waits, and the bytes received grow by those of the packets
/// delivered to the tunnel interface. Handshakes, cookies, keepalives, refused packets and looking
/// at the counters add nothing.
pub proof fn law_counters_add_up_over_a_run(states: Seq<TunnState>, steps: Seq<Step<'_>>)
    requires
        is_run(states, steps),
    ensures
        states.last().tx_bytes == states[0].tx_bytes + total_sealed(steps),
        states.last().rx_bytes == states[0].rx_bytes + total_delivered(steps),
    decreases steps.len(),
{
    if steps.len() > 0 {
        let n = steps.len() - 1;
        let (earlier, first) = (states.drop_last(), steps.drop_last());
        assert forall|i: int| 0 <= i < first.len() implies (#[trigger] first[i]).leads(
            earlier[i],
            earlier[i + 1],
        ) by {
            assert(steps[i].leads(states[i], states[i + 1]));
        }
        law_counters_add_up_over_a_run(earlier, first);
        assert(steps[n].leads(states[n], states[n + 1]));
        lemma_step_counts(steps[n], states[n], states[n + 1]);
    }
}

/// The counters of a tunnel are the sums over everything that happened since it was made.
pub proof fn law_counters_are_sums_since_the_start(
    config: HandshakeConfig,
    status: HandshakeStatus,
    persistent_keepalive: Option<u16>,
    rate_limiter: Option<Arc<RateLimiter>>,
    states: Seq<TunnState>,
    steps: Seq<Step<'_>>,
)
    requires
        is_run(states, steps),
        states[0] == TunnState::started(config, status, persistent_keepalive, rate_limiter),
    ensures
        states.last().tx_bytes == total_sealed(steps),
        states.last().rx_bytes == total_delivered(steps),
{
    law_counters_add_up_over_a_run(states, steps);
}

/// A tunnel stays valid through any run: at no time do more packets wait than may, and each session
/// stands in the slot of its index.
pub proof fn law_every_run_keeps_the_tunnel_valid(states: Seq<TunnState>, steps: Seq<Step<'_>>)
    requires
        is_run(states, steps),
        states[0].wf(),
    ensures
        forall|i: int| 0 <= i < states.len() ==> (#[trigger] states[i]).wf(),
    decreases steps.len(),
{
    if steps.len() > 0 {
        let n = steps.len() - 1;
        let (earlier, first) = (states.drop_last(), steps.drop_last());
        assert forall|i: int| 0 <= i < first.len() implies (#[trigger] first[i]).leads(
            earlier[i],
            earlier[i + 1],
        ) by {
            assert(steps[i].leads(states[i], states[i + 1]));
        }
        law_every_run_keeps_the_tunnel_valid(earlier, first);
        assert(earlier[n].wf());
        assert(steps[n].leads(states[n], states[n + 1]));
        assert forall|i: int| 0 <= i < states.len() implies (#[trigger] states[i]).wf() by {
            if i <= n {
                assert(earlier[i].wf());
            }
        }
    }
}

} // verus!
