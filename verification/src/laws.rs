//! What holds of the tunnel across several of its operations.

use vstd::prelude::*;

use crate::action::{Action, TunnResult};
use crate::bytes::le_int;
use crate::encoding::view_of;
use crate::packet::{packet_of, HANDSHAKE_INIT_SZ, HANDSHAKE_RESP_SZ};
use crate::state::{
    slot_of, HandshakeReply, HandshakeStatus, Session, TunnState, MAX_QUEUE_DEPTH, N_SESSIONS,
};
use crate::validity::{day_of, is_within};

verus! {

/// The state after each of `packets` was queued, the first one first.
pub open spec fn queued_all(s: TunnState, packets: Seq<Seq<u8>>) -> TunnState
    decreases packets.len(),
{
    if packets.len() == 0 {
        s
    } else {
        queued_all(s, packets.drop_last()).queued(packets.last())
    }
}

/// Packets wait in the order in which they came, and those that come while as many wait as may
/// are dropped.
pub proof fn law_queue_keeps_order(s: TunnState, packets: Seq<Seq<u8>>)
    requires
        s.wf(),
    ensures
        ({
            let room = MAX_QUEUE_DEPTH - s.queue.len();
            let kept = if packets.len() <= room {
                packets
            } else {
                packets.take(room)
            };
            queued_all(s, packets) == TunnState { queue: s.queue + kept, ..s }
        }),
    decreases packets.len(),
{
    if packets.len() == 0 {
        assert(s.queue + packets =~= s.queue);
    } else {
        let room = MAX_QUEUE_DEPTH - s.queue.len();
        law_queue_keeps_order(s, packets.drop_last());
        let kept = if packets.len() <= room {
            packets
        } else {
            packets.take(room)
        };
        if packets.len() <= room {
            assert((s.queue + packets.drop_last()).push(packets.last()) =~= s.queue + kept);
        } else if packets.len() == room + 1 {
            assert(packets.drop_last() =~= kept);
        } else {
            assert(packets.drop_last().take(room) =~= kept);
        }
    }
}

/// Putting a packet back undoes taking it out.
pub proof fn law_requeue_undoes_dequeue(s: TunnState)
    requires
        s.wf(),
        s.queue.len() > 0,
    ensures
        s.dequeued().requeued(s.queue[0]) == s,
{
    assert(seq![s.queue[0]] + s.queue.skip(1) =~= s.queue);
}

/// The bytes of all packets together.
pub open spec fn total_length(packets: Seq<Seq<u8>>) -> int
    decreases packets.len(),
{
    if packets.len() == 0 {
        0
    } else {
        packets[0].len() + total_length(packets.skip(1))
    }
}

/// While a session is in use, repeated calls with an empty datagram send every packet that waits
/// through that session, oldest first and unchanged, and the call after the last of them comes to
/// `Done`. `states` are the states between the calls, `actions` is what the calls lead to.
pub proof fn law_repeated_calls_drain_the_queue(
    states: Seq<TunnState>,
    actions: Seq<Action<'static>>,
)
    requires
        states.len() == actions.len() + 1,
        states[0].wf(),
        states[0].current_session() is Some,
        actions.len() == states[0].queue.len() + 1,
        forall|i: int|
            0 <= i < actions.len() ==> (#[trigger] actions[i]).sends_queued(states[i], states[i + 1]),
    ensures
        forall|i: int|
            0 <= i < states[0].queue.len() ==> {
                &&& #[trigger] actions[i] matches Action::SealData { slot, payload }
                &&& slot == slot_of(states[0].current)
                &&& payload@ == states[0].queue[i]
            },
        actions.last() == Action::Return(TunnResult::Done),
        states.last().queue.len() == 0,
        states.last().tx_bytes == states[0].tx_bytes + total_length(states[0].queue),
        states.last().sessions == states[0].sessions,
        states.last().current == states[0].current,
    decreases actions.len(),
{
    let first = states[0];
    assert(actions[0].sends_queued(states[0], states[1]));
    if first.queue.len() > 0 {
        let rest = states.skip(1);
        let later = actions.skip(1);
        assert(rest[0] == first.dequeued().sent(first.queue[0]));
        assert forall|i: int| 0 <= i < later.len() implies (#[trigger] later[i]).sends_queued(
            rest[i],
            rest[i + 1],
        ) by {
            assert(actions[i + 1].sends_queued(states[i + 1], states[i + 2]));
        }
        law_repeated_calls_drain_the_queue(rest, later);
        assert forall|i: int| 0 <= i < first.queue.len() implies {
            &&& #[trigger] actions[i] matches Action::SealData { slot, payload }
            &&& slot == slot_of(first.current)
            &&& payload@ == first.queue[i]
        } by {
            if i > 0 {
                assert(actions[i] == later[i - 1]);
                assert(rest[0].queue[i - 1] == first.queue[i]);
            }
        }
    }
}

/// Without a session, and while a handshake is in progress, a call with an empty datagram comes to
/// `Done` and loses no packet: the oldest one moves to the end of the queue.
pub proof fn law_waiting_packets_stay_without_session(
    before: TunnState,
    action: Action<'static>,
    after: TunnState,
)
    requires
        before.wf(),
        before.current_session() is None,
        before.handshake.in_progress,
        action.sends_queued(before, after),
    ensures
        action == Action::Return(TunnResult::Done),
        after == (TunnState {
            queue: if before.queue.len() > 0 {
                before.queue.skip(1).push(before.queue[0])
            } else {
                before.queue
            },
            ..before
        }),
        after.queue.to_multiset() == before.queue.to_multiset(),
{
    broadcast use vstd::seq_lib::group_to_multiset_ensures;

    if before.queue.len() > 0 {
        let first = before.queue[0];
        let rest = before.queue.skip(1);
        assert(before.queue =~= seq![first] + rest);
        vstd::seq_lib::lemma_multiset_commutative(seq![first], rest);
        vstd::seq_lib::lemma_multiset_commutative(rest, seq![first]);
        assert(rest.push(first) =~= rest + seq![first]);
    }
}

/// Without a session, and before a handshake is in progress, a call with an empty datagram asks for
/// a handshake, and once that is in progress the next call comes to `Done`. No packet is lost.
pub proof fn law_repeated_calls_end_without_session(
    before: TunnState,
    first: Action<'static>,
    requested: TunnState,
    status: HandshakeStatus,
    second: Action<'static>,
    after: TunnState,
)
    requires
        before.wf(),
        before.current_session() is None,
        !before.handshake.in_progress,
        before.queue.len() > 0,
        first.sends_queued(before, requested),
        status.in_progress,
        second.sends_queued(requested.with_handshake(status).initiated(true), after),
    ensures
        first matches Action::ProduceInitiation(work) && work.starting_new_handshake && view_of(
            work.requeue,
        ) == Some(before.queue[0]),
        second == Action::Return(TunnResult::Done),
        after.queue.to_multiset() == before.queue.to_multiset(),
{
    let busy = TunnState { handshake: status, ..before };
    let rotated = before.queue.skip(1).push(before.queue[0]);
    law_waiting_packets_stay_without_session(
        busy,
        Action::Return(TunnResult::Done),
        TunnState { queue: rotated, ..busy },
    );
    law_waiting_packets_stay_without_session(
        requested.with_handshake(status).initiated(true),
        second,
        after,
    );
}

/// A session that took its slot is found at its index, and stays until another session takes the
/// same slot.
pub proof fn law_session_is_found_at_its_index(s: TunnState, session: Session, other: Session)
    requires
        s.wf(),
    ensures
        s.with_session(session).session_at(session.local_index as int) == Some(session),
        s.with_session(session).wf(),
        slot_of(other.local_index as int) != slot_of(session.local_index as int)
            ==> s.with_session(session).with_session(other).session_at(session.local_index as int)
            == Some(session),
{
}

/// The state after `n` sessions of consecutive indices were established, from the index `first` on.
pub open spec fn stored_all(s: TunnState, first: int, n: int) -> TunnState
    decreases n,
{
    if n <= 0 {
        s
    } else {
        stored_all(s, first, n - 1).with_session(Session { local_index: (first + n - 1) as usize })
    }
}

/// Of sessions that were established one after the other, the ring holds the `N_SESSIONS` most
/// recent.
pub proof fn law_ring_keeps_the_most_recent_sessions(s: TunnState, first: int, n: int)
    requires
        s.wf(),
        0 <= first,
        0 <= n,
        first + n <= usize::MAX,
    ensures
        stored_all(s, first, n).wf(),
        forall|index: int|
            first <= index < first + n && first + n - N_SESSIONS <= index
                ==> #[trigger] stored_all(s, first, n).session_at(index) == Some(
                Session { local_index: index as usize },
            ),
    decreases n,
{
    if n > 0 {
        law_ring_keeps_the_most_recent_sessions(s, first, n - 1);
        let last = first + n - 1;
        let before = stored_all(s, first, n - 1);
        let after = stored_all(s, first, n);
        assert forall|index: int| first <= index < first + n && first + n - N_SESSIONS <= index implies
            #[trigger] after.session_at(index) == Some(Session { local_index: index as usize }) by {
            if index < last {
                assert(before.session_at(index) == Some(Session { local_index: index as usize }));
                assert(slot_of(index) != slot_of(last));
            }
        }
    }
}

/// A new key pair leaves no session.
pub proof fn law_no_session_survives_a_new_key(
    s: TunnState,
    static_private: [u8; 32],
    static_public: [u8; 32],
    index: int,
)
    ensures
        s.rekeyed(static_private, static_public).session_at(index) is None,
{
}

/// The session that a peer's response led to is in use once it is offered, where no session was in
/// use or the one in use is no younger.
pub proof fn law_established_session_comes_into_use(
    s: TunnState,
    session: Session,
    session_timers: Seq<u128>,
)
    requires
        s.wf(),
        s.current_session() is None || session_timers[slot_of(session.local_index as int)]
            >= session_timers[slot_of(s.current)],
    ensures
        s.connected(session).with_current(
            session.local_index as int,
            session_timers,
        ).current_session() == Some(session),
{
}

/// While a session is in use, the use never passes to a session that was established earlier.
pub proof fn law_use_passes_to_no_older_session(
    s: TunnState,
    new_index: int,
    session_timers: Seq<u128>,
)
    requires
        s.wf(),
        s.current_session() is Some,
    ensures
        session_timers[slot_of(s.with_current(new_index, session_timers).current)]
            >= session_timers[slot_of(s.current)],
{
}

/// A packet that finds no session goes out unchanged through the session that the handshake which
/// it caused leads to: the first call with an empty datagram sends it, where no other packet waits.
pub proof fn law_blocked_packet_goes_out_after_the_handshake(
    s: TunnState,
    src: Seq<u8>,
    request: Action<'static>,
    requested: TunnState,
    initiated: HandshakeStatus,
    answered: HandshakeStatus,
    session: Session,
    session_timers: Seq<u128>,
    action: Action<'static>,
    after: TunnState,
)
    requires
        s.wf(),
        s.current_session() is None,
        s.queue.len() == 0,
        !s.handshake.in_progress,
        request.encapsulates(s, src, None, requested),
        action.sends_queued(
            requested.with_handshake(initiated).initiated(true).with_handshake(answered).connected(
                session,
            ).with_current(session.local_index as int, session_timers),
            after,
        ),
    ensures
        request matches Action::ProduceInitiation(work) && work.starting_new_handshake,
        action matches Action::SealData { slot, payload } && slot == slot_of(
            session.local_index as int,
        ) && payload@ == src,
        after.queue.len() == 0,
        after.tx_bytes == s.tx_bytes + src.len(),
{
}

/// The counts of fewer indices are the start of those of more.
proof fn lemma_counts_back_prefix(s: TunnState, counts: Seq<(u64, u64)>, n: int, m: int)
    requires
        0 <= n <= m,
    ensures
        s.counts_back(counts, n).is_prefix_of(s.counts_back(counts, m)),
        s.counts_back(counts, m).len() <= m,
    decreases m,
{
    if m > 0 {
        if n < m {
            lemma_counts_back_prefix(s, counts, n, m - 1);
        } else {
            lemma_counts_back_prefix(s, counts, n - 1, m - 1);
        }
    }
}

/// The loss is estimated from every session in the ring, and first from the one in use.
pub proof fn law_loss_is_sampled_from_every_session(s: TunnState, counts: Seq<(u64, u64)>, slot: int)
    requires
        s.wf(),
        0 <= slot < N_SESSIONS,
    ensures
        s.counts_back(counts, N_SESSIONS as int).len() <= N_SESSIONS,
        s.sessions[slot] is Some ==> s.counts_back(counts, N_SESSIONS as int).contains(counts[slot]),
        s.current_session() is Some ==> s.counts_back(counts, N_SESSIONS as int)[0]
            == counts[slot_of(s.current)],
{
    let n = (s.current - slot) % (N_SESSIONS as int) + 1;
    let all = s.counts_back(counts, N_SESSIONS as int);
    let upto = s.counts_back(counts, n);
    lemma_counts_back_prefix(s, counts, n, N_SESSIONS as int);
    lemma_counts_back_prefix(s, counts, 1, N_SESSIONS as int);
    assert(slot_of(s.current - (n - 1)) == slot);
    if s.sessions[slot] is Some {
        assert(upto.last() == counts[slot]);
        assert(all[upto.len() - 1] == counts[slot]);
    }
    if s.current_session() is Some {
        let first = s.counts_back(counts, 1);
        assert(s.counts_back(counts, 0) =~= Seq::empty());
        assert(first[0] == counts[slot_of(s.current)]);
        assert(all[0] == first[0]);
    }
}

/// Asking for a handshake starts one where none is in progress. Once the initiation went out and the
/// handshake engine reports one in progress, asking again comes to `Done` and changes nothing, and
/// only a forced request leads to another initiation, which starts no new handshake.
pub proof fn law_one_handshake_at_a_time(
    s: TunnState,
    force_first: bool,
    first: Action<'static>,
    requested: TunnState,
    packet: Vec<u8>,
    status: HandshakeStatus,
    result: TunnResult,
    initiated: TunnState,
    again: Action<'static>,
    after_again: TunnState,
    forced: Action<'static>,
    after_forced: TunnState,
    second_packet: Vec<u8>,
    second_status: HandshakeStatus,
    second_result: TunnResult,
    after: TunnState,
)
    requires
        !s.handshake.in_progress,
        first.requests_initiation(s, force_first, None, requested),
        status.in_progress,
        first matches Action::ProduceInitiation(work) ==> result.initiates(
            requested,
            work,
            HandshakeReply { outcome: Ok(packet), status },
            initiated,
        ),
        again.requests_initiation(initiated, false, None, after_again),
        forced.requests_initiation(after_again, true, None, after_forced),
        forced matches Action::ProduceInitiation(work) ==> second_result.initiates(
            after_forced,
            work,
            HandshakeReply { outcome: Ok(second_packet), status: second_status },
            after,
        ),
    ensures
        first matches Action::ProduceInitiation(work) && work.starting_new_handshake,
        result == TunnResult::WriteToNetwork(packet),
        again == Action::Return(TunnResult::Done),
        after_again == initiated,
        forced matches Action::ProduceInitiation(work) && !work.starting_new_handshake && work.requeue
            is None,
        second_result == TunnResult::WriteToNetwork(second_packet),
{
}

/// Every message starts with the number of its kind and three zero bytes.
pub proof fn law_messages_have_zero_reserved_bytes(src: Seq<u8>)
    requires
        packet_of(src) is Some,
    ensures
        1 <= src[0] <= 4,
        src[1] == 0,
        src[2] == 0,
        src[3] == 0,
{
    let t = src.subrange(0, 4);
    reveal_with_fuel(le_int, 5);
    assert(t.skip(1).skip(1).skip(1).skip(1).len() == 0);
    assert(t.skip(1)[0] == src[1]);
    assert(t.skip(1).skip(1)[0] == src[2]);
    assert(t.skip(1).skip(1).skip(1)[0] == src[3]);
}

/// The last 32 bytes of a handshake message, which authenticate it, are no part of what is read
/// of it.
pub proof fn law_authentication_codes_are_not_read(a: Seq<u8>, b: Seq<u8>)
    requires
        a.len() == b.len(),
        a.len() == HANDSHAKE_INIT_SZ || a.len() == HANDSHAKE_RESP_SZ,
        a.take(a.len() - 32) == b.take(b.len() - 32),
        packet_of(a) is Some,
        le_int(a.subrange(0, 4)) <= 2,
    ensures
        packet_of(a) == packet_of(b),
{
    let n = a.len() - 32;
    assert forall|i: int, j: int| 0 <= i <= j <= n implies #[trigger] a.subrange(i, j) == b.subrange(
        i,
        j,
    ) by {
        assert(a.subrange(i, j) =~= a.take(n).subrange(i, j));
        assert(b.subrange(i, j) =~= b.take(n).subrange(i, j));
    }
}

/// Byte strings of one length that write one number are the same.
proof fn lemma_le_int_injective(a: Seq<u8>, b: Seq<u8>)
    requires
        a.len() == b.len(),
        le_int(a) == le_int(b),
    ensures
        a == b,
    decreases a.len(),
{
    if a.len() > 0 {
        assert(a[0] == b[0]);
        lemma_le_int_injective(a.skip(1), b.skip(1));
        assert(a =~= seq![a[0]] + a.skip(1));
        assert(b =~= seq![b[0]] + b.skip(1));
    } else {
        assert(a =~= b);
    }
}

/// Of a cookie reply and of a data message no byte is lost: two datagrams that are read as the same
/// one are the same.
pub proof fn law_cookie_and_data_messages_keep_every_byte(a: Seq<u8>, b: Seq<u8>)
    requires
        packet_of(a) is Some,
        packet_of(a)->0 is PacketCookieReply || packet_of(a)->0 is PacketData,
        packet_of(a) == packet_of(b),
    ensures
        a == b,
{
    lemma_le_int_injective(a.subrange(0, 4), b.subrange(0, 4));
    lemma_le_int_injective(a.subrange(4, 8), b.subrange(4, 8));
    if packet_of(a)->0 is PacketCookieReply {
        assert(a =~= a.subrange(0, 4) + a.subrange(4, 8) + a.subrange(8, 32) + a.subrange(32, 64));
        assert(b =~= b.subrange(0, 4) + b.subrange(4, 8) + b.subrange(8, 32) + b.subrange(32, 64));
    } else {
        lemma_le_int_injective(a.subrange(8, 16), b.subrange(8, 16));
        assert(a =~= a.subrange(0, 4) + a.subrange(4, 8) + a.subrange(8, 16) + a.skip(16));
        assert(b =~= b.subrange(0, 4) + b.subrange(4, 8) + b.subrange(8, 16) + b.skip(16));
    }
}

/// Whether times lie within a token's dates is decided by an interval: what lies between two such
/// times is one.
pub proof fn law_validity_is_an_interval(
    notafter: int,
    notbefore: int,
    earlier: int,
    time: int,
    later: int,
)
    requires
        is_within(notafter, notbefore, earlier),
        is_within(notafter, notbefore, later),
        earlier <= time <= later,
    ensures
        is_within(notafter, notbefore, time),
{
    assert(day_of(earlier) <= day_of(time) <= day_of(later));
}

} // verus!
