//! The tunnel.

use std::collections::VecDeque;
use std::sync::Arc;
use vstd::prelude::*;
use vstd::utf8::encode_utf8;

use crate::encoding::view_of;
use crate::errors::WireGuardError;
use crate::packet::{RODT_ID_SIGNATURE_SZ, RODT_ID_SZ};
use crate::rodt::padded_rodt_id;
use crate::state::{
    limiter_in_use, no_sessions, slot_of, HandshakeConfig, HandshakeReply, HandshakeStatus,
    RateLimiter, Session, TimerEvent, TimerName, TunnState, MAX_QUEUE_DEPTH, N_SESSIONS,
    PEER_HANDSHAKE_RATE_LIMIT,
};
use crate::x25519::{public_key, x25519_public_key};

verus! {

broadcast use vstd::slice::axiom_spec_len;

/// Tunnel represents a point-to-point WireGuard connection
pub struct Tunn {
    /// What the handshake engine works with
    config: HandshakeConfig,
    /// How the handshake engine stands
    handshake: HandshakeStatus,
    /// The N_SESSIONS most recent sessions, index is session id modulo N_SESSIONS
    sessions: [Option<Session>; N_SESSIONS],
    /// Index of most recently used session
    current: usize,
    /// Queue to store blocked packets
    packet_queue: VecDeque<Vec<u8>>,
    persistent_keepalive: Option<u16>,
    should_reset_rr: bool,
    /// What the timers have not been told yet
    timer_events: Vec<TimerEvent>,
    tx_bytes: usize,
    rx_bytes: usize,
    rate_limiter: Arc<RateLimiter>,
}

impl View for Tunn {
    type V = TunnState;

    closed spec fn view(&self) -> TunnState {
        TunnState {
            config: self.config,
            handshake: self.handshake,
            sessions: self.sessions@,
            current: self.current as int,
            queue: self.packet_queue@.map_values(|packet: Vec<u8>| packet@),
            persistent_keepalive: self.persistent_keepalive,
            should_reset_rr: self.should_reset_rr,
            timer_events: self.timer_events@,
            tx_bytes: self.tx_bytes as int,
            rx_bytes: self.rx_bytes as int,
            rate_limiter: *self.rate_limiter,
        }
    }
}

impl Tunn {
    /// Push packet to the back of the queue
    pub fn queue_packet(&mut self, packet: &[u8])
        requires
            old(self)@.wf(),
        ensures
            final(self)@ == old(self)@.queued(packet@),
            final(self)@.wf(),
    {
        if self.packet_queue.len() < MAX_QUEUE_DEPTH {
            // Drop if too many are already in queue
            self.packet_queue.push_back(vstd::slice::slice_to_vec(packet));
        }
    }

    /// Push packet to the front of the queue
    pub fn requeue_packet(&mut self, packet: Vec<u8>)
        requires
            old(self)@.wf(),
        ensures
            final(self)@ == old(self)@.requeued(packet@),
            final(self)@.wf(),
    {
        if self.packet_queue.len() < MAX_QUEUE_DEPTH {
            // Drop if too many are already in queue
            self.packet_queue.push_front(packet);
        }
    }

    /// Takes the packet at the front of the queue.
    pub fn dequeue_packet(&mut self) -> (packet: Option<Vec<u8>>)
        requires
            old(self)@.wf(),
        ensures
            view_of(packet) == (if old(self)@.queue.len() > 0 {
                Some(old(self)@.queue[0])
            } else {
                None
            }),
            final(self)@ == old(self)@.dequeued(),
            final(self)@.wf(),
    {
        self.packet_queue.pop_front()
    }

    /// Restarts the timer `name`.
    pub fn timer_tick(&mut self, name: TimerName)
        requires
            old(self)@.wf(),
        ensures
            final(self)@ == old(self)@.ticked(name),
            final(self)@.wf(),
    {
        self.timer_events.push(TimerEvent::Tick(name));
    }

    /// Update the index of the currently used session, if needed
    pub fn set_current_session(&mut self, new_index: usize, session_timers: &[u128; N_SESSIONS])
        requires
            old(self)@.wf(),
        ensures
            final(self)@ == old(self)@.with_current(new_index as int, session_timers@),
            final(self)@.wf(),
    {
        let current_index: usize = self.current;
        if current_index == new_index {
            // There is nothing to do, already using this session, this is the common case
            return;
        }
        if self.sessions[current_index % N_SESSIONS].is_none() || session_timers[new_index
            % N_SESSIONS] >= session_timers[current_index % N_SESSIONS] {
            self.current = new_index;
        }
    }

    /// The slot of the session in use.
    pub(crate) fn current_slot(&self) -> (slot: usize)
        ensures
            slot == slot_of(self@.current),
    {
        self.current % N_SESSIONS
    }

    /// Whether a session stands in the slot.
    pub(crate) fn has_session(&self, slot: usize) -> (present: bool)
        requires
            slot < N_SESSIONS,
        ensures
            present == (self@.sessions[slot as int] is Some),
    {
        self.sessions[slot].is_some()
    }

    /// Whether a session is in use.
    pub fn has_current_session(&self) -> (present: bool)
        ensures
            present == (self@.current_session() is Some),
    {
        self.has_session(self.current_slot())
    }

    /// Adds to the bytes that went out.
    pub(crate) fn count_sent(&mut self, length: usize)
        requires
            old(self)@.wf(),
            old(self)@.tx_bytes + length <= usize::MAX,
        ensures
            final(self)@ == (TunnState { tx_bytes: old(self)@.tx_bytes + length, ..old(self)@ }),
            final(self)@.wf(),
    {
        self.tx_bytes = self.tx_bytes + length;
    }

    /// Adds to the bytes that came in.
    pub(crate) fn count_received(&mut self, length: usize)
        requires
            old(self)@.wf(),
            old(self)@.rx_bytes + length <= usize::MAX,
        ensures
            final(self)@ == (TunnState { rx_bytes: old(self)@.rx_bytes + length, ..old(self)@ }),
            final(self)@.wf(),
    {
        self.rx_bytes = self.rx_bytes + length;
    }

    /// Tells the timers to start over.
    pub(crate) fn clear_timers(&mut self)
        requires
            old(self)@.wf(),
        ensures
            final(self)@ == old(self)@.timed(TimerEvent::Clear),
            final(self)@.wf(),
    {
        self.timer_events.push(TimerEvent::Clear);
    }

    /// Tells the timers that a session was established.
    pub(crate) fn timer_tick_session_established(&mut self, is_initiator: bool, index: usize)
        requires
            old(self)@.wf(),
        ensures
            final(self)@ == old(self)@.timed(TimerEvent::SessionEstablished { is_initiator, index }),
            final(self)@.wf(),
    {
        self.timer_events.push(TimerEvent::SessionEstablished { is_initiator, index });
    }

    /// Puts a session into its slot.
    pub(crate) fn store_session(&mut self, session: Session)
        requires
            old(self)@.wf(),
        ensures
            final(self)@ == old(self)@.with_session(session),
            final(self)@.wf(),
    {
        self.sessions[session.local_index % N_SESSIONS] = Some(session);
    }

    /// Whether a handshake is in progress.
    pub(crate) fn handshake_in_progress(&self) -> (in_progress: bool)
        ensures
            in_progress == self@.handshake.in_progress,
    {
        self.handshake.in_progress
    }

    /// Whether the last handshake expired without an answer.
    pub fn is_expired(&self) -> (expired: bool)
        ensures
            expired == self@.handshake.expired,
    {
        self.handshake.expired
    }

    /// Records how the handshake engine stands, where something else than the tunnel moved it.
    pub fn set_handshake_status(&mut self, status: HandshakeStatus)
        requires
            old(self)@.wf(),
        ensures
            final(self)@ == old(self)@.with_handshake(status),
            final(self)@.wf(),
    {
        self.handshake = status;
    }

    /// What the handshake engine of a new tunnel is started with.
    pub fn handshake_config(
        static_private: [u8; 32],
        peer_static_public: [u8; 32],
        preshared_key: Option<[u8; 32]>,
        string_rodt_id: String,
        rodt_id_signature: [u8; RODT_ID_SIGNATURE_SZ],
        session_index: u32,
    ) -> (config: HandshakeConfig)
        ensures
            config.static_private == static_private,
            config.static_public@ == x25519_public_key(static_private@),
            config.peer_static_public == peer_static_public,
            config.index == (session_index * 0x100) % 0x1_0000_0000,
            config.preshared_key == preshared_key,
            config.rodt_id@ == padded_rodt_id(encode_utf8(string_rodt_id@)),
            config.rodt_id_signature == rodt_id_signature,
    {
        let bytes_rodt_id: &[u8] = string_rodt_id.as_str().as_bytes();
        let mut rodt_id: [u8; RODT_ID_SZ] = [0u8; RODT_ID_SZ];
        let rodt_length: usize = if bytes_rodt_id.len() < RODT_ID_SZ - 1 {
            bytes_rodt_id.len()
        } else {
            RODT_ID_SZ - 1
        };
        for i in 0..rodt_length
            invariant
                rodt_length < RODT_ID_SZ,
                rodt_length <= bytes_rodt_id@.len(),
                forall|j: int| 0 <= j < i ==> rodt_id@[j] == bytes_rodt_id@[j],
                forall|j: int| i <= j < RODT_ID_SZ ==> rodt_id@[j] == 0,
        {
            rodt_id[i] = bytes_rodt_id[i];
        }
        assert(rodt_id@ =~= padded_rodt_id(encode_utf8(string_rodt_id@)));
        assert((session_index << 8) == (session_index * 0x100) % 0x1_0000_0000) by (bit_vector);
        HandshakeConfig {
            static_private,
            static_public: public_key(&static_private),
            peer_static_public,
            index: session_index << 8,
            preshared_key,
            rodt_id,
            rodt_id_signature,
        }
    }

    /// Create a new tunnel using own private key and the peer public key, where starting the
    /// handshake engine with [`Tunn::handshake_config`] led to `started`.
    pub fn new(
        static_private: [u8; 32],
        peer_static_public: [u8; 32],
        preshared_key: Option<[u8; 32]>,
        string_rodt_id: String,
        rodt_id_signature: [u8; RODT_ID_SIGNATURE_SZ],
        persistent_keepalive: Option<u16>,
        session_index: u32,
        rate_limiter: Option<Arc<RateLimiter>>,
        started: Result<HandshakeStatus, WireGuardError>,
    ) -> (tunn: Result<Tunn, &'static str>)
        ensures
            match started {
                Err(_) => tunn == Err::<Tunn, &'static str>("Error: Invalid parameters"),
                Ok(status) => {
                    &&& tunn matches Ok(t)
                    &&& t@.wf()
                    &&& t@.config.static_private == static_private
                    &&& t@.config.static_public@ == x25519_public_key(static_private@)
                    &&& t@.config.peer_static_public == peer_static_public
                    &&& t@.config.index == (session_index * 0x100) % 0x1_0000_0000
                    &&& t@.config.preshared_key == preshared_key
                    &&& t@.config.rodt_id@ == padded_rodt_id(encode_utf8(string_rodt_id@))
                    &&& t@.config.rodt_id_signature == rodt_id_signature
                    &&& t@ == TunnState::started(
                        t@.config,
                        status,
                        persistent_keepalive,
                        rate_limiter,
                    )
                },
            },
    {
        let config: HandshakeConfig = Tunn::handshake_config(
            static_private,
            peer_static_public,
            preshared_key,
            string_rodt_id,
            rodt_id_signature,
            session_index,
        );
        match started {
            Err(_) => Err("Error: Invalid parameters"),
            Ok(handshake) => {
                let tunn: Tunn = Tunn {
                    config,
                    handshake,
                    sessions: [None, None, None, None, None, None, None, None],
                    current: 0,
                    packet_queue: VecDeque::new(),
                    persistent_keepalive,
                    should_reset_rr: rate_limiter.is_none(),
                    timer_events: Vec::new(),
                    tx_bytes: 0,
                    rx_bytes: 0,
                    rate_limiter: limiter_or_default(rate_limiter, config.static_public),
                };
                assert(tunn@.sessions =~= no_sessions());
                assert(tunn@.queue =~= Seq::<Seq<u8>>::empty());
                Ok(tunn)
            },
        }
    }

    /// Update the private key and clear existing sessions, where handing the keys to the handshake
    /// engine led to `rekeyed`. The rate limiter is replaced even if the engine refuses the keys.
    pub fn set_static_private(
        &mut self,
        own_staticsecret_private_key: [u8; 32],
        own_publickey_public_key: [u8; 32],
        rate_limiter: Option<Arc<RateLimiter>>,
        rekeyed: HandshakeReply<()>,
    ) -> (result: Result<(), WireGuardError>)
        requires
            old(self)@.wf(),
        ensures
            result == rekeyed.outcome,
            final(self)@ == old(self)@.with_keys(
                own_staticsecret_private_key,
                own_publickey_public_key,
                rate_limiter,
                rekeyed,
            ),
            final(self)@.wf(),
    {
        self.should_reset_rr = rate_limiter.is_none();
        self.rate_limiter = limiter_or_default(rate_limiter, own_publickey_public_key);
        self.handshake = rekeyed.status;
        if rekeyed.outcome.is_ok() {
            self.config.static_private = own_staticsecret_private_key;
            self.config.static_public = own_publickey_public_key;
            self.sessions = [None, None, None, None, None, None, None, None];
            assert(self@.sessions =~= no_sessions());
        }
        rekeyed.outcome
    }

    /// Hands out what the timers have not been told yet, oldest first.
    pub fn take_timer_events(&mut self) -> (events: Vec<TimerEvent>)
        requires
            old(self)@.wf(),
        ensures
            events@ == old(self)@.timer_events,
            final(self)@ == old(self)@.timers_told(),
            final(self)@.wf(),
    {
        let mut events: Vec<TimerEvent> = Vec::new();
        std::mem::swap(&mut events, &mut self.timer_events);
        events
    }

    /// The packet counts from which the loss is estimated: those of the sessions in the ring, the
    /// one in use first and then backwards, where `packet_counts` holds for each slot how many
    /// packets its session expected and received.
    pub fn loss_samples(&self, packet_counts: &[(u64, u64); N_SESSIONS]) -> (samples: Vec<(u64, u64)>)
        requires
            self@.wf(),
        ensures
            samples@ == self@.counts_back(packet_counts@, N_SESSIONS as int),
    {
        let session_index: usize = self.current;
        let mut samples: Vec<(u64, u64)> = Vec::new();
        for i in 0..N_SESSIONS
            invariant
                self@.wf(),
                session_index == self.current,
                samples@ == self@.counts_back(packet_counts@, i as int),
        {
            let slot: usize = slot_back(session_index, i);
            if self.sessions[slot].is_some() {
                samples.push(packet_counts[slot]);
            }
        }
        samples
    }

    /// Return stats from the tunnel:
    /// * Time since last handshake, as the timers give it
    /// * Data bytes sent
    /// * Data bytes received
    /// * The packet counts from which the loss is estimated
    /// * The round trip time of the last handshake
    pub fn stats(
        &self,
        time: Option<std::time::Duration>,
        packet_counts: &[(u64, u64); N_SESSIONS],
    ) -> (stats: (Option<std::time::Duration>, usize, usize, Vec<(u64, u64)>, Option<u32>))
        requires
            self@.wf(),
        ensures
            stats.0 == time,
            stats.1 == self@.tx_bytes,
            stats.2 == self@.rx_bytes,
            stats.3@ == self@.counts_back(packet_counts@, N_SESSIONS as int),
            stats.4 == self@.handshake.last_rtt,
    {
        let samples: Vec<(u64, u64)> = self.loss_samples(packet_counts);
        (time, self.tx_bytes, self.rx_bytes, samples, self.handshake.last_rtt)
    }

    /// What the handshake engine works with.
    pub fn config(&self) -> (config: HandshakeConfig)
        ensures
            config == self@.config,
    {
        self.config
    }

    /// The rate limiter in use.
    pub fn rate_limiter(&self) -> (limiter: Arc<RateLimiter>)
        ensures
            *limiter == self@.rate_limiter,
    {
        self.rate_limiter.clone()
    }

    /// What the timers go by: the keepalive interval, and whether they reset the rate limiter.
    pub fn timer_settings(&self) -> (settings: (Option<u16>, bool))
        ensures
            settings.0 == self@.persistent_keepalive,
            settings.1 == self@.should_reset_rr,
    {
        (self.persistent_keepalive, self.should_reset_rr)
    }
}

/// The slot of the index `back` places before `index`.
fn slot_back(index: usize, back: usize) -> (slot: usize)
    ensures
        slot == slot_of(index - back),
        slot < N_SESSIONS,
{
    proof {
        let difference = index - back;
        assert((difference + 0x1_0000_0000) % 8 == difference % 8);
        assert((difference + 0x1_0000_0000_0000_0000) % 8 == difference % 8);
    }
    index.wrapping_sub(back) % N_SESSIONS
}

/// The given rate limiter, or one made for `public_key` where none is given. A limiter is told from
/// others by its `identity`; that the very allocation is handed on is left unsaid, since contracts
/// compare what two `Arc`s hold.
fn limiter_or_default(given: Option<Arc<RateLimiter>>, public_key: [u8; 32]) -> (limiter: Arc<
    RateLimiter,
>)
    ensures
        *limiter == limiter_in_use(given, public_key),
{
    match given {
        Some(limiter) => limiter,
        None => Arc::new(
            RateLimiter { public_key, limit: PEER_HANDSHAKE_RATE_LIMIT, identity: None },
        ),
    }
}

} // verus!
