//! The tunnel's state as a mathematical value, and the steps that it takes.

use std::sync::Arc;
use vstd::prelude::*;

use crate::errors::WireGuardError;
use crate::packet::{RODT_ID_SIGNATURE_SZ, RODT_ID_SZ};

verus! {

/// number of sessions in the ring, better keep a PoT
pub const N_SESSIONS: usize = 8;

/// Packets that wait for a session, at most.
pub const MAX_QUEUE_DEPTH: usize = 256;

/// The default value to use for rate limiting, when no other rate limiter is defined
pub const PEER_HANDSHAKE_RATE_LIMIT: u64 = 10;

/// What the handshake engine is started with.
#[derive(Copy, Clone)]
pub struct HandshakeConfig {
    pub static_private: [u8; 32],
    pub static_public: [u8; 32],
    pub peer_static_public: [u8; 32],
    /// Where the engine counts the indices of its sessions from.
    pub index: u32,
    pub preshared_key: Option<[u8; 32]>,
    pub rodt_id: [u8; RODT_ID_SZ],
    pub rodt_id_signature: [u8; RODT_ID_SIGNATURE_SZ],
}

/// What the handshake engine says of itself.
#[derive(Debug, Copy, Clone, PartialEq, Eq, Structural)]
pub struct HandshakeStatus {
    /// A handshake is in progress.
    pub in_progress: bool,
    /// The last handshake expired without an answer.
    pub expired: bool,
    /// The round trip time of the last handshake.
    pub last_rtt: Option<u32>,
}

/// What the handshake engine answers: what came of the work, and how the engine stands after it.
#[derive(Debug)]
pub struct HandshakeReply<T> {
    pub outcome: Result<T, WireGuardError>,
    pub status: HandshakeStatus,
}

/// A session with the peer, by the index that it has on this side.
#[derive(Debug, Copy, Clone, PartialEq, Eq, Structural)]
pub struct Session {
    pub local_index: usize,
}

/// A rate limiter, by what it was made with and what tells it from others.
#[derive(Debug, Copy, Clone)]
pub struct RateLimiter {
    pub public_key: [u8; 32],
    pub limit: u64,
    /// What tells a limiter that tunnels share from others made with the same key and limit. One
    /// that a tunnel made for itself has none, and no other tunnel uses it.
    pub identity: Option<u64>,
}

/// The timers that the tunnel restarts.
#[derive(Debug, Copy, Clone, PartialEq, Eq, Structural)]
pub enum TimerName {
    TimeLastHandshakeStarted,
    TimeLastPacketReceived,
    TimeLastPacketSent,
    TimeLastDataPacketReceived,
    TimeLastDataPacketSent,
    TimeCookieReceived,
}

/// What the tunnel tells its timers.
#[derive(Debug, Copy, Clone, PartialEq, Eq, Structural)]
pub enum TimerEvent {
    /// Restart the timer of this name.
    Tick(TimerName),
    /// A session of this index was established, on this side's initiative or not.
    SessionEstablished { is_initiator: bool, index: usize },
    /// Start over.
    Clear,
}

/// The state of a tunnel.
#[verifier::ext_equal]
pub ghost struct TunnState {
    /// What the handshake engine works with.
    pub config: HandshakeConfig,
    /// How the handshake engine stands.
    pub handshake: HandshakeStatus,
    /// The most recent sessions, each in the slot of its index modulo `N_SESSIONS`.
    pub sessions: Seq<Option<Session>>,
    /// Index of the session in use.
    pub current: int,
    /// The packets that wait for a session, oldest first.
    pub queue: Seq<Seq<u8>>,
    pub persistent_keepalive: Option<u16>,
    /// Whether the timers reset the rate limiter.
    pub should_reset_rr: bool,
    /// What the timers have not been told yet, oldest first.
    pub timer_events: Seq<TimerEvent>,
    pub tx_bytes: int,
    pub rx_bytes: int,
    pub rate_limiter: RateLimiter,
}

/// The rate limiter in use where `given` was passed: one made for `public_key` where none was.
pub open spec fn limiter_in_use(given: Option<Arc<RateLimiter>>, public_key: [u8; 32]) -> RateLimiter {
    match given {
        Some(limiter) => *limiter,
        None => RateLimiter { public_key, limit: PEER_HANDSHAKE_RATE_LIMIT, identity: None },
    }
}

/// A ring without sessions.
pub open spec fn no_sessions() -> Seq<Option<Session>> {
    Seq::new(N_SESSIONS as nat, |i: int| None)
}

/// The slot of the session with the index `index`.
pub open spec fn slot_of(index: int) -> int {
    index % N_SESSIONS as int
}

impl TunnState {
    /// A new tunnel.
    pub open spec fn started(
        config: HandshakeConfig,
        handshake: HandshakeStatus,
        persistent_keepalive: Option<u16>,
        rate_limiter: Option<Arc<RateLimiter>>,
    ) -> TunnState {
        TunnState {
            config,
            handshake,
            sessions: no_sessions(),
            current: 0,
            queue: Seq::empty(),
            persistent_keepalive,
            should_reset_rr: rate_limiter is None,
            timer_events: Seq::empty(),
            tx_bytes: 0,
            rx_bytes: 0,
            rate_limiter: limiter_in_use(rate_limiter, config.static_public),
        }
    }

    /// What holds of every tunnel: each session stands in the slot of its index, and no more
    /// packets wait than may.
    pub open spec fn wf(self) -> bool {
        &&& self.sessions.len() == N_SESSIONS
        &&& forall|i: int|
            0 <= i < N_SESSIONS ==> (#[trigger] self.sessions[i] matches Some(s) ==> slot_of(
                s.local_index as int,
            ) == i)
        &&& self.queue.len() <= MAX_QUEUE_DEPTH
    }

    /// The session in the slot of the index `index`.
    pub open spec fn session_at(self, index: int) -> Option<Session> {
        self.sessions[slot_of(index)]
    }

    /// The session in use.
    pub open spec fn current_session(self) -> Option<Session> {
        self.session_at(self.current)
    }

    /// The packet counts of the sessions among the last `n` indices, the one in use first and then
    /// backwards, where `counts` holds those of each slot.
    pub open spec fn counts_back(self, counts: Seq<(u64, u64)>, n: int) -> Seq<(u64, u64)>
        decreases n,
    {
        if n <= 0 {
            Seq::empty()
        } else {
            let newer = self.counts_back(counts, n - 1);
            let index = self.current - (n - 1);
            if self.session_at(index) is Some {
                newer.push(counts[slot_of(index)])
            } else {
                newer
            }
        }
    }

    /// After the timers are to be told `event`.
    pub open spec fn timed(self, event: TimerEvent) -> TunnState {
        TunnState { timer_events: self.timer_events.push(event), ..self }
    }

    /// After the timer `name` is restarted.
    pub open spec fn ticked(self, name: TimerName) -> TunnState {
        self.timed(TimerEvent::Tick(name))
    }

    /// After the handshake engine worked and stands as `status` says.
    pub open spec fn with_handshake(self, status: HandshakeStatus) -> TunnState {
        TunnState { handshake: status, ..self }
    }

    /// After a packet was put at the end of the queue, or dropped where the queue is full.
    pub open spec fn queued(self, packet: Seq<u8>) -> TunnState {
        if self.queue.len() < MAX_QUEUE_DEPTH {
            TunnState { queue: self.queue.push(packet), ..self }
        } else {
            self
        }
    }

    /// After a packet was put at the front of the queue, or dropped where the queue is full.
    pub open spec fn requeued(self, packet: Seq<u8>) -> TunnState {
        if self.queue.len() < MAX_QUEUE_DEPTH {
            TunnState { queue: seq![packet] + self.queue, ..self }
        } else {
            self
        }
    }

    /// After the oldest packet left the queue.
    pub open spec fn dequeued(self) -> TunnState {
        if self.queue.len() > 0 {
            TunnState { queue: self.queue.skip(1), ..self }
        } else {
            self
        }
    }

    /// After the packet `src` went out through the session in use.
    pub open spec fn sent(self, src: Seq<u8>) -> TunnState {
        let ticked = self.ticked(TimerName::TimeLastPacketSent);
        // Keepalive packets are no data
        let ticked = if src.len() > 0 {
            ticked.ticked(TimerName::TimeLastDataPacketSent)
        } else {
            ticked
        };
        TunnState { tx_bytes: self.tx_bytes + src.len(), ..ticked }
    }

    /// After `session` took its slot in the ring.
    pub open spec fn with_session(self, session: Session) -> TunnState {
        TunnState {
            sessions: self.sessions.update(slot_of(session.local_index as int), Some(session)),
            ..self
        }
    }

    /// After the session with the index `new_index` was offered for use: it is taken where the one
    /// in use is gone or is no younger.
    pub open spec fn with_current(self, new_index: int, session_timers: Seq<u128>) -> TunnState {
        if self.current_session() is None || session_timers[slot_of(new_index)]
            >= session_timers[slot_of(self.current)] {
            TunnState { current: new_index, ..self }
        } else {
            self
        }
    }

    /// After the rate limiter was replaced by the given one, or by one made for `public_key`.
    pub open spec fn with_limiter(
        self,
        given: Option<Arc<RateLimiter>>,
        public_key: [u8; 32],
    ) -> TunnState {
        TunnState {
            should_reset_rr: given is None,
            rate_limiter: limiter_in_use(given, public_key),
            ..self
        }
    }

    /// After the tunnel got another key pair: the sessions made with the last one are gone.
    pub open spec fn rekeyed(self, static_private: [u8; 32], static_public: [u8; 32]) -> TunnState {
        TunnState {
            config: HandshakeConfig { static_private, static_public, ..self.config },
            sessions: no_sessions(),
            ..self
        }
    }

    /// After another key pair was handed to the handshake engine, which answered `reply`: the rate
    /// limiter is replaced in any case, the keys where the engine took them.
    pub open spec fn with_keys(
        self,
        static_private: [u8; 32],
        static_public: [u8; 32],
        given: Option<Arc<RateLimiter>>,
        reply: HandshakeReply<()>,
    ) -> TunnState {
        let limited = self.with_limiter(given, static_public).with_handshake(reply.status);
        if reply.outcome is Ok {
            limited.rekeyed(static_private, static_public)
        } else {
            limited
        }
    }

    /// After the timers were told everything.
    pub open spec fn timers_told(self) -> TunnState {
        TunnState { timer_events: Seq::empty(), ..self }
    }

    /// After the work on a handshake initiation was begun, where the timers start over if the last
    /// handshake expired.
    pub open spec fn initiating(self) -> TunnState {
        if self.handshake.expired {
            self.timed(TimerEvent::Clear)
        } else {
            self
        }
    }

    /// After a handshake initiation went out, as the start of a new handshake or not.
    pub open spec fn initiated(self, starting_new_handshake: bool) -> TunnState {
        let started = if starting_new_handshake {
            self.ticked(TimerName::TimeLastHandshakeStarted)
        } else {
            self
        };
        started.ticked(TimerName::TimeLastPacketSent)
    }

    /// After a peer's initiation led to `session`.
    pub open spec fn responded(self, session: Session) -> TunnState {
        self.with_session(session).ticked(TimerName::TimeLastPacketReceived).ticked(
            TimerName::TimeLastPacketSent,
        ).timed(
            TimerEvent::SessionEstablished { is_initiator: false, index: session.local_index },
        )
    }

    /// After a peer's response led to `session`, before it is offered for use.
    pub open spec fn connected(self, session: Session) -> TunnState {
        self.with_session(session).ticked(TimerName::TimeLastPacketReceived).timed(
            TimerEvent::SessionEstablished {
                is_initiator: true,
                index: slot_of(session.local_index as int) as usize,
            },
        )
    }

    /// After an IP packet of `length` bytes came in.
    pub open spec fn received_data(self, length: int) -> TunnState {
        TunnState {
            rx_bytes: self.rx_bytes + length,
            ..self.ticked(TimerName::TimeLastDataPacketReceived)
        }
    }
}

} // verus!
