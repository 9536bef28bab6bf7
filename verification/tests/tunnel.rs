use cableguard::{
    Action, HandshakeReply, HandshakeStatus, Packet, PacketCheck, PendingInitiation,
    PendingResponse, RateLimiter, Rodt, Session, TimerEvent, TimerName, Tunn, TunnResult,
    WireGuardError, MAX_QUEUE_DEPTH,
};
use ed25519_dalek::{ExpandedSecretKey, SecretKey};
use rand_core::{OsRng, RngCore};
use std::sync::Arc;

const IDLE: HandshakeStatus = HandshakeStatus { in_progress: false, expired: false, last_rtt: None };
const BUSY: HandshakeStatus = HandshakeStatus { in_progress: true, expired: false, last_rtt: None };
const EXPIRED: HandshakeStatus = HandshakeStatus { in_progress: false, expired: true, last_rtt: None };

/// What a peer's token says, and how the peer signed it.
fn signed_token(secret: u8, id: &str) -> (String, [u8; 64]) {
    let secret = SecretKey::from_bytes(&[secret; 32]).unwrap();
    let public = ed25519_dalek::PublicKey::from(&secret);
    let signature = ExpandedSecretKey::from(&secret).sign(id.as_bytes(), &public);
    (hex::encode(public.to_bytes()), signature.to_bytes())
}

fn token(owner_id: &str) -> Option<Rodt> {
    Some(Rodt { owner_id: owner_id.to_string() })
}

/// A tunnel and plain stand-ins for the engines that work for it. The sessions hide nothing.
struct Peer {
    tunn: Tunn,
    /// The index of each session at the other end
    remote: [u32; 8],
    session_timers: [u128; 8],
    clock: u128,
    next_index: u32,
    /// The owner of the other end's token
    peer_owner: String,
    requests: Vec<String>,
}

impl Peer {
    fn new(
        static_private: [u8; 32],
        peer_static_public: [u8; 32],
        id: &str,
        rodt_id_signature: [u8; 64],
        peer_owner: String,
        index: u32,
    ) -> Peer {
        let tunn = Tunn::new(
            static_private,
            peer_static_public,
            None,
            id.to_string(),
            rodt_id_signature,
            None,
            index,
            None,
            Ok(IDLE),
        )
        .unwrap();
        let next_index = tunn.config().index;
        Peer {
            tunn,
            remote: [0; 8],
            session_timers: [0; 8],
            clock: 0,
            next_index,
            peer_owner,
            requests: Vec::new(),
        }
    }

    fn new_index(&mut self) -> u32 {
        self.next_index = (self.next_index & 0xffff_ff00) | (self.next_index.wrapping_add(1) & 0xff);
        self.next_index
    }

    fn tell_timers(&mut self) {
        for event in self.tunn.take_timer_events() {
            self.clock += 1;
            if let TimerEvent::SessionEstablished { index, .. } = event {
                self.session_timers[index % 8] = self.clock;
            }
        }
    }

    fn write_initiation(&mut self) -> Vec<u8> {
        let config = self.tunn.config();
        let mut packet = vec![1, 0, 0, 0];
        packet.extend_from_slice(&self.new_index().to_le_bytes());
        packet.extend_from_slice(&[0x11; 32 + 48 + 28]);
        packet.extend_from_slice(&config.rodt_id);
        packet.extend_from_slice(&config.rodt_id_signature);
        packet.extend_from_slice(&[0x22; 32]);
        packet
    }

    fn write_response(&mut self, local_index: u32, remote_index: u32) -> Vec<u8> {
        let config = self.tunn.config();
        let mut packet = vec![2, 0, 0, 0];
        packet.extend_from_slice(&local_index.to_le_bytes());
        packet.extend_from_slice(&remote_index.to_le_bytes());
        packet.extend_from_slice(&[0x33; 32 + 16]);
        packet.extend_from_slice(&config.rodt_id);
        packet.extend_from_slice(&config.rodt_id_signature);
        packet.extend_from_slice(&[0x44; 32]);
        packet
    }

    fn seal(&self, slot: usize, payload: &[u8]) -> Vec<u8> {
        let mut packet = vec![4, 0, 0, 0];
        packet.extend_from_slice(&self.remote[slot].to_le_bytes());
        packet.extend_from_slice(&[0; 8]);
        packet.extend(payload.iter().map(|byte| byte ^ 0x5a));
        packet.extend_from_slice(&[0x55; 16]);
        packet
    }

    fn drive<'a>(&mut self, first: Action<'a>, datagram: &'a [u8]) -> TunnResult {
        let mut action = first;
        loop {
            action = match action {
                Action::Return(result) => {
                    self.tell_timers();
                    return result;
                }
                Action::Exit(code) => panic!("exit {}", code),
                Action::CheckPacket => {
                    let check = match Tunn::consume_incoming_packet(datagram) {
                        Ok(packet) => PacketCheck::Accepted(packet),
                        Err(e) => PacketCheck::Rejected(e),
                    };
                    self.tunn.packet_checked(check)
                }
                Action::ConsumeInitiation(p) => {
                    let local_index = self.new_index();
                    self.remote[local_index as usize % 8] = p.sender_session_index;
                    let packet = self.write_response(local_index, p.sender_session_index);
                    let session = Session { local_index: local_index as usize };
                    let reply = HandshakeReply { outcome: Ok((packet, session)), status: IDLE };
                    self.tunn.process_received_handshake_initiation(p, reply)
                }
                Action::ConsumeResponse(p) => {
                    let local_index = p.receiver_session_index as usize;
                    self.remote[local_index % 8] = p.sender_session_index;
                    let reply = HandshakeReply { outcome: Ok(Session { local_index }), status: IDLE };
                    self.tunn.process_received_handshake_response(p, reply)
                }
                Action::ReceiveCookieReply(_) => {
                    let reply = HandshakeReply { outcome: Ok(()), status: BUSY };
                    Action::Return(self.tunn.consume_cookie_reply(reply))
                }
                Action::OpenData { packet, .. } => {
                    let sealed = packet.encrypted_encapsulated_packet;
                    let opened = sealed[..sealed.len() - 16].iter().map(|byte| byte ^ 0x5a).collect();
                    self.tell_timers();
                    let index = packet.receiver_session_index;
                    let timers = self.session_timers;
                    Action::Return(self.tunn.data_opened(index, Ok(opened), &timers))
                }
                Action::SealData { slot, payload } => {
                    Action::Return(TunnResult::WriteToNetwork(self.seal(slot, &payload)))
                }
                Action::ProduceInitiation(work) => {
                    let packet = self.write_initiation();
                    let reply = HandshakeReply { outcome: Ok(packet), status: BUSY };
                    Action::Return(self.tunn.handshake_initiation_produced(work, reply))
                }
                Action::FindInitiatorToken { request, pending } => {
                    self.requests.push(request);
                    Tunn::initiator_token_found(pending, token(&self.peer_owner))
                }
                Action::FetchInitiatorToken { request, pending } => {
                    self.requests.push(request);
                    self.tunn.initiator_token_fetched(pending, token(&self.peer_owner))
                }
                Action::FetchResponderToken { request, response } => {
                    self.requests.push(request);
                    self.tunn.responder_token_fetched(response, token(&self.peer_owner))
                }
                Action::SealKeepalive { slot, local_index } => {
                    let packet = self.seal(slot, &[]);
                    self.tell_timers();
                    let timers = self.session_timers;
                    Action::Return(self.tunn.keepalive_produced(local_index, packet, &timers))
                }
            };
        }
    }

    fn produce_handshake_initiation(&mut self, force_resend: bool) -> TunnResult {
        let action = self.tunn.produce_handshake_initiation(force_resend);
        self.drive(action, &[])
    }

    fn encapsulate(&mut self, src: &[u8]) -> TunnResult {
        let action = self.tunn.encapsulate(src);
        self.drive(action, &[])
    }

    fn decapsulate(&mut self, datagram: &[u8]) -> TunnResult {
        let action = self.tunn.decapsulate(datagram);
        self.drive(action, datagram)
    }
}

fn produce_two_tuns() -> (Peer, Peer) {
    let own_staticsecret_private_key = x25519_dalek::StaticSecret::random_from_rng(OsRng);
    let own_publickey_public_key = x25519_dalek::PublicKey::from(&own_staticsecret_private_key);
    let my_index = OsRng.next_u32();

    let their_staticsecret_private_key = x25519_dalek::StaticSecret::random_from_rng(OsRng);
    let their_publickey_public_key = x25519_dalek::PublicKey::from(&their_staticsecret_private_key);
    let their_index = OsRng.next_u32();

    let (my_owner, my_signature) = signed_token(1, "mine");
    let (their_owner, their_signature) = signed_token(2, "theirs");
    let my_tun = Peer::new(
        own_staticsecret_private_key.to_bytes(),
        their_publickey_public_key.to_bytes(),
        "mine",
        my_signature,
        their_owner,
        my_index,
    );
    let their_tun = Peer::new(
        their_staticsecret_private_key.to_bytes(),
        own_publickey_public_key.to_bytes(),
        "theirs",
        their_signature,
        my_owner,
        their_index,
    );
    assert_eq!(my_tun.tunn.config().static_public, own_publickey_public_key.to_bytes());
    assert_eq!(their_tun.tunn.config().static_public, their_publickey_public_key.to_bytes());
    (my_tun, their_tun)
}

fn sent(result: TunnResult) -> Vec<u8> {
    match result {
        TunnResult::WriteToNetwork(packet) => packet,
        other => panic!("{:?}", other),
    }
}

fn test_send_handshake_init(tun: &mut Peer) -> Vec<u8> {
    sent(tun.produce_handshake_initiation(false))
}

fn produce_handshake_response(tun: &mut Peer, own_handshake_init: &[u8]) -> Vec<u8> {
    sent(tun.decapsulate(own_handshake_init))
}

fn consume_handshake_response(tun: &mut Peer, handshake_resp: &[u8]) -> Vec<u8> {
    sent(tun.decapsulate(handshake_resp))
}

fn consume_keepalive(tun: &mut Peer, keepalive: &[u8]) {
    let keepalive = tun.decapsulate(keepalive);
    assert!(matches!(keepalive, TunnResult::Done));
}

fn produce_two_tuns_and_handshake() -> (Peer, Peer) {
    let (mut my_tun, mut their_tun) = produce_two_tuns();
    let init = test_send_handshake_init(&mut my_tun);
    let resp = produce_handshake_response(&mut their_tun, &init);
    let keepalive = consume_handshake_response(&mut my_tun, &resp);
    consume_keepalive(&mut their_tun, &keepalive);
    (my_tun, their_tun)
}

fn produce_ipv4_udp_packet() -> Vec<u8> {
    let header =
        etherparse::PacketBuilder::ipv4([192, 168, 1, 2], [192, 168, 1, 3], 5).udp(5678, 23);
    let payload = [0, 1, 2, 3];
    let mut packet = Vec::<u8>::with_capacity(header.size(payload.len()));
    header.write(&mut packet, &payload).unwrap();
    packet
}

#[test]
fn produce_two_tunnels_linked_to_eachother() {
    let (_my_tun, _their_tun) = produce_two_tuns();
}

#[test]
fn handshake_init() {
    let (mut my_tun, _their_tun) = produce_two_tuns();
    let init = test_send_handshake_init(&mut my_tun);
    let packet = Tunn::consume_incoming_packet(&init).unwrap();
    assert!(matches!(packet, Packet::HandshakeInit(_)));
}

#[test]
fn handshake_init_and_response() {
    let (mut my_tun, mut their_tun) = produce_two_tuns();
    let init = test_send_handshake_init(&mut my_tun);
    let resp = produce_handshake_response(&mut their_tun, &init);
    let packet = Tunn::consume_incoming_packet(&resp).unwrap();
    assert!(matches!(packet, Packet::HandshakeResponse(_)));
}

#[test]
fn full_handshake() {
    let (mut my_tun, mut their_tun) = produce_two_tuns();
    let init = test_send_handshake_init(&mut my_tun);
    let resp = produce_handshake_response(&mut their_tun, &init);
    let keepalive = consume_handshake_response(&mut my_tun, &resp);
    let packet = Tunn::consume_incoming_packet(&keepalive).unwrap();
    assert!(matches!(packet, Packet::PacketData(_)));
}

#[test]
fn one_ip_packet() {
    let (mut my_tun, mut their_tun) = produce_two_tuns_and_handshake();

    let sent_packet_buf = produce_ipv4_udp_packet();

    let data = my_tun.encapsulate(&sent_packet_buf);
    assert!(matches!(data, TunnResult::WriteToNetwork(_)));
    let data = if let TunnResult::WriteToNetwork(sent) = data {
        sent
    } else {
        unreachable!();
    };

    let data = their_tun.decapsulate(&data);
    assert!(matches!(data, TunnResult::WriteToTunnelV4(..)));
    let recv_packet_buf = if let TunnResult::WriteToTunnelV4(recv, _addr) = data {
        recv
    } else {
        unreachable!();
    };
    assert_eq!(sent_packet_buf, recv_packet_buf);
}

#[test]
fn both_ends_use_the_session_after_the_handshake() {
    let (my_tun, their_tun) = produce_two_tuns();
    assert!(!my_tun.tunn.has_current_session());
    assert!(!their_tun.tunn.has_current_session());
    let (my_tun, their_tun) = produce_two_tuns_and_handshake();
    assert!(my_tun.tunn.has_current_session());
    assert!(their_tun.tunn.has_current_session());
}

#[test]
fn both_ends_count_an_ip_packet() {
    let (mut my_tun, mut their_tun) = produce_two_tuns_and_handshake();
    let packet = produce_ipv4_udp_packet();
    let data = sent(my_tun.encapsulate(&packet));
    match their_tun.decapsulate(&data) {
        TunnResult::WriteToTunnelV4(_, address) => assert_eq!(address, [192, 168, 1, 2]),
        other => panic!("{:?}", other),
    }
    let counts = [(0, 0); 8];
    assert_eq!(my_tun.tunn.stats(None, &counts).1, packet.len());
    assert_eq!(their_tun.tunn.stats(None, &counts).2, packet.len());
    // A keepalive counts nothing
    let keepalive = sent(my_tun.encapsulate(&[]));
    consume_keepalive(&mut their_tun, &keepalive);
    assert_eq!(my_tun.tunn.stats(None, &counts).1, packet.len());
    assert_eq!(their_tun.tunn.stats(None, &counts).2, packet.len());
}

#[test]
fn tokens_are_asked_for_by_identifier() {
    let (my_tun, their_tun) = produce_two_tuns_and_handshake();
    assert_eq!(my_tun.requests, vec!["{\"token_id\": \"theirs\"}"]);
    // The initiator's token is looked up, and then fetched to check the signature
    assert_eq!(their_tun.requests, vec!["{\"token_id\": \"mine\"}", "{\"token_id\": \"mine\"}"]);
}

#[test]
fn blocked_packets_go_out_after_the_handshake() {
    let (mut my_tun, mut their_tun) = produce_two_tuns();
    let packet = produce_ipv4_udp_packet();
    let init = sent(my_tun.encapsulate(&packet));
    // A handshake is in progress: the packets wait
    assert!(matches!(my_tun.encapsulate(&[1, 2, 3]), TunnResult::Done));
    assert!(matches!(my_tun.encapsulate(&[4]), TunnResult::Done));
    let resp = produce_handshake_response(&mut their_tun, &init);
    let keepalive = consume_handshake_response(&mut my_tun, &resp);
    consume_keepalive(&mut their_tun, &keepalive);

    let first = sent(my_tun.decapsulate(&[]));
    let second = sent(my_tun.decapsulate(&[]));
    let third = sent(my_tun.decapsulate(&[]));
    assert!(matches!(my_tun.decapsulate(&[]), TunnResult::Done));
    match their_tun.decapsulate(&first) {
        TunnResult::WriteToTunnelV4(received, _) => assert_eq!(received, packet),
        other => panic!("{:?}", other),
    }
    assert_eq!(second.len(), 32 + 3);
    assert_eq!(third.len(), 32 + 1);
    assert_eq!(my_tun.tunn.stats(None, &[(0, 0); 8]).1, packet.len() + 4);
}

/// A tunnel whose engines the test plays itself.
fn lone_tunn(status: HandshakeStatus) -> Tunn {
    let (_, signature) = signed_token(1, "mine");
    Tunn::new([1; 32], [2; 32], None, "mine".to_string(), signature, Some(25), 7, None, Ok(status))
        .unwrap()
}

/// Gives the tunnel a session as the responder would.
fn respond(tunn: &mut Tunn, local_index: usize) -> Action<'static> {
    let (owner, signature) = signed_token(2, "theirs");
    let pending = PendingInitiation {
        rodt_id: field("theirs"),
        rodt_id_signature: signature,
        packet: vec![2],
        session: Session { local_index },
    };
    tunn.initiator_token_fetched(pending, token(&owner))
}

fn field(id: &str) -> [u8; 128] {
    let mut field = [0u8; 128];
    field[..id.len()].copy_from_slice(id.as_bytes());
    field
}

fn init_packet(id: &str, signature: [u8; 64]) -> Vec<u8> {
    let mut packet = vec![0u8; 340];
    packet[0] = 1;
    packet[116..244].copy_from_slice(&field(id));
    packet[244..308].copy_from_slice(&signature);
    packet
}

#[test]
fn what_a_tunnel_is_made_with() {
    let private = "77076d0a7318a57d3c16c17251b26645df4c2f87ebc0992ab177fba51db92c2a";
    let public = "8520f0098930a754748b7ddcb43ef75a0dbf3a0d26381af4eba4a98eaa9b4e6a";
    let mut static_private = [0u8; 32];
    static_private.copy_from_slice(&hex::decode(private).unwrap());
    let tunn = Tunn::new(
        static_private,
        [9; 32],
        Some([8; 32]),
        "x".repeat(200),
        [7; 64],
        Some(25),
        0x0102_0304,
        None,
        Ok(IDLE),
    )
    .unwrap();
    let config = tunn.config();
    assert_eq!(hex::encode(config.static_public), public);
    assert_eq!(config.static_private, static_private);
    assert_eq!(config.peer_static_public, [9; 32]);
    assert_eq!(config.preshared_key, Some([8; 32]));
    assert_eq!(config.index, 0x0203_0400);
    assert_eq!(config.rodt_id_signature, [7; 64]);
    // The identifier leaves room for a zero byte
    assert_eq!(&config.rodt_id[..127], &[b'x'; 127]);
    assert_eq!(config.rodt_id[127], 0);
    assert_eq!(tunn.timer_settings(), (Some(25), true));
    assert_eq!(tunn.rate_limiter().public_key, config.static_public);
    assert_eq!(tunn.rate_limiter().limit, 10);
    assert_eq!(tunn.rate_limiter().identity, None);
    assert!(!tunn.is_expired());
}

#[test]
fn given_limiter_is_shared() {
    let limiter = Arc::new(RateLimiter { public_key: [5; 32], limit: 100, identity: Some(42) });
    let make = |given| {
        Tunn::new([1; 32], [2; 32], None, String::new(), [0; 64], None, 7, given, Ok(IDLE)).unwrap()
    };
    let first = make(Some(limiter.clone()));
    let second = make(Some(limiter.clone()));
    assert_eq!(first.rate_limiter().identity, second.rate_limiter().identity);
    assert!(Arc::ptr_eq(&first.rate_limiter(), &second.rate_limiter()));
    assert_eq!(first.timer_settings(), (None, false));
    assert!(!Arc::ptr_eq(&make(None).rate_limiter(), &make(None).rate_limiter()));
}

#[test]
fn identifiers_come_back_from_the_field() {
    let tunn = lone_tunn(IDLE);
    assert_eq!(tunn.config().rodt_id, field("mine"));
    assert_eq!(cableguard::rodt_id_text(&tunn.config().rodt_id), Some("mine".to_string()));
}

#[test]
fn engine_refuses_to_start() {
    let refused = Err(WireGuardError::Engine(3));
    let tunn = Tunn::new([1; 32], [2; 32], None, String::new(), [0; 64], None, 7, None, refused);
    match tunn {
        Err(e) => assert_eq!(e, "Error: Invalid parameters"),
        Ok(_) => panic!(),
    }
}

#[test]
fn new_private_key_clears_sessions() {
    let mut tunn = lone_tunn(IDLE);
    respond(&mut tunn, 0);
    assert!(matches!(tunn.encapsulate(&[1]), Action::SealData { slot: 0, .. }));
    let limiter = Arc::new(RateLimiter { public_key: [5; 32], limit: 100, identity: Some(42) });
    let reply = HandshakeReply { outcome: Ok(()), status: IDLE };
    assert!(tunn.set_static_private([3; 32], [4; 32], Some(limiter), reply).is_ok());
    assert_eq!(tunn.config().static_private, [3; 32]);
    assert_eq!(tunn.config().static_public, [4; 32]);
    assert_eq!(tunn.timer_settings(), (Some(25), false));
    assert_eq!(tunn.rate_limiter().limit, 100);
    assert_eq!(tunn.rate_limiter().identity, Some(42));
    assert!(matches!(tunn.encapsulate(&[1]), Action::ProduceInitiation(_)));
}

#[test]
fn refused_private_key_keeps_sessions() {
    let mut tunn = lone_tunn(IDLE);
    respond(&mut tunn, 0);
    let reply = HandshakeReply { outcome: Err(WireGuardError::Engine(1)), status: IDLE };
    let result = tunn.set_static_private([3; 32], [4; 32], None, reply);
    assert_eq!(result, Err(WireGuardError::Engine(1)));
    assert_eq!(tunn.config().static_private, [1; 32]);
    // The rate limiter is replaced all the same
    assert_eq!(tunn.rate_limiter().public_key, [4; 32]);
    assert_eq!(tunn.rate_limiter().limit, 10);
    assert!(matches!(tunn.encapsulate(&[1]), Action::SealData { slot: 0, .. }));
}

#[test]
fn queue_keeps_order_and_bounds() {
    let mut tunn = lone_tunn(IDLE);
    for i in 0..MAX_QUEUE_DEPTH + 2 {
        tunn.queue_packet(&[i as u8, (i / 256) as u8]);
    }
    // Full: nothing gets in at either end
    tunn.requeue_packet(vec![9, 9, 9]);
    assert_eq!(tunn.dequeue_packet(), Some(vec![0, 0]));
    assert_eq!(tunn.dequeue_packet(), Some(vec![1, 0]));
    // What is put back comes out next
    tunn.requeue_packet(vec![1, 0]);
    for i in 1..MAX_QUEUE_DEPTH {
        assert_eq!(tunn.dequeue_packet(), Some(vec![i as u8, 0]));
    }
    assert_eq!(tunn.dequeue_packet(), None);
}

#[test]
fn repeated_calls_drain_the_queue() {
    let mut tunn = lone_tunn(IDLE);
    respond(&mut tunn, 8);
    tunn.queue_packet(&[1]);
    tunn.queue_packet(&[2, 2]);
    tunn.queue_packet(&[3, 3, 3]);
    for expected in [vec![1], vec![2, 2], vec![3, 3, 3]] {
        match tunn.decapsulate(&[]) {
            Action::SealData { slot, payload } => {
                assert_eq!(slot, 0);
                assert_eq!(payload, expected);
            }
            other => panic!("{:?}", other),
        }
    }
    assert!(matches!(tunn.decapsulate(&[]), Action::Return(TunnResult::Done)));
    assert_eq!(tunn.stats(None, &[(0, 0); 8]).1, 6);
}

#[test]
fn waiting_packets_stay_without_session() {
    let mut tunn = lone_tunn(BUSY);
    tunn.queue_packet(&[1]);
    tunn.queue_packet(&[2]);
    assert!(matches!(tunn.decapsulate(&[]), Action::Return(TunnResult::Done)));
    assert_eq!(tunn.dequeue_packet(), Some(vec![2]));
    assert_eq!(tunn.dequeue_packet(), Some(vec![1]));
    assert_eq!(tunn.dequeue_packet(), None);
}

#[test]
fn repeated_calls_end_without_session() {
    let mut tunn = lone_tunn(IDLE);
    tunn.queue_packet(&[1]);
    tunn.queue_packet(&[2]);
    let work = match tunn.decapsulate(&[]) {
        Action::ProduceInitiation(work) => work,
        other => panic!("{:?}", other),
    };
    let reply = HandshakeReply { outcome: Ok(vec![1, 0, 0, 0]), status: BUSY };
    assert_eq!(sent(tunn.handshake_initiation_produced(work, reply)), vec![1, 0, 0, 0]);
    assert!(matches!(tunn.decapsulate(&[]), Action::Return(TunnResult::Done)));
    assert_eq!(tunn.dequeue_packet(), Some(vec![1]));
    assert_eq!(tunn.dequeue_packet(), Some(vec![2]));
    assert_eq!(tunn.dequeue_packet(), None);
}

#[test]
fn failed_initiation_is_reported() {
    let mut tunn = lone_tunn(IDLE);
    let work = match tunn.encapsulate(&[1]) {
        Action::ProduceInitiation(work) => work,
        other => panic!("{:?}", other),
    };
    assert!(work.starting_new_handshake);
    assert_eq!(work.requeue, None);
    let reply = HandshakeReply { outcome: Err(WireGuardError::Engine(4)), status: IDLE };
    let result = tunn.handshake_initiation_produced(work, reply);
    assert!(matches!(result, TunnResult::Error(WireGuardError::Engine(4))));
    assert!(tunn.take_timer_events().is_empty());
    assert_eq!(tunn.dequeue_packet(), Some(vec![1]));
    assert_eq!(tunn.dequeue_packet(), None);
}

#[test]
fn failed_initiation_returns_the_packet_to_the_queue() {
    let mut tunn = lone_tunn(IDLE);
    tunn.queue_packet(&[1]);
    tunn.queue_packet(&[2]);
    let work = match tunn.send_queued_packet() {
        Action::ProduceInitiation(work) => work,
        other => panic!("{:?}", other),
    };
    assert_eq!(work.requeue, Some(vec![1]));
    let reply = HandshakeReply { outcome: Err(WireGuardError::Engine(4)), status: IDLE };
    assert!(matches!(tunn.handshake_initiation_produced(work, reply), TunnResult::Done));
    // It was queued for lack of a session, and put back for lack of a handshake
    assert_eq!(tunn.dequeue_packet(), Some(vec![1]));
    assert_eq!(tunn.dequeue_packet(), Some(vec![2]));
    assert_eq!(tunn.dequeue_packet(), Some(vec![1]));
    assert_eq!(tunn.dequeue_packet(), None);
}

#[test]
fn one_handshake_at_a_time() {
    let mut tunn = lone_tunn(IDLE);
    match tunn.produce_handshake_initiation(false) {
        Action::ProduceInitiation(work) => {
            assert!(work.starting_new_handshake);
            let reply = HandshakeReply { outcome: Ok(vec![1]), status: BUSY };
            assert_eq!(sent(tunn.handshake_initiation_produced(work, reply)), vec![1]);
        }
        other => panic!("{:?}", other),
    }
    tunn.take_timer_events();
    let action = tunn.produce_handshake_initiation(false);
    assert!(matches!(action, Action::Return(TunnResult::Done)));
    assert!(tunn.take_timer_events().is_empty());
    match tunn.produce_handshake_initiation(true) {
        Action::ProduceInitiation(work) => {
            assert!(!work.starting_new_handshake);
            assert_eq!(work.requeue, None);
            let reply = HandshakeReply { outcome: Ok(vec![1, 1]), status: BUSY };
            assert_eq!(sent(tunn.handshake_initiation_produced(work, reply)), vec![1, 1]);
        }
        other => panic!("{:?}", other),
    }
    assert_eq!(tunn.take_timer_events(), vec![TimerEvent::Tick(TimerName::TimeLastPacketSent)]);
}

#[test]
fn counters_over_a_run() {
    let (mut my_tun, mut their_tun) = produce_two_tuns();
    let counts = [(0, 0); 8];
    // A packet counts when it is sent, not when it waits
    let packet = produce_ipv4_udp_packet();
    let init = sent(my_tun.encapsulate(&packet));
    assert_eq!(my_tun.tunn.stats(None, &counts).1, 0);
    let resp = sent(their_tun.decapsulate(&init));
    let keepalive = sent(my_tun.decapsulate(&resp));
    assert!(matches!(their_tun.decapsulate(&keepalive), TunnResult::Done));
    assert_eq!(my_tun.tunn.stats(None, &counts).1, 0);
    assert_eq!(their_tun.tunn.stats(None, &counts).2, 0);

    let mut carried = vec![sent(my_tun.decapsulate(&[]))];
    for padding in 0..4 {
        let mut padded = packet.clone();
        padded.extend(vec![0; padding]);
        carried.push(sent(my_tun.encapsulate(&padded)));
    }
    // No IP packet: sent, but refused at the other end
    carried.push(sent(my_tun.encapsulate(&[0x55; 9])));
    let mut delivered = 0;
    for data in &carried {
        match their_tun.decapsulate(data) {
            TunnResult::WriteToTunnelV4(received, _) => delivered += received.len(),
            TunnResult::Error(e) => assert_eq!(e, WireGuardError::InvalidPacket),
            other => panic!("{:?}", other),
        }
    }
    assert_eq!(my_tun.tunn.stats(None, &counts).1, 5 * packet.len() + 6 + 9);
    assert_eq!(delivered, 5 * packet.len());
    assert_eq!(their_tun.tunn.stats(None, &counts).2, delivered);
}

#[test]
fn expired_handshake_clears_the_timers() {
    let mut tunn = lone_tunn(IDLE);
    assert!(!tunn.is_expired());
    tunn.set_handshake_status(EXPIRED);
    assert!(tunn.is_expired());
    match tunn.produce_handshake_initiation(false) {
        Action::ProduceInitiation(work) => {
            let reply = HandshakeReply { outcome: Ok(vec![1]), status: BUSY };
            tunn.handshake_initiation_produced(work, reply);
        }
        other => panic!("{:?}", other),
    }
    assert!(!tunn.is_expired());
    assert_eq!(
        tunn.take_timer_events(),
        vec![
            TimerEvent::Clear,
            TimerEvent::Tick(TimerName::TimeLastHandshakeStarted),
            TimerEvent::Tick(TimerName::TimeLastPacketSent),
        ]
    );
    assert!(tunn.take_timer_events().is_empty());
}

#[test]
fn rate_limiter_decides_on_datagrams() {
    let mut tunn = lone_tunn(IDLE);
    assert!(matches!(tunn.decapsulate(&[0]), Action::CheckPacket));
    match tunn.packet_checked(PacketCheck::Cookie(vec![3, 0, 0, 0])) {
        Action::Return(result) => assert_eq!(sent(result), vec![3, 0, 0, 0]),
        other => panic!("{:?}", other),
    }
    let rejected = tunn.packet_checked(PacketCheck::Rejected(WireGuardError::InvalidPacket));
    assert!(matches!(rejected, Action::Return(TunnResult::Error(WireGuardError::InvalidPacket))));
}

#[test]
fn data_without_session_is_refused() {
    let mut tunn = lone_tunn(IDLE);
    let mut datagram = vec![0u8; 32];
    datagram[0] = 4;
    datagram[4] = 10;
    let packet = Tunn::consume_incoming_packet(&datagram).unwrap();
    let action = tunn.packet_checked(PacketCheck::Accepted(packet));
    assert!(matches!(action, Action::Return(TunnResult::Error(WireGuardError::NoCurrentSession))));
    respond(&mut tunn, 2);
    let action = tunn.consume_verified_packet(packet);
    assert!(matches!(action, Action::OpenData { slot: 2, .. }));
}

#[test]
fn undecryptable_data_changes_nothing() {
    let mut tunn = lone_tunn(IDLE);
    respond(&mut tunn, 3);
    tunn.take_timer_events();
    let result = tunn.data_opened(3, Err(WireGuardError::Engine(2)), &[0; 8]);
    assert!(matches!(result, TunnResult::Error(WireGuardError::Engine(2))));
    assert!(tunn.take_timer_events().is_empty());
    // The session is not in use yet
    assert!(matches!(tunn.encapsulate(&[1]), Action::ProduceInitiation(_)));
}

#[test]
fn first_data_brings_the_session_into_use() {
    let mut tunn = lone_tunn(IDLE);
    respond(&mut tunn, 3);
    tunn.take_timer_events();
    assert!(matches!(tunn.data_opened(3, Ok(vec![]), &[0; 8]), TunnResult::Done));
    assert_eq!(tunn.take_timer_events(), vec![TimerEvent::Tick(TimerName::TimeLastPacketReceived)]);
    assert!(matches!(tunn.encapsulate(&[1]), Action::SealData { slot: 3, .. }));
    assert_eq!(
        tunn.take_timer_events(),
        vec![
            TimerEvent::Tick(TimerName::TimeLastPacketSent),
            TimerEvent::Tick(TimerName::TimeLastDataPacketSent),
        ]
    );
    // A keepalive is no data
    tunn.encapsulate(&[]);
    assert_eq!(tunn.take_timer_events(), vec![TimerEvent::Tick(TimerName::TimeLastPacketSent)]);
}

#[test]
fn use_passes_to_no_older_session() {
    let mut tunn = lone_tunn(IDLE);
    respond(&mut tunn, 1);
    respond(&mut tunn, 2);
    let timers = [0, 10, 20, 0, 0, 0, 0, 0];
    tunn.set_current_session(2, &timers);
    assert!(matches!(tunn.encapsulate(&[]), Action::SealData { slot: 2, .. }));
    tunn.set_current_session(1, &timers);
    assert!(matches!(tunn.encapsulate(&[]), Action::SealData { slot: 2, .. }));
    // As old is young enough
    tunn.set_current_session(1, &[0, 20, 20, 0, 0, 0, 0, 0]);
    assert!(matches!(tunn.encapsulate(&[]), Action::SealData { slot: 1, .. }));
}

#[test]
fn ring_keeps_the_most_recent_sessions() {
    let mut tunn = lone_tunn(IDLE);
    for index in 0..10 {
        respond(&mut tunn, index);
    }
    for slot in 0..8u32 {
        let mut datagram = vec![0u8; 32];
        datagram[0] = 4;
        datagram[4] = slot as u8;
        let packet = Tunn::consume_incoming_packet(&datagram).unwrap();
        assert!(matches!(tunn.consume_verified_packet(packet), Action::OpenData { .. }));
    }
}

#[test]
fn decapsulated_packets() {
    let mut tunn = lone_tunn(IDLE);
    assert!(matches!(tunn.validate_decapsulated_packet(vec![]), TunnResult::Done));
    assert!(tunn.take_timer_events().is_empty());
    let short = tunn.validate_decapsulated_packet(vec![0x45; 19]);
    assert!(matches!(short, TunnResult::Error(WireGuardError::InvalidPacket)));
    let mut cut = vec![0u8; 20];
    cut[0] = 0x45;
    cut[3] = 21;
    let cut = tunn.validate_decapsulated_packet(cut);
    assert!(matches!(cut, TunnResult::Error(WireGuardError::InvalidPacket)));

    // What stands behind the packet is padding
    let mut v6 = vec![7u8; 64];
    v6[0] = 0x60;
    v6[4] = 0;
    v6[5] = 4;
    v6[8..24].copy_from_slice(&[1; 16]);
    match tunn.validate_decapsulated_packet(v6.clone()) {
        TunnResult::WriteToTunnelV6(packet, address) => {
            assert_eq!(packet, v6[..44]);
            assert_eq!(address, [1; 16]);
        }
        other => panic!("{:?}", other),
    }
    assert_eq!(tunn.stats(None, &[(0, 0); 8]).2, 44);
    assert_eq!(
        tunn.take_timer_events(),
        vec![TimerEvent::Tick(TimerName::TimeLastDataPacketReceived)]
    );
}

#[test]
fn initiation_from_the_owner() {
    let mut tunn = lone_tunn(IDLE);
    let (owner, signature) = signed_token(2, "theirs");
    let datagram = init_packet("theirs", signature);
    let packet = Tunn::consume_incoming_packet(&datagram).unwrap();
    let init = match tunn.consume_verified_packet(packet) {
        Action::ConsumeInitiation(init) => init,
        other => panic!("{:?}", other),
    };
    let session = Session { local_index: 13 };
    let reply = HandshakeReply { outcome: Ok((vec![2, 2], session)), status: BUSY };
    let pending = match tunn.process_received_handshake_initiation(init, reply) {
        Action::FindInitiatorToken { request, pending } => {
            assert_eq!(request, "{\"token_id\": \"theirs\"}");
            pending
        }
        other => panic!("{:?}", other),
    };
    let pending = match Tunn::initiator_token_found(pending, token("whoever")) {
        Action::FetchInitiatorToken { request, pending } => {
            assert_eq!(request, "{\"token_id\": \"theirs\"}");
            pending
        }
        other => panic!("{:?}", other),
    };
    match tunn.initiator_token_fetched(pending, token(&owner)) {
        Action::Return(result) => assert_eq!(sent(result), vec![2, 2]),
        other => panic!("{:?}", other),
    }
    assert_eq!(
        tunn.take_timer_events(),
        vec![
            TimerEvent::Tick(TimerName::TimeLastPacketReceived),
            TimerEvent::Tick(TimerName::TimeLastPacketSent),
            TimerEvent::SessionEstablished { is_initiator: false, index: 13 },
        ]
    );
}

#[test]
fn response_from_the_owner() {
    let mut tunn = lone_tunn(BUSY);
    let (owner, signature) = signed_token(2, "theirs");
    let response = PendingResponse {
        rodt_id: field("theirs"),
        rodt_id_signature: signature,
        session: Session { local_index: 13 },
    };
    match tunn.responder_token_fetched(response, token(&owner)) {
        Action::SealKeepalive { slot, local_index } => {
            assert_eq!(slot, 5);
            assert_eq!(local_index, 13);
        }
        other => panic!("{:?}", other),
    }
    assert_eq!(
        tunn.take_timer_events(),
        vec![
            TimerEvent::Tick(TimerName::TimeLastPacketReceived),
            TimerEvent::SessionEstablished { is_initiator: true, index: 5 },
        ]
    );
    assert_eq!(sent(tunn.keepalive_produced(13, vec![4], &[0; 8])), vec![4]);
    assert!(matches!(tunn.encapsulate(&[1]), Action::SealData { slot: 5, .. }));
}

#[test]
fn peers_that_do_not_own_their_token_are_refused() {
    let mut tunn = lone_tunn(IDLE);
    let (owner, signature) = signed_token(2, "theirs");
    let (other_owner, _) = signed_token(3, "theirs");
    let mut no_key = [0u8; 32];
    no_key[0] = 2;
    for (signature, owner) in
        [(signature, other_owner), ([0xff; 64], owner), (signature, hex::encode(no_key))]
    {
        let pending = PendingInitiation {
            rodt_id: field("theirs"),
            rodt_id_signature: signature,
            packet: vec![2],
            session: Session { local_index: 0 },
        };
        let refused = tunn.initiator_token_fetched(pending, token(&owner));
        assert!(matches!(
            refused,
            Action::Return(TunnResult::Error(
                WireGuardError::PeerEd25519SignatureVerificationFailure
            ))
        ));
        let response = PendingResponse {
            rodt_id: field("theirs"),
            rodt_id_signature: signature,
            session: Session { local_index: 0 },
        };
        let refused = tunn.responder_token_fetched(response, token(&owner));
        assert!(matches!(
            refused,
            Action::Return(TunnResult::Error(
                WireGuardError::PeerEd25519SignatureVerificationFailure
            ))
        ));
    }
    assert!(tunn.take_timer_events().is_empty());
    assert!(matches!(tunn.encapsulate(&[1]), Action::ProduceInitiation(_)));
}

#[test]
fn lookup_failures_end_the_process() {
    let mut tunn = lone_tunn(IDLE);
    let (_, signature) = signed_token(2, "theirs");
    let pending = || PendingInitiation {
        rodt_id: field("theirs"),
        rodt_id_signature: signature,
        packet: vec![2],
        session: Session { local_index: 0 },
    };
    assert!(matches!(Tunn::initiator_token_found(pending(), None), Action::Exit(1)));
    assert!(matches!(tunn.initiator_token_fetched(pending(), None), Action::Exit(1)));
    let response = PendingResponse {
        rodt_id: field("theirs"),
        rodt_id_signature: signature,
        session: Session { local_index: 0 },
    };
    assert!(matches!(tunn.responder_token_fetched(response, None), Action::Exit(1)));
    assert!(matches!(tunn.encapsulate(&[1]), Action::ProduceInitiation(_)));
}

#[test]
fn handshake_engine_refuses_messages() {
    let mut tunn = lone_tunn(IDLE);
    let datagram = init_packet("theirs", [0; 64]);
    if let Packet::HandshakeInit(init) = Tunn::consume_incoming_packet(&datagram).unwrap() {
        let reply = HandshakeReply { outcome: Err(WireGuardError::Engine(6)), status: EXPIRED };
        let action = tunn.process_received_handshake_initiation(init, reply);
        assert!(matches!(action, Action::Return(TunnResult::Error(WireGuardError::Engine(6)))));
        assert!(tunn.is_expired());
    } else {
        unreachable!();
    }
    let mut datagram = vec![0u8; 284];
    datagram[0] = 2;
    if let Packet::HandshakeResponse(response) = Tunn::consume_incoming_packet(&datagram).unwrap() {
        let reply = HandshakeReply { outcome: Err(WireGuardError::Engine(7)), status: IDLE };
        let action = tunn.process_received_handshake_response(response, reply);
        assert!(matches!(action, Action::Return(TunnResult::Error(WireGuardError::Engine(7)))));
        assert!(!tunn.is_expired());
    } else {
        unreachable!();
    }
}

#[test]
fn cookie_replies() {
    let mut tunn = lone_tunn(BUSY);
    let reply = HandshakeReply { outcome: Err(WireGuardError::Engine(5)), status: BUSY };
    let result = tunn.consume_cookie_reply(reply);
    assert!(matches!(result, TunnResult::Error(WireGuardError::Engine(5))));
    assert!(tunn.take_timer_events().is_empty());
    let reply = HandshakeReply { outcome: Ok(()), status: BUSY };
    assert!(matches!(tunn.consume_cookie_reply(reply), TunnResult::Done));
    assert_eq!(
        tunn.take_timer_events(),
        vec![
            TimerEvent::Tick(TimerName::TimeLastPacketReceived),
            TimerEvent::Tick(TimerName::TimeCookieReceived),
        ]
    );
}

#[test]
fn errors_become_results() {
    let result = TunnResult::from(WireGuardError::NoCurrentSession);
    assert!(matches!(result, TunnResult::Error(WireGuardError::NoCurrentSession)));
}

#[test]
fn statistics() {
    let mut tunn = lone_tunn(HandshakeStatus { last_rtt: Some(12), ..IDLE });
    let counts = [(0, 0), (10, 1), (20, 2), (30, 3), (40, 4), (50, 5), (60, 6), (70, 7)];
    let (time, tx, rx, samples, rtt) = tunn.stats(None, &counts);
    assert_eq!((time, tx, rx, rtt), (None, 0, 0, Some(12)));
    assert!(samples.is_empty());

    respond(&mut tunn, 1);
    respond(&mut tunn, 2);
    respond(&mut tunn, 7);
    tunn.set_current_session(1, &[0; 8]);
    let since = Some(std::time::Duration::from_secs(3));
    assert_eq!(tunn.stats(since, &counts).0, since);
    // The one in use, then backwards round the ring
    assert_eq!(tunn.loss_samples(&counts), vec![(10, 1), (70, 7), (20, 2)]);
}
