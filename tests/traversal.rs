use nat_traversal::addr::{punch_target, IpAddress, PeerAddr};
use nat_traversal::message::{address_from_field, address_message, decode_address_message, frame_address_literal, MessageError};
use nat_traversal::pairing::{Delivery, PairingBuffer, Request};
use nat_traversal::punch::{
    heartbeat_continues, random_retry_interval_ms, retry_interval_ms, AttemptOutcome, ConnectOutcome,
    HeartbeatEvent, PunchStep, TraversalAttempt,
};
use nat_traversal::session_store::{ReadEvent, SessionPhase, SessionStore, StunSession};
use nat_traversal::udp_client::{UdpPhase, UdpTraversal};

fn v4(a: u8, b: u8, c: u8, d: u8, port: u16) -> PeerAddr {
    let bits = ((a as u32) << 24) | ((b as u32) << 16) | ((c as u32) << 8) | d as u32;
    PeerAddr::new(IpAddress::V4(bits), port)
}

fn mapped(a: u8, b: u8, c: u8, d: u8, port: u16) -> PeerAddr {
    let bits = (0xffffu128 << 32) | ((a as u128) << 24) | ((b as u128) << 16) | ((c as u128) << 8) | d as u128;
    PeerAddr::new(IpAddress::V6(bits), port)
}

#[test]
fn store_registers_with_increasing_ids() {
    let mut store = SessionStore::new();
    let a = v4(10, 0, 0, 1, 4000);
    let b = v4(10, 0, 0, 2, 4001);
    assert_eq!(store.register(a), 0);
    assert_eq!(store.register(b), 1);
    assert_eq!(store.snapshot(), vec![(0, a), (1, b)]);
}

#[test]
fn store_snapshot_misses_removed_and_sees_inserted() {
    let mut store = SessionStore::new();
    let a = v4(10, 0, 0, 1, 4000);
    let b = v4(10, 0, 0, 2, 4001);
    let c = v4(10, 0, 0, 3, 4002);
    let ida = store.register(a);
    let idb = store.register(b);
    store.remove(ida);
    let idc = store.register(c);
    assert_eq!(idc, 2);
    let snap = store.snapshot();
    assert!(!snap.iter().any(|e| e.0 == ida));
    assert!(snap.contains(&(idb, b)));
    assert!(snap.contains(&(idc, c)));
    store.remove(ida);
    assert_eq!(store.snapshot(), snap);
}

#[test]
fn session_waits_until_another_peer_registers() {
    let mut store = SessionStore::new();
    let a = v4(10, 0, 0, 1, 4000);
    let id = store.register(a);
    let mut session = StunSession::new(id, a);
    assert!(session.announce(&store.snapshot()).is_empty());
    assert_eq!(session.phase, SessionPhase::Announcing);
}

#[test]
fn two_clients_learn_each_others_address() {
    let mut store = SessionStore::new();
    let a = v4(198, 51, 100, 7, 50000);
    let b = v4(203, 0, 113, 5, 51820);
    let ida = store.register(a);
    let idb = store.register(b);
    assert_eq!((ida, idb), (0, 1));
    let mut sa = StunSession::new(ida, a);
    let mut sb = StunSession::new(idb, b);
    assert_eq!(sa.announce(&store.snapshot()), vec![b]);
    assert_eq!(sb.announce(&store.snapshot()), vec![a]);
    assert_eq!(sa.phase, SessionPhase::Draining);
    assert_eq!(sb.phase, SessionPhase::Draining);
}

#[test]
fn draining_session_keeps_reading_messages_and_leaves_on_close() {
    let mut store = SessionStore::new();
    let a = v4(10, 0, 0, 1, 4000);
    let b = v4(10, 0, 0, 2, 4001);
    let ida = store.register(a);
    let idb = store.register(b);
    let mut sa = StunSession::new(ida, a);
    sa.announce(&store.snapshot());
    assert!(sa.on_read(ReadEvent::Message, &mut store));
    assert_eq!(store.snapshot().len(), 2);
    assert!(!sa.on_read(ReadEvent::Closed, &mut store));
    assert_eq!(sa.phase, SessionPhase::Closed);
    assert_eq!(store.snapshot(), vec![(idb, b)]);
}

#[test]
fn draining_session_leaves_on_read_error() {
    let mut store = SessionStore::new();
    let a = v4(10, 0, 0, 1, 4000);
    let b = v4(10, 0, 0, 2, 4001);
    let ida = store.register(a);
    store.register(b);
    let mut sa = StunSession::new(ida, a);
    sa.announce(&store.snapshot());
    assert!(!sa.on_read(ReadEvent::Failed, &mut store));
    assert_eq!(store.snapshot().len(), 1);
}

#[test]
fn repeated_ping_registers_once() {
    let mut buf = PairingBuffer::new();
    let a = v4(10, 0, 0, 1, 4000);
    assert!(buf.ping(a, 0).is_empty());
    assert!(buf.ping(a, 10).is_empty());
    assert_eq!(buf.len(), 1);
}

#[test]
fn two_pings_exchange_addresses_once() {
    let mut buf = PairingBuffer::new();
    let a = v4(10, 0, 0, 1, 4000);
    let b = v4(10, 0, 0, 2, 4001);
    assert!(buf.ping(a, 0).is_empty());
    let sent = buf.ping(b, 100);
    assert_eq!(sent, vec![Delivery { to: a, peer: b }, Delivery { to: b, peer: a }]);
    assert_eq!(buf.len(), 2);
    assert!(buf.ping(b, 200).is_empty());
    assert!(buf.ping(a, 300).is_empty());
}

#[test]
fn full_buffer_ignores_a_third_address() {
    let mut buf = PairingBuffer::new();
    let a = v4(10, 0, 0, 1, 4000);
    let b = v4(10, 0, 0, 2, 4001);
    let c = v4(10, 0, 0, 3, 4002);
    buf.ping(a, 0);
    buf.ping(b, 0);
    assert!(buf.ping(c, 0).is_empty());
    assert_eq!(buf.len(), 2);
}

#[test]
fn lone_registration_expires_after_timeout() {
    let mut buf = PairingBuffer::new();
    let a = v4(10, 0, 0, 1, 4000);
    let c = v4(10, 0, 0, 3, 4002);
    buf.ping(a, 1_000);
    buf.expire(16_000);
    assert_eq!(buf.len(), 1);
    buf.expire(16_001);
    assert_eq!(buf.len(), 0);
    assert!(buf.ping(c, 17_000).is_empty());
    assert_eq!(buf.len(), 1);
    assert!(buf.get(c).is_empty());
}

#[test]
fn get_after_pairing_repeats_the_exchange() {
    let mut buf = PairingBuffer::new();
    let a = v4(10, 0, 0, 1, 4000);
    let b = v4(10, 0, 0, 2, 4001);
    buf.ping(a, 0);
    let sent = buf.ping(b, 0);
    assert_eq!(buf.get(a), vec![sent[0]]);
    assert_eq!(buf.get(b), vec![sent[1]]);
}

#[test]
fn handle_dispatches_requests() {
    let mut buf = PairingBuffer::new();
    let a = v4(10, 0, 0, 1, 4000);
    let b = v4(10, 0, 0, 2, 4001);
    assert!(buf.handle(b"ping", a, 0).is_empty());
    assert_eq!(buf.handle(b"ping", b, 0).len(), 2);
    assert_eq!(buf.handle(b"get", a, 0), vec![Delivery { to: a, peer: b }]);
    assert!(buf.handle(b"hello", a, 0).is_empty());
    assert_eq!(buf.len(), 2);
}

#[test]
fn requests_round_trip_through_bytes() {
    assert_eq!(Request::Ping.to_bytes(), b"ping".to_vec());
    assert_eq!(Request::Get.to_bytes(), b"get".to_vec());
    assert_eq!(Request::parse(b"ping"), Some(Request::Ping));
    assert_eq!(Request::parse(b"get"), Some(Request::Get));
    assert_eq!(Request::parse(b"pin"), None);
    assert_eq!(Request::parse(b""), None);
}

#[test]
fn mapped_address_becomes_ipv4() {
    let server = v4(192, 0, 2, 1, 8090);
    let reported = mapped(203, 0, 113, 5, 51820);
    assert_eq!(punch_target(&server, &reported), v4(203, 0, 113, 5, 51820));
    assert_eq!(IpAddress::V6(0xffff_cb00_7105).to_canonical(), IpAddress::V4(0xcb00_7105));
}

#[test]
fn native_ipv6_passes_through() {
    let server = v4(192, 0, 2, 1, 8090);
    let native = PeerAddr::new(IpAddress::V6(0x2001_0db8_0000_0000_0000_0000_0000_0001), 443);
    assert_eq!(punch_target(&server, &native), native);
    let server6 = PeerAddr::new(IpAddress::V6(1), 8090);
    let reported = mapped(203, 0, 113, 5, 51820);
    assert_eq!(punch_target(&server6, &reported), reported);
}

#[test]
fn address_message_is_compact_json() {
    assert_eq!(address_message("203.0.113.5:51820"), "{\"address\":\"203.0.113.5:51820\"}");
    assert_eq!(address_message("a\"b"), "{\"address\":\"a\\\"b\"}");
    assert_eq!(frame_address_literal("\"x\""), "{\"address\":\"x\"}");
}

#[test]
fn address_message_decodes_back() {
    let msg = address_message("[2001:db8::1]:443");
    assert_eq!(decode_address_message(msg.as_bytes()), Ok("[2001:db8::1]:443".to_string()));
    assert_eq!(decode_address_message(b"{\"address\":\"1.2.3.4:5\",\"x\":\"y\"}"), Ok("1.2.3.4:5".to_string()));
}

#[test]
fn malformed_message_is_rejected() {
    assert_eq!(decode_address_message(b"not json"), Err(MessageError::Malformed));
    assert_eq!(decode_address_message(b"{\"address\":5}"), Err(MessageError::Malformed));
    assert_eq!(decode_address_message(b"{\"peer\":\"1.2.3.4:5\"}"), Err(MessageError::MissingAddress));
    assert_eq!(address_from_field(None), Err(MessageError::Malformed));
    assert_eq!(address_from_field(Some(None)), Err(MessageError::MissingAddress));
    assert_eq!(address_from_field(Some(Some("x".to_string()))), Ok("x".to_string()));
}

#[test]
fn retry_interval_is_jittered_around_base() {
    assert_eq!(retry_interval_ms(0, true), 200);
    assert_eq!(retry_interval_ms(49, true), 249);
    assert_eq!(retry_interval_ms(49, false), 151);
    assert_eq!(retry_interval_ms(123, false), 177);
    for _ in 0..100 {
        let r = random_retry_interval_ms();
        assert!(r > 150 && r < 250);
    }
}

#[test]
fn attempt_steps_follow_outcomes() {
    let remote = v4(203, 0, 113, 5, 51820);
    let mut t = TraversalAttempt::new(40000, remote);
    assert_eq!(t.record(ConnectOutcome::TimedOut, 180), PunchStep::RetryNow);
    assert_eq!(t.record(ConnectOutcome::Failed, 180), PunchStep::RetryAfter(180));
    assert_eq!(t.outcome, AttemptOutcome::Pending);
    assert_eq!(t.record(ConnectOutcome::Connected, 180), PunchStep::Established);
    assert_eq!(t.outcome, AttemptOutcome::Connected);
    assert_eq!(t.local_port, 40000);
}

#[test]
fn unavailable_address_abandons_attempt() {
    let remote = v4(203, 0, 113, 5, 51820);
    let mut t = TraversalAttempt::new(40000, remote);
    assert_eq!(t.record(ConnectOutcome::AddrNotAvailable, 180), PunchStep::Abandon);
    assert_eq!(t.outcome, AttemptOutcome::PermanentlyFailed);
}

#[test]
fn heartbeat_ends_only_on_disconnect_or_error() {
    assert!(heartbeat_continues(HeartbeatEvent::Reply));
    assert!(heartbeat_continues(HeartbeatEvent::TimedOut));
    assert!(!heartbeat_continues(HeartbeatEvent::Closed));
    assert!(!heartbeat_continues(HeartbeatEvent::Failed));
}

#[test]
fn udp_traversal_runs_through_its_phases() {
    let server = v4(192, 0, 2, 1, 8090);
    let (mut t, first) = UdpTraversal::new(server);
    assert_eq!(first, Request::Ping);
    assert_eq!(t.on_probe_timeout(), Request::Get);
    let target = t.on_peer_address(mapped(203, 0, 113, 5, 51820));
    assert_eq!(target, v4(203, 0, 113, 5, 51820));
    assert_eq!(t.on_punch_timeout(), target);
    let from = v4(203, 0, 113, 5, 51821);
    assert_eq!(t.on_punch_reply(from), from);
    assert_eq!(t.phase, UdpPhase::Pinned(from));
    t.on_confirmation();
    assert_eq!(t.phase, UdpPhase::Established(from));
}
