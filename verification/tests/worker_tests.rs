use bolt_core::message::MsgType;
use bolt_core::session::{CoreState, WorkerStep};
use bolt_core::state::MainState;
use bolt_core::tcp::{TcpConnection, TcpMessage, TcpMsgType};
use bolt_core::udp::{UdpConnection, UdpMessage, UdpMsgType};
use bolt_core::worker::{decide, sidecar_step, SidecarAction, WorkerAction, KILL};
use bolt_core::ws::{WsConnection, WsMessage, WsMsgType};

fn empty_state() -> MainState {
    let mut state = MainState::new();
    state.ws_connections.clear();
    state.tcp_connections.clear();
    state.udp_connections.clear();
    state
}

fn tcp(id: &str, peer: &str) -> TcpConnection {
    let mut c = TcpConnection::new();
    c.connection_id = id.to_string();
    c.peer_address = peer.to_string();
    c
}

fn udp(id: &str, host: &str) -> UdpConnection {
    let mut c = UdpConnection::new();
    c.connection_id = id.to_string();
    c.host_address = host.to_string();
    c
}

fn ws(id: &str, url: &str) -> WsConnection {
    let mut c = WsConnection::new();
    c.connection_id = id.to_string();
    c.url = url.to_string();
    c
}

fn tcp_msg(id: &str, data: &[u8]) -> TcpMessage {
    let mut m = TcpMessage::new();
    m.msg_id = id.to_string();
    m.data = data.to_vec();
    m
}

fn udp_msg(id: &str, data: &[u8], peer: &str) -> UdpMessage {
    let mut m = UdpMessage::new();
    m.msg_id = id.to_string();
    m.data = data.to_vec();
    m.peer_address = peer.to_string();
    m
}

fn ws_msg(id: &str, txt: &str) -> WsMessage {
    let mut m = WsMessage::new();
    m.msg_id = id.to_string();
    m.txt = txt.to_string();
    m
}

fn core_with_tcp(connections: Vec<TcpConnection>) -> CoreState {
    let mut core = CoreState::new();
    let mut state = empty_state();
    state.tcp_connections = connections;
    core.set_main_state(state);
    core.reconcile_tcp();
    core
}

fn core_with_udp(connections: Vec<UdpConnection>) -> CoreState {
    let mut core = CoreState::new();
    let mut state = empty_state();
    state.udp_connections = connections;
    core.set_main_state(state);
    core.reconcile_udp();
    core
}

fn core_with_ws(connections: Vec<WsConnection>) -> CoreState {
    let mut core = CoreState::new();
    let mut state = empty_state();
    state.ws_connections = connections;
    core.set_main_state(state);
    core.reconcile_ws();
    core
}

fn is_connect_to(step: &WorkerStep, address: &str) -> bool {
    match step {
        WorkerStep::Connect(a) => a == address,
        _ => false,
    }
}

#[test]
fn decide_follows_the_flags() {
    // (connecting, disconnecting, connected)
    assert_eq!(decide(false, false, false), WorkerAction::Wait);
    assert_eq!(decide(true, false, false), WorkerAction::Connect);
    assert_eq!(decide(false, false, true), WorkerAction::Drain);
    assert_eq!(decide(true, false, true), WorkerAction::Drain);
    assert_eq!(decide(false, true, true), WorkerAction::Disconnect);
    assert_eq!(decide(true, true, false), WorkerAction::Disconnect);
    assert_eq!(decide(true, true, true), WorkerAction::Disconnect);
    assert_eq!(decide(false, true, false), WorkerAction::Wait);
}

#[test]
fn sidecar_ends_only_on_kill() {
    assert_eq!(sidecar_step(Some("kill")), SidecarAction::Exit);
    assert_eq!(sidecar_step(Some(KILL)), SidecarAction::Exit);
    assert_eq!(sidecar_step(Some("timeout")), SidecarAction::Read);
    assert_eq!(sidecar_step(Some("")), SidecarAction::Read);
    assert_eq!(sidecar_step(None), SidecarAction::Read);
}

#[test]
fn new_core_state_runs_no_worker() {
    let core = CoreState::new();
    assert_eq!(core.ws_services.len(), 0);
    assert_eq!(core.tcp_services.len(), 0);
    assert_eq!(core.udp_services.len(), 0);
    assert_eq!(core.main_state.tcp_connections.len(), 1);
}

#[test]
fn set_main_state_replaces_the_declared_state_only() {
    let mut core = core_with_tcp(vec![tcp("a", "x")]);
    let mut next = empty_state();
    next.tcp_connections = vec![tcp("b", "y"), tcp("c", "z")];
    core.set_main_state(next);
    assert_eq!(core.tcp_ids(), vec!["b".to_string(), "c".to_string()]);
    assert_eq!(core.tcp_services.len(), 1);
    assert_eq!(core.tcp_services.position("a"), Some(0));
}

#[test]
fn reconcile_starts_one_worker_per_declared_connection() {
    let mut core = CoreState::new();
    let mut state = empty_state();
    state.tcp_connections = vec![tcp("t1", ""), tcp("t2", "")];
    state.udp_connections = vec![udp("u1", "")];
    state.ws_connections = vec![ws("w1", ""), ws("w2", ""), ws("w1", "")];
    core.set_main_state(state);
    assert_eq!(core.reconcile_tcp(), vec!["t1".to_string(), "t2".to_string()]);
    assert_eq!(core.reconcile_udp(), vec!["u1".to_string()]);
    assert_eq!(core.reconcile_ws(), vec!["w1".to_string(), "w2".to_string()]);
    assert!(core.reconcile_tcp().is_empty());
    assert!(core.reconcile_udp().is_empty());
    assert!(core.reconcile_ws().is_empty());
    assert_eq!(core.tcp_services.len(), 2);
    assert_eq!(core.udp_services.len(), 1);
    assert_eq!(core.ws_services.len(), 2);
}

#[test]
fn position_is_the_first_connection_with_the_id() {
    let core = core_with_tcp(vec![tcp("a", "1"), tcp("b", "2"), tcp("a", "3")]);
    assert_eq!(core.tcp_position("a"), Some(0));
    assert_eq!(core.tcp_position("b"), Some(1));
    assert_eq!(core.tcp_position("c"), None);
}

#[test]
fn step_follows_the_flags_of_the_connection() {
    let mut idle = tcp("idle", "h:1");
    idle.connecting = false;
    let mut connecting = tcp("connecting", "h:2");
    connecting.connecting = true;
    let mut connected = tcp("connected", "h:3");
    connected.connected = true;
    let mut closing = tcp("closing", "h:4");
    closing.connected = true;
    closing.disconnecting = true;
    let mut core = core_with_tcp(vec![idle, connecting, connected, closing]);
    assert!(matches!(core.tcp_step("idle"), WorkerStep::Wait));
    assert!(is_connect_to(&core.tcp_step("connecting"), "h:2"));
    assert!(matches!(core.tcp_step("connected"), WorkerStep::Drain));
    assert!(matches!(core.tcp_step("closing"), WorkerStep::Disconnect));
    assert!(matches!(core.tcp_step("nobody"), WorkerStep::Exit));
    assert_eq!(core.tcp_services.len(), 4);
}

#[test]
fn udp_connects_by_binding_its_host_address() {
    let mut c = udp("u", "127.0.0.1:4000");
    c.peer_address = "127.0.0.1:4001".to_string();
    c.connecting = true;
    let mut core = core_with_udp(vec![c]);
    assert!(is_connect_to(&core.udp_step("u"), "127.0.0.1:4000"));
}

#[test]
fn ws_connects_to_its_url() {
    let mut c = ws("w", "ws://localhost:1");
    c.connecting = true;
    let mut core = core_with_ws(vec![c]);
    assert!(is_connect_to(&core.ws_step("w"), "ws://localhost:1"));
}

#[test]
fn worker_of_an_undeclared_connection_waits_for_its_signal() {
    let mut core = core_with_tcp(vec![tcp("a", "")]);
    core.set_main_state(empty_state());
    assert!(matches!(core.tcp_step("a"), WorkerStep::Wait));
    assert_eq!(core.tcp_services.len(), 1);
}

// A TCP connection to an address without a listener: the attempt fails, the
// failure is reported with its reason, and the connection is neither
// connecting nor connected afterwards.
#[test]
fn connect_to_a_peer_without_listener_fails() {
    let mut c = tcp("t", "127.0.0.1:9");
    c.connecting = true;
    let mut core = core_with_tcp(vec![c]);
    assert!(core.main_state.tcp_connections[0].connecting);
    assert!(is_connect_to(&core.tcp_step("t"), "127.0.0.1:9"));
    let event = core.tcp_connect_failed("t", "Connection refused (os error 111)".to_string());
    let event = event.expect("a failure event");
    assert_eq!(event.msg_type, MsgType::TCP_CONNECTION_FAILED);
    assert_eq!(event.connection_id, "t");
    assert!(!event.reason.is_empty());
    assert_eq!(event.reason, "Connection refused (os error 111)");
    let c = &core.main_state.tcp_connections[0];
    assert!(!c.connecting);
    assert!(!c.connected);
    assert!(c.failed);
    assert_eq!(c.failed_reason, "Connection refused (os error 111)");
    // nothing is retried
    assert!(matches!(core.tcp_step("t"), WorkerStep::Wait));
    assert!(core.tcp_connect_failed("t", "again".to_string()).is_none());
    assert!(core.tcp_connected("t").is_none());
}

// A UDP connection that binds, then sends one queued datagram.
#[test]
fn udp_binds_and_sends_one_datagram() {
    let mut c = udp("u", "127.0.0.1:0");
    c.connecting = true;
    let mut core = core_with_udp(vec![c]);
    assert!(is_connect_to(&core.udp_step("u"), "127.0.0.1:0"));
    let event = core.udp_connected("u").expect("a connected event");
    assert_eq!(event.msg_type, MsgType::UDP_CONNECTED);
    assert_eq!(event.connection_id, "u");
    assert!(core.main_state.udp_connections[0].connected);
    assert!(!core.main_state.udp_connections[0].connecting);

    core.main_state.udp_connections[0].out_queue.push(udp_msg("m1", &[1, 2, 3], "127.0.0.1:4001"));
    let queued = core.main_state.udp_connections[0].out_queue.len();
    let history = core.main_state.udp_connections[0].msg_history.len();
    assert!(matches!(core.udp_step("u"), WorkerStep::Drain));
    let pending = core.udp_next_outbound("u").expect("a pending datagram");
    assert_eq!(pending.data, vec![1, 2, 3]);
    assert_eq!(pending.peer_address, "127.0.0.1:4001");
    assert_eq!(pending.msg_id, "m1");
    let event = core.udp_sent("u", 1234).expect("a sent event");
    assert_eq!(event.msg_type, MsgType::UDP_MSG_SENT);
    assert_eq!(event.connection_id, "u");
    assert_eq!(event.msg.msg_id, "m1");
    assert_eq!(event.msg.data, vec![1, 2, 3]);
    assert_eq!(event.msg.timestamp, 1234);
    assert_eq!(event.msg.msg_type, UdpMsgType::OUT);
    assert_eq!(event.msg.peer_address, "127.0.0.1:4001");
    let c = &core.main_state.udp_connections[0];
    assert_eq!(c.out_queue.len(), queued - 1);
    assert_eq!(c.msg_history.len(), history + 1);
    assert_eq!(c.msg_history[0].msg_id, "m1");
    assert_eq!(c.msg_history[0].data, vec![1, 2, 3]);
    assert_eq!(c.msg_history[0].timestamp, 1234);
    assert_eq!(c.msg_history[0].peer_address, "127.0.0.1:4001");
    assert!(core.udp_next_outbound("u").is_none());
    assert!(core.udp_sent("u", 1235).is_none());
    assert_eq!(core.main_state.udp_connections[0].msg_history.len(), history + 1);
}

// A connection is taken out of the declared state while its worker is
// connected: the worker ends within two ticks, its record goes, and
// nothing more is reported for the id.
#[test]
fn removed_connection_ends_its_worker() {
    let mut c = tcp("t", "h:1");
    c.connected = true;
    c.out_queue.push(tcp_msg("m1", &[1]));
    let mut core = core_with_tcp(vec![c, tcp("other", "h:2")]);
    assert!(matches!(core.tcp_step("t"), WorkerStep::Drain));

    let mut next = empty_state();
    next.tcp_connections = vec![tcp("other", "h:2")];
    core.set_main_state(next);
    // first tick: the reconciliation sets the termination signal
    assert!(core.reconcile_tcp().is_empty());
    assert!(core.tcp_services.must_exit("t"));
    assert!(!core.tcp_services.must_exit("other"));
    // second tick: the worker observes it and ends
    assert!(matches!(core.tcp_step("t"), WorkerStep::Exit));
    assert_eq!(core.tcp_services.position("t"), None);
    assert_eq!(core.tcp_services.len(), 1);
    // nothing is reported for the id afterwards
    assert!(core.tcp_next_outbound("t").is_none());
    assert!(core.tcp_sent("t", 1).is_none());
    assert!(core.tcp_received("t", vec![1], 2).is_none());
    assert!(core.tcp_disconnected("t").is_none());
    assert!(core.tcp_connected("t").is_none());
    assert!(core.tcp_connect_failed("t", "x".to_string()).is_none());
    assert!(matches!(core.tcp_step("t"), WorkerStep::Exit));
    assert!(matches!(core.tcp_step("other"), WorkerStep::Wait));
}

#[test]
fn no_events_for_a_signalled_worker_whose_connection_is_still_declared() {
    let mut c = tcp("t", "h:1");
    c.connected = true;
    let mut core = core_with_tcp(vec![c]);
    let kept = std::mem::replace(&mut core.main_state.tcp_connections, Vec::new());
    core.reconcile_tcp();
    core.main_state.tcp_connections = kept;
    assert!(core.tcp_services.must_exit("t"));
    assert!(core.tcp_received("t", vec![1], 2).is_none());
    assert!(core.tcp_disconnected("t").is_none());
    assert!(core.main_state.tcp_connections[0].msg_history.is_empty());
}

#[test]
fn connect_success_sets_connected_and_clears_failed() {
    let mut c = ws("w", "ws://h");
    c.connecting = true;
    c.failed = true;
    c.failed_reason = "earlier".to_string();
    let mut core = core_with_ws(vec![c]);
    let event = core.ws_connected("w").expect("a connected event");
    assert_eq!(event.msg_type, MsgType::WS_CONNECTED);
    assert_eq!(event.connection_id, "w");
    let c = &core.main_state.ws_connections[0];
    assert!(c.connected && !c.connecting && !c.failed && !c.disconnecting);
    assert_eq!(c.failed_reason, "earlier");
    assert!(matches!(core.ws_step("w"), WorkerStep::Drain));
    assert!(core.ws_connected("w").is_none());
}

#[test]
fn disconnect_clears_the_flags_and_reports_once() {
    let mut c = tcp("t", "h:1");
    c.connected = true;
    c.disconnecting = true;
    let mut core = core_with_tcp(vec![c, tcp("u", "")]);
    assert!(matches!(core.tcp_step("t"), WorkerStep::Disconnect));
    let event = core.tcp_disconnected("t").expect("a disconnected event");
    assert_eq!(event.msg_type, MsgType::TCP_DISCONNECTED);
    assert_eq!(event.connection_id, "t");
    let c = &core.main_state.tcp_connections[0];
    assert!(!c.connected && !c.connecting && !c.disconnecting);
    assert!(core.tcp_disconnected("t").is_none());
    assert!(matches!(core.tcp_step("t"), WorkerStep::Wait));
}

#[test]
fn disconnect_on_a_closed_connection_changes_nothing() {
    for (failed, reason) in [(false, ""), (true, "refused")] {
        let mut c = udp("u", "h:1");
        c.disconnecting = true;
        c.failed = failed;
        c.failed_reason = reason.to_string();
        let mut core = core_with_udp(vec![c]);
        assert!(matches!(core.udp_step("u"), WorkerStep::Wait));
        assert!(core.udp_disconnected("u").is_none());
        let c = &core.main_state.udp_connections[0];
        assert!(!c.connected && !c.connecting);
        assert!(c.disconnecting);
        assert_eq!(c.failed, failed);
        assert_eq!(c.failed_reason, reason);
    }
}

#[test]
fn outbound_messages_leave_in_the_order_they_were_queued() {
    let mut c = tcp("t", "h:1");
    c.connected = true;
    c.msg_history.push(tcp_msg("old", &[0]));
    c.out_queue.push(tcp_msg("m1", &[1]));
    c.out_queue.push(tcp_msg("m2", &[2, 2]));
    c.out_queue.push(tcp_msg("m3", &[3, 3, 3]));
    let mut core = core_with_tcp(vec![c]);
    let mut sent = Vec::new();
    let mut stamp = 100;
    while let Some(pending) = core.tcp_next_outbound("t") {
        let event = core.tcp_sent("t", stamp).expect("a sent event");
        assert_eq!(event.msg.msg_id, pending.msg_id);
        assert_eq!(event.msg.data, pending.data);
        assert_eq!(event.msg.timestamp, stamp);
        assert_eq!(event.msg.msg_type, TcpMsgType::OUT);
        assert_eq!(event.msg_type, MsgType::TCP_MSG_SENT);
        sent.push(event.msg.msg_id);
        stamp += 1;
    }
    assert_eq!(sent, vec!["m1", "m2", "m3"]);
    let c = &core.main_state.tcp_connections[0];
    assert!(c.out_queue.is_empty());
    let history: Vec<(&str, u64)> =
        c.msg_history.iter().map(|m| (m.msg_id.as_str(), m.timestamp)).collect();
    assert_eq!(history, vec![("old", 0), ("m1", 100), ("m2", 101), ("m3", 102)]);
    assert_eq!(c.msg_history[3].data, vec![3, 3, 3]);
}

#[test]
fn ws_messages_leave_in_the_order_they_were_queued() {
    let mut c = ws("w", "ws://h");
    c.connected = true;
    c.out_queue.push(ws_msg("m1", "one"));
    c.out_queue.push(ws_msg("m2", "two"));
    c.out_queue.push(ws_msg("m3", "three"));
    let mut core = core_with_ws(vec![c]);
    let first = core.ws_sent("w", 1).expect("first");
    let second = core.ws_sent("w", 2).expect("second");
    let third = core.ws_sent("w", 3).expect("third");
    assert!(core.ws_sent("w", 4).is_none());
    assert_eq!((first.msg.msg_id.as_str(), first.msg.txt.as_str()), ("m1", "one"));
    assert_eq!((second.msg.msg_id.as_str(), second.msg.txt.as_str()), ("m2", "two"));
    assert_eq!((third.msg.msg_id.as_str(), third.msg.txt.as_str()), ("m3", "three"));
    assert_eq!(third.msg.msg_type, WsMsgType::OUT);
    assert_eq!(third.msg_type, MsgType::WS_MSG_SENT);
    let history: Vec<&str> =
        core.main_state.ws_connections[0].msg_history.iter().map(|m| m.txt.as_str()).collect();
    assert_eq!(history, vec!["one", "two", "three"]);
}

#[test]
fn nothing_is_sent_while_not_connected() {
    let mut c = tcp("t", "h:1");
    c.out_queue.push(tcp_msg("m1", &[1]));
    let mut core = core_with_tcp(vec![c]);
    assert!(core.tcp_next_outbound("t").is_none());
    assert!(core.tcp_sent("t", 1).is_none());
    assert_eq!(core.main_state.tcp_connections[0].out_queue.len(), 1);
    assert!(core.main_state.tcp_connections[0].msg_history.is_empty());
}

#[test]
fn received_messages_join_the_history() {
    let mut c = tcp("t", "h:1");
    c.connected = true;
    c.msg_history.push(tcp_msg("old", &[0]));
    let mut core = core_with_tcp(vec![c]);
    let event = core.tcp_received("t", vec![9, 8], 77).expect("a received event");
    assert_eq!(event.msg_type, MsgType::TCP_RECEIVED_MSG);
    assert_eq!(event.connection_id, "t");
    assert_eq!(event.msg.data, vec![9, 8]);
    assert_eq!(event.msg.timestamp, 77);
    assert_eq!(event.msg.msg_type, TcpMsgType::IN);
    assert_eq!(event.msg.msg_id.len(), 8);
    let c = &core.main_state.tcp_connections[0];
    assert_eq!(c.msg_history.len(), 2);
    assert_eq!(c.msg_history[0].msg_id, "old");
    assert_eq!(c.msg_history[1].msg_id, event.msg.msg_id);
    assert_eq!(c.msg_history[1].data, vec![9, 8]);
}

#[test]
fn received_datagrams_keep_their_sender() {
    let mut c = udp("u", "h:1");
    c.connected = true;
    let mut core = core_with_udp(vec![c]);
    let event = core
        .udp_received("u", vec![1], "10.0.0.1:53".to_string(), 5)
        .expect("a received event");
    assert_eq!(event.msg_type, MsgType::UDP_RECEIVED_MSG);
    assert_eq!(event.msg.peer_address, "10.0.0.1:53");
    assert_eq!(event.msg.msg_type, UdpMsgType::IN);
    assert_eq!(core.main_state.udp_connections[0].msg_history[0].peer_address, "10.0.0.1:53");
}

#[test]
fn received_ws_text_joins_the_history() {
    let mut c = ws("w", "ws://h");
    c.connected = true;
    let mut core = core_with_ws(vec![c]);
    let event = core.ws_received("w", "hello".to_string(), 5).expect("a received event");
    assert_eq!(event.msg_type, MsgType::WS_RECEIVED_MSG);
    assert_eq!(event.msg.txt, "hello");
    assert_eq!(event.msg.msg_type, WsMsgType::IN);
    assert_eq!(core.main_state.ws_connections[0].msg_history[0].txt, "hello");
}

#[test]
fn nothing_is_received_while_not_connected() {
    let mut core = core_with_tcp(vec![tcp("t", "h:1")]);
    assert!(core.tcp_received("t", vec![1], 1).is_none());
    assert!(core.tcp_received("missing", vec![1], 1).is_none());
    assert!(core.main_state.tcp_connections[0].msg_history.is_empty());
}

#[test]
fn transitions_touch_only_their_own_connection() {
    let mut a = tcp("a", "h:1");
    a.connecting = true;
    let mut b = tcp("b", "h:2");
    b.connecting = true;
    let mut core = core_with_tcp(vec![a, b]);
    core.tcp_connected("b").expect("connected");
    assert!(core.main_state.tcp_connections[0].connecting);
    assert!(!core.main_state.tcp_connections[0].connected);
    assert!(core.main_state.tcp_connections[1].connected);
    assert_eq!(core.tcp_services.len(), 2);
}

#[test]
fn connection_level_transitions() {
    let mut c = tcp("t", "h");
    c.connecting = true;
    let event = c.connect_succeeded();
    assert_eq!((event.msg_type, event.connection_id.as_str()), (MsgType::TCP_CONNECTED, "t"));
    assert!(c.connected && !c.connecting);
    c.out_queue.push(tcp_msg("m", &[5]));
    assert_eq!(c.next_outbound().expect("pending").msg_id, "m");
    let sent = c.commit_sent(3).expect("sent");
    assert_eq!(sent.msg.msg_id, "m");
    assert_eq!(sent.msg.peer_address, "");
    assert!(c.next_outbound().is_none());
    assert!(c.commit_sent(4).is_none());
    let received = c.record_received(vec![6], "r".to_string(), 9);
    assert_eq!(received.msg.msg_id, "r");
    assert_eq!(c.msg_history.len(), 2);
    let event = c.complete_disconnect();
    assert_eq!(event.msg_type, MsgType::TCP_DISCONNECTED);
    assert!(!c.connected && !c.connecting && !c.disconnecting);
    let event = c.connect_failed("why".to_string());
    assert_eq!(event.reason, "why");
    assert!(c.failed && !c.connecting);
    let copy = c.msg_history[0].duplicate();
    assert_eq!(copy.msg_id, c.msg_history[0].msg_id);
    assert_eq!(copy.data, c.msg_history[0].data);
    assert_eq!(copy.timestamp, c.msg_history[0].timestamp);
}
