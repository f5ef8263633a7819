use engineio_socket::errors::Error;
use engineio_socket::packet::{Packet, PacketKind};
use engineio_socket::socket::{
    finish_close, message_outcome, CloseAction, Dispatch, Flow, Frame, Handler, Outbound, Socket,
};
use std::cell::RefCell;

#[test]
fn new_http_is_http_not_ws() {
    let s = Socket::new_http(7, 100);
    assert!(s.is_http());
    assert!(!s.is_ws());
    assert_eq!(s.sid(), 7);
    assert_eq!(s.last_ack(), 100);
}

#[test]
fn new_ws_is_ws_not_http() {
    let s = Socket::new_ws(-3, 250);
    assert!(s.is_ws());
    assert!(!s.is_http());
    assert_eq!(s.sid(), -3);
    assert_eq!(s.last_ack(), 250);
}

#[test]
fn upgrade_swaps_channel_and_preserves_identity() {
    let mut s = Socket::new_http(11, 400);
    let sid_before = s.sid();
    let ack_before = s.last_ack();
    assert!(s.upgrade_from_http());
    assert!(!s.is_http());
    assert!(s.is_ws());
    assert_eq!(s.sid(), sid_before);
    assert_eq!(s.last_ack(), ack_before);
}

#[test]
fn upgrade_is_a_no_op_off_the_http_state() {
    let mut s = Socket::new_ws(11, 400);
    assert!(!s.upgrade_from_http());
    assert!(s.is_ws());
    assert!(!s.is_http());

    let mut closed = Socket::new_http(12, 0);
    closed.close();
    assert!(!closed.upgrade_from_http());
    assert!(!closed.is_http());
    assert!(!closed.is_ws());
}

#[test]
fn upgrade_happens_at_most_once() {
    let mut s = Socket::new_http(11, 400);
    assert!(s.upgrade_from_http());
    assert!(!s.upgrade_from_http());
    assert!(s.is_ws());
}

fn assert_continue_error(f: Flow, kind: PacketKind) {
    assert_eq!(f, Flow::Continue(Err(Error::ProtocolViolation(kind))));
}

struct NoopHandler;

impl Handler for NoopHandler {
    fn handle(&self, _msg: String, _socket: &mut Socket) -> Result<(), Error> {
        Ok(())
    }
    fn handle_binary(&self, _data: Vec<u8>, _socket: &mut Socket) -> Result<(), Error> {
        Ok(())
    }
}

#[test]
fn open_ping_upgrade_noop_are_protocol_violations_on_both_transports() {
    let h = NoopHandler;
    for ws in [false, true] {
        let mut s = if ws { Socket::new_ws(1, 0) } else { Socket::new_http(1, 0) };
        assert_continue_error(
            s.handle_packet(Packet::Open("payload".to_string()), 5, &h),
            PacketKind::Open,
        );
        assert_continue_error(s.handle_packet(Packet::Ping, 5, &h), PacketKind::Ping);
        assert_continue_error(s.handle_packet(Packet::Upgrade, 5, &h), PacketKind::Upgrade);
        assert_continue_error(s.handle_packet(Packet::Noop, 5, &h), PacketKind::Noop);
        // none of them touches the connection state
        assert_eq!(s.sid(), 1);
        assert_eq!(s.last_ack(), 0);
        assert_eq!(s.is_ws(), ws);
    }
}

#[test]
fn close_packet_always_terminates_ok() {
    let h = NoopHandler;
    let mut http = Socket::new_http(1, 0);
    assert_eq!(http.handle_packet(Packet::Close, 5, &h), Flow::Break(Ok(())));
    let mut ws = Socket::new_ws(2, 0);
    assert_eq!(ws.handle_packet(Packet::Close, 5, &h), Flow::Break(Ok(())));
}

#[test]
fn pong_continues_and_records_the_acknowledgment_instant() {
    let h = NoopHandler;
    let mut s = Socket::new_http(1, 0);
    let now = 777;
    assert_eq!(s.handle_packet(Packet::Pong, now, &h), Flow::Continue(Ok(())));
    assert!(s.last_ack() >= now);
    assert_eq!(s.last_ack(), now);
}

struct RecordingHandler {
    texts: RefCell<Vec<String>>,
    binaries: RefCell<Vec<Vec<u8>>>,
    fail_with: Option<String>,
}

impl RecordingHandler {
    fn new() -> RecordingHandler {
        RecordingHandler { texts: RefCell::new(Vec::new()), binaries: RefCell::new(Vec::new()), fail_with: None }
    }
    fn failing(msg: &str) -> RecordingHandler {
        RecordingHandler {
            texts: RefCell::new(Vec::new()),
            binaries: RefCell::new(Vec::new()),
            fail_with: Some(msg.to_string()),
        }
    }
}

impl Handler for RecordingHandler {
    fn handle(&self, msg: String, _socket: &mut Socket) -> Result<(), Error> {
        self.texts.borrow_mut().push(msg);
        match &self.fail_with {
            Some(m) => Err(Error::Handler(m.clone())),
            None => Ok(()),
        }
    }
    fn handle_binary(&self, data: Vec<u8>, _socket: &mut Socket) -> Result<(), Error> {
        self.binaries.borrow_mut().push(data);
        match &self.fail_with {
            Some(m) => Err(Error::Handler(m.clone())),
            None => Ok(()),
        }
    }
}

#[test]
fn message_is_delegated_and_its_result_propagated() {
    let ok = RecordingHandler::new();
    let mut s = Socket::new_http(1, 0);
    let f = s.handle_packet(Packet::Message("hello".to_string()), 5, &ok);
    assert_eq!(f, Flow::Continue(Ok(())));
    assert_eq!(ok.texts.borrow().as_slice(), &["hello".to_string()]);

    let failing = RecordingHandler::failing("boom");
    let f = s.handle_packet(Packet::Message("again".to_string()), 6, &failing);
    assert_eq!(f, Flow::Continue(Err(Error::Handler("boom".to_string()))));
    assert_eq!(failing.texts.borrow().as_slice(), &["again".to_string()]);
}

#[test]
fn dispatch_hands_message_payloads_out_for_delivery() {
    let mut s = Socket::new_ws(1, 0);
    let d = s.dispatch(Packet::Message("data".to_string()), 5);
    assert_eq!(d, Dispatch::Deliver("data".to_string()));
    assert_eq!(message_outcome(Ok(())), Flow::Continue(Ok(())));
    let e = Error::Handler("x".to_string());
    assert_eq!(message_outcome(Err(e.clone())), Flow::Continue(Err(e)));
}

#[test]
fn handle_binary_delegates_unconditionally() {
    let h = RecordingHandler::new();
    let mut s = Socket::new_http(1, 0);
    assert_eq!(s.handle_binary(vec![1, 2, 3], &h), Ok(()));
    assert_eq!(h.binaries.borrow().as_slice(), &[vec![1, 2, 3]]);

    let failing = RecordingHandler::failing("bad");
    assert_eq!(
        s.handle_binary(vec![9], &failing),
        Err(Error::Handler("bad".to_string()))
    );
}

#[test]
fn close_on_http_aborts_and_succeeds() {
    let mut s = Socket::new_http(1, 0);
    let action = s.close();
    assert_eq!(action, CloseAction::AbortHttp);
    assert_eq!(finish_close(action, Ok(())), Ok(()));
    assert!(!s.is_http());
    assert!(!s.is_ws());
}

#[test]
fn close_on_ws_forwards_the_handshake_result() {
    let mut s = Socket::new_ws(1, 0);
    let action = s.close();
    assert_eq!(action, CloseAction::CloseWs);
    assert_eq!(finish_close(action, Ok(())), Ok(()));
    assert_eq!(
        finish_close(action, Err("handshake failed".to_string())),
        Err(Error::Transport("handshake failed".to_string()))
    );
}

#[test]
fn second_close_acts_on_nothing() {
    let mut s = Socket::new_http(1, 0);
    assert_eq!(s.close(), CloseAction::AbortHttp);
    assert_eq!(s.close(), CloseAction::NoChannel);
    assert_eq!(finish_close(CloseAction::NoChannel, Ok(())), Ok(()));
}

#[test]
fn send_after_close_succeeds_with_no_observable_effect() {
    let mut s = Socket::new_http(1, 0);
    s.close();
    assert_eq!(s.send(Packet::Ping), None);
    assert_eq!(s.emit("late".to_string()), None);
    assert_eq!(s.emit_binary(vec![1]), None);
}

#[test]
fn send_encodes_onto_the_active_transport() {
    let mut http = Socket::new_http(1, 0);
    assert_eq!(
        http.send(Packet::Message("hi".to_string())),
        Some(Outbound::HttpChunk(Frame::Text("4hi".to_string())))
    );
    let mut ws = Socket::new_ws(2, 0);
    assert_eq!(
        ws.send(Packet::Message("hi".to_string())),
        Some(Outbound::WsFrame(Frame::Text("4hi".to_string())))
    );
    assert_eq!(
        ws.emit("hello".to_string()),
        Some(Outbound::WsFrame(Frame::Text("4hello".to_string())))
    );
}

#[test]
fn emit_binary_carries_the_raw_payload_on_both_transports() {
    let payload = vec![0x34u8, 0x68, 0x69]; // the bytes of "4hi": still not re-wrapped
    let mut http = Socket::new_http(1, 0);
    assert_eq!(
        http.emit_binary(payload.clone()),
        Some(Outbound::HttpChunk(Frame::Binary(payload.clone())))
    );
    let mut ws = Socket::new_ws(2, 0);
    assert_eq!(
        ws.emit_binary(payload.clone()),
        Some(Outbound::WsFrame(Frame::Binary(payload.clone())))
    );
    // the text path for the same payload text is packet-wrapped instead
    assert_eq!(
        ws.emit("hi".to_string()),
        Some(Outbound::WsFrame(Frame::Text("4hi".to_string())))
    );
}

#[test]
fn long_poll_session_lifecycle() {
    // sid 42 over long-polling: one text chunk per send, pong bookkeeping,
    // then an abort, after which sends are silent no-ops.
    let h = NoopHandler;
    let mut s = Socket::new_http(42, 1000);
    assert_eq!(
        s.send(Packet::Ping),
        Some(Outbound::HttpChunk(Frame::Text("2".to_string())))
    );
    assert_eq!(s.handle_packet(Packet::Pong, 1500, &h), Flow::Continue(Ok(())));
    assert_eq!(s.last_ack(), 1500);
    assert_eq!(s.close(), CloseAction::AbortHttp);
    assert_eq!(s.send(Packet::Ping), None);
    assert_eq!(s.send(Packet::Message("gone".to_string())), None);
}

#[test]
fn upgraded_socket_emits_websocket_frames_not_http_chunks() {
    let mut s = Socket::new_http(5, 0);
    assert!(s.upgrade_from_http());
    assert_eq!(
        s.emit("hi".to_string()),
        Some(Outbound::WsFrame(Frame::Text("4hi".to_string())))
    );
}

#[test]
fn heartbeat_probe_evaluation_through_the_socket() {
    let h = NoopHandler;
    let mut s = Socket::new_http(1, 0);
    // probe sent at 1000; pong recorded at 1400, timeout 500: acknowledged
    s.handle_packet(Packet::Pong, 1400, &h);
    assert!(s.probe_acknowledged(1000, 500));
    // pong too late for a 300 ms timeout
    assert!(!s.probe_acknowledged(1000, 300));
    // pong not after the probe
    assert!(!s.probe_acknowledged(1400, 500));
    assert!(!s.probe_acknowledged(2000, 500));
}
