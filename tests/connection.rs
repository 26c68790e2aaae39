use wsfork::close::{close_code, close_payload, close_reason, close_reason_with, decode_text};
use wsfork::connection::{
    cancel_reason, next_source, ConnEvent, ConnState, Connection, OpCode, Outgoing, Readiness, Source, Step,
};
use wsfork::events::{Body, WSForkEvent};
use wsfork::fork::{new_wsfork, WSForkerError};

fn emitted(events: &mut Vec<Body>, step: Step) -> Option<Outgoing> {
    if let Some(b) = step.emit {
        events.push(b);
    }
    step.send
}

#[test]
fn test_websocket_connected_then_cancel() {
    let (sender, receiver) = new_wsfork(1024, 20);
    let mut conn = Connection::new();
    let mut events = Vec::new();

    assert!(emitted(&mut events, conn.step(ConnEvent::HandshakeDone)).is_none());
    sender.cancel();
    let close = emitted(&mut events, conn.step(ConnEvent::Cancelled));
    match close {
        Some(Outgoing::Close { code, reason }) => {
            // A close frame with code 1000 (0x03E8) and the reason text.
            assert_eq!(code.to_be_bytes(), [0x03, 0xE8]);
            assert_eq!(reason.as_bytes(), b"LOCAL_CANCEL");
            // The payload after the two-byte frame header `\x88\x0E`.
            let payload = close_payload(code, &reason);
            assert_eq!(payload.len(), 0x0E);
            assert_eq!(payload, b"\x03\xE8LOCAL_CANCEL".to_vec());
        }
        _ => panic!("expected a close frame"),
    }
    assert!(emitted(&mut events, conn.step(ConnEvent::CloseFlushed)).is_none());
    drop(receiver);

    assert!(matches!(events.get(0), Some(Body::Connected)));
    assert!(matches!(events.get(1), Some(Body::Closed { code, .. }) if *code == Some(1000)));
    assert_eq!(events.len(), 2);
    assert_eq!(conn.state(), ConnState::ClosedNormal);
    assert!(sender.get_next_free_buffer().is_err());
}

#[test]
fn test_websocket_connected_then_io_error() {
    let (sender, receiver) = new_wsfork(1024, 20);
    let mut conn = Connection::new();
    let mut events = Vec::new();

    emitted(&mut events, conn.step(ConnEvent::HandshakeDone));
    emitted(
        &mut events,
        conn.step(ConnEvent::ReadFailed { desc: "UnexpectedEof".to_string() }),
    );
    drop(receiver);

    assert!(matches!(events.get(0), Some(Body::Connected)));
    assert!(matches!(events.get(1), Some(Body::Error { desc }) if desc.contains("UnexpectedEof")));
    assert_eq!(events.len(), 2);
    assert_eq!(conn.state(), ConnState::ClosedError);
    assert!(matches!(sender.get_next_free_buffer(), Err(WSForkerError::Closed)));
}

#[test]
fn cancel_before_any_frame_gives_one_normal_close() {
    let mut conn = Connection::new();
    let mut events = Vec::new();
    emitted(&mut events, conn.step(ConnEvent::HandshakeDone));
    emitted(&mut events, conn.step(ConnEvent::Cancelled));
    // Events that arrive while closing change nothing.
    assert!(emitted(&mut events, conn.step(ConnEvent::FrameReady)).is_none());
    emitted(&mut events, conn.step(ConnEvent::CloseFlushed));
    assert_eq!(events.len(), 2);
    match &events[1] {
        Body::Closed { code, reason } => {
            assert_eq!(*code, Some(1000));
            assert_eq!(reason.as_deref(), Some("LOCAL_CANCEL"));
        }
        _ => panic!("expected Closed"),
    }
}

#[test]
fn cancel_while_connecting_closes_without_connected() {
    let mut conn = Connection::new();
    let step = conn.step(ConnEvent::Cancelled);
    assert!(step.send.is_none());
    assert!(matches!(step.emit, Some(Body::Closed { code: Some(1000), reason: Some(ref r) }) if r == "LOCAL_CANCEL"));
    assert!(conn.is_closed());
}

#[test]
fn handshake_failure_reports_one_error() {
    let mut conn = Connection::new();
    let step = conn.step(ConnEvent::HandshakeFailed { desc: "refused".to_string() });
    assert!(matches!(step.emit, Some(Body::Error { ref desc }) if desc == "refused"));
    assert_eq!(conn.state(), ConnState::ClosedError);
    let later = conn.step(ConnEvent::HandshakeDone);
    assert!(later.emit.is_none() && later.send.is_none());
    assert_eq!(conn.state(), ConnState::ClosedError);
}

fn remote_close(payload: Vec<u8>) -> Body {
    let mut conn = Connection::new();
    conn.step(ConnEvent::HandshakeDone);
    let step = conn.step(ConnEvent::Incoming { opcode: OpCode::Close, payload });
    assert!(step.emit.is_none());
    assert_eq!(conn.state(), ConnState::ClosingRemote);
    let done = conn.step(ConnEvent::CloseFlushed);
    assert_eq!(conn.state(), ConnState::ClosedNormal);
    done.emit.expect("a terminal notification")
}

#[test]
fn remote_close_two_bytes_gives_code_only() {
    assert!(matches!(remote_close(vec![0x03, 0xE8]), Body::Closed { code: Some(1000), reason: None }));
}

#[test]
fn remote_close_one_byte_is_protocol_error() {
    assert!(matches!(remote_close(vec![0x03]), Body::Closed { code: Some(1002), reason: None }));
}

#[test]
fn remote_close_empty_gives_nothing() {
    assert!(matches!(remote_close(vec![]), Body::Closed { code: None, reason: None }));
}

#[test]
fn remote_close_with_reason() {
    let mut p = vec![0x0F, 0xA0];
    p.extend_from_slice(b"bye");
    match remote_close(p) {
        Body::Closed { code, reason } => {
            assert_eq!(code, Some(4000));
            assert_eq!(reason.as_deref(), Some("bye"));
        }
        _ => panic!("expected Closed"),
    }
}

#[test]
fn close_reason_invalid_utf8_reason_is_dropped() {
    let r = close_reason(&[0x03, 0xE9, 0xFF, 0xFE]);
    assert_eq!(r.code, Some(1001));
    assert_eq!(r.reason, None);
    assert_eq!(close_code(&[0xFF, 0xFF, 1]), Some(65535));
    let w = close_reason_with(&[0x03, 0xE8, b'x'], Some("x".to_string()));
    assert_eq!(w.reason.as_deref(), Some("x"));
    let short = close_reason_with(&[0x03, 0xE8], Some("ignored".to_string()));
    assert_eq!(short.reason, None);
}

#[test]
fn text_frames_become_messages() {
    let mut conn = Connection::new();
    conn.step(ConnEvent::HandshakeDone);
    let ok = conn.step(ConnEvent::Incoming { opcode: OpCode::Text, payload: "héllo".as_bytes().to_vec() });
    assert!(matches!(ok.emit, Some(Body::Message { ref content }) if content == "héllo"));
    let bad = conn.step(ConnEvent::Incoming { opcode: OpCode::Text, payload: vec![0xC3] });
    assert!(matches!(bad.emit, Some(Body::Message { ref content }) if content.is_empty()));
    let bin = conn.step(ConnEvent::Incoming { opcode: OpCode::Binary, payload: vec![1, 2] });
    assert!(bin.emit.is_none() && bin.send.is_none());
    let ping = conn.step(ConnEvent::Incoming { opcode: OpCode::Ping, payload: vec![] });
    assert!(ping.emit.is_none() && ping.send.is_none());
    assert_eq!(conn.state(), ConnState::Open);
    assert_eq!(decode_text(vec![0xFF]), "");
}

#[test]
fn outbound_frames_in_open_state() {
    let mut conn = Connection::new();
    conn.step(ConnEvent::HandshakeDone);
    let t = conn.step(ConnEvent::ControlMessage { data: b"hi".to_vec() });
    assert!(matches!(t.send, Some(Outgoing::Text { ref data }) if data == b"hi"));
    let b = conn.step(ConnEvent::FrameReady);
    assert!(matches!(b.send, Some(Outgoing::Binary)));
    let f = conn.step(ConnEvent::WriteFailed { desc: "broken pipe".to_string() });
    assert!(matches!(f.emit, Some(Body::Error { ref desc }) if desc == "broken pipe"));
    assert_eq!(conn.state(), ConnState::ClosedError);
}

#[test]
fn producer_gone_closes_with_going_away() {
    let mut conn = Connection::new();
    conn.step(ConnEvent::HandshakeDone);
    let s = conn.step(ConnEvent::ProducerGone);
    assert!(matches!(s.send, Some(Outgoing::Close { code: 1001, .. })));
    let d = conn.step(ConnEvent::WriteFailed { desc: "x".to_string() });
    assert!(matches!(d.emit, Some(Body::Closed { code: Some(1001), .. })));
    assert_eq!(cancel_reason(), "LOCAL_CANCEL");
}

#[test]
fn cancellation_wins_source_selection() {
    let all = Readiness { cancelled: true, control: true, frame: true, inbound: true };
    assert_eq!(next_source(all, false), Some(Source::Cancel));
    assert_eq!(next_source(all, true), Some(Source::Cancel));
    let out = Readiness { cancelled: false, control: true, frame: true, inbound: true };
    assert_eq!(next_source(out, false), Some(Source::Control));
    assert_eq!(next_source(out, true), Some(Source::Inbound));
    let frame = Readiness { cancelled: false, control: false, frame: true, inbound: false };
    assert_eq!(next_source(frame, true), Some(Source::Frame));
    let none = Readiness { cancelled: false, control: false, frame: false, inbound: false };
    assert_eq!(next_source(none, false), None);
}

#[test]
fn terminal_notifications() {
    assert!(Body::Closed { code: None, reason: None }.is_terminal());
    assert!(Body::Error { desc: String::new() }.is_terminal());
    assert!(!Body::Connected.is_terminal());
    assert!(!Body::Message { content: "m".to_string() }.is_terminal());
    assert!(!Body::Overrun.is_terminal());
    let e = WSForkEvent::new("call".to_string(), Body::Connected);
    assert_eq!(e.session, "call");
    assert!(matches!(e.body, Body::Connected));
}

#[test]
fn close_payload_reads_back() {
    let p = close_payload(4321, &"bye".to_string());
    let r = close_reason(&p);
    assert_eq!(r.code, Some(4321));
    assert_eq!(r.reason.as_deref(), Some("bye"));
    assert_eq!(close_payload(1000, &String::new()), vec![0x03, 0xE8]);
}
