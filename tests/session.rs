use std::sync::Arc;

use wsfork::endpoint::{header_pairs, parse_headers, HeaderDoc, HeaderError};
use wsfork::fork::{finish_frame, new_wsfork, Cancellation, WSForkerError};
use wsfork::frame::Frame;
use wsfork::commands::ModSubcommand;
use wsfork::registry::{Registry, RegistryError, SessionKey};
use wsfork::session::{
    dispatch, effect, plan, send_result, text_bytes, CommandError, Effect, PrivateSessionData, SessionCommand,
};
use wsfork::tap::{
    channel_capacity, frame_size, keep_tap, keep_valid, new_frame_buffer, on_frame_read, on_slot, on_tap_event,
    recycle_frame_buffer, bug_flags, AudioMix, SlotStatus, TapAction, TapEvent, TapStats, BUFFER_DURATION_US,
};

#[test]
fn full_after_capacity_frames() {
    for capacity in 1..=5usize {
        let (sender, _receiver) = new_wsfork(16, capacity);
        for _ in 0..capacity {
            let slot = sender.get_next_free_buffer().expect("a free slot");
            drop(slot);
        }
        assert!(matches!(sender.get_next_free_buffer(), Err(WSForkerError::Full)));
    }
}

#[test]
fn slots_are_zeroed_frames() {
    let (sender, _receiver) = new_wsfork(16, 2);
    let mut slot = sender.get_next_free_buffer().expect("a free slot");
    assert_eq!(slot.len(), 16);
    assert!(slot.iter().all(|b| *b == 0));
    slot[3] = 9;
    drop(slot);
    assert_eq!(sender.frame_len(), 16);
}

#[test]
fn closed_when_consumer_dropped() {
    let (sender, receiver) = new_wsfork(16, 2);
    drop(receiver);
    assert!(matches!(sender.get_next_free_buffer(), Err(WSForkerError::Closed)));
    assert!(matches!(sender.send_message(b"x".to_vec()), Err(WSForkerError::Closed)));
}

#[test]
fn full_audio_channel_does_not_block_messages() {
    let (sender, mut receiver) = new_wsfork(16, 2);
    for _ in 0..2 {
        drop(sender.get_next_free_buffer().expect("a free slot"));
    }
    assert!(matches!(sender.get_next_free_buffer(), Err(WSForkerError::Full)));
    assert!(sender.send_message(b"one".to_vec()).is_ok());
    assert!(sender.send_message(b"two".to_vec()).is_ok());
    assert!(matches!(sender.send_message(b"three".to_vec()), Err(WSForkerError::Full)));
    assert_eq!(receiver.rx_msg.try_recv().ok(), Some(b"one".to_vec()));
}

#[test]
fn full_control_channel_does_not_drop_frames() {
    let (sender, _receiver) = new_wsfork(16, 2);
    assert!(sender.send_message(b"a".to_vec()).is_ok());
    assert!(sender.send_message(b"b".to_vec()).is_ok());
    assert!(matches!(sender.send_message(b"c".to_vec()), Err(WSForkerError::Full)));
    assert!(sender.get_next_free_buffer().is_ok());
}

#[test]
fn capacity_from_packet_interval() {
    assert_eq!(BUFFER_DURATION_US, 100_000);
    assert_eq!(channel_capacity(20_000, BUFFER_DURATION_US), 5);
    assert_eq!(channel_capacity(30_000, BUFFER_DURATION_US), 4);
    assert_eq!(channel_capacity(40_000, BUFFER_DURATION_US), 3);
    assert_eq!(channel_capacity(60_000, BUFFER_DURATION_US), 2);
    assert_eq!(channel_capacity(200_000, BUFFER_DURATION_US), 1);
    assert_eq!(channel_capacity(10_000, BUFFER_DURATION_US), 5);
    assert_eq!(channel_capacity(0, BUFFER_DURATION_US), 5);
    assert_eq!(channel_capacity(-1, BUFFER_DURATION_US), 3);
    assert_eq!(channel_capacity(20_000, u64::MAX), 5);
}

#[test]
fn frame_size_by_mix() {
    assert_eq!(frame_size(320, AudioMix::Mono), 320);
    assert_eq!(frame_size(320, AudioMix::Mixed), 320);
    assert_eq!(frame_size(320, AudioMix::Stereo), 640);
    assert_eq!(frame_size(u32::MAX, AudioMix::Stereo), 2 * u32::MAX as u64);
    assert_eq!(AudioMix::default_mix(), AudioMix::Mixed);
}

#[test]
fn frame_buffers_are_reset() {
    assert_eq!(new_frame_buffer(4), vec![0u8; 4]);
    let mut b = vec![1u8, 2, 3];
    recycle_frame_buffer(&mut b, 5);
    assert_eq!(b, vec![0u8; 5]);
    let mut c = vec![7u8; 8];
    recycle_frame_buffer(&mut c, 2);
    assert_eq!(c, vec![0u8; 2]);
    let f = Frame::new(vec![1, 2, 3]);
    assert_eq!(f.data(), &[1, 2, 3]);
    assert_eq!(f.buflen(), 3);
    assert_eq!(f.into_inner(), vec![1, 2, 3]);
}

#[test]
fn paused_tap_keeps_attached() {
    let a = on_tap_event(TapEvent::Read, true);
    assert_eq!(a, TapAction::Continue);
    assert!(keep_tap(a));
    assert_eq!(on_tap_event(TapEvent::Read, false), TapAction::AcquireSlot);
    assert_eq!(on_tap_event(TapEvent::Init, true), TapAction::Continue);
    assert_eq!(on_tap_event(TapEvent::Close, true), TapAction::Teardown);
    assert!(!keep_tap(TapAction::Teardown));
}

#[test]
fn slot_outcomes() {
    assert_eq!(on_slot(SlotStatus::Full), TapAction::DropFrame);
    assert!(keep_tap(TapAction::DropFrame));
    assert_eq!(on_slot(SlotStatus::Closed), TapAction::Detach);
    assert!(!keep_tap(TapAction::Detach));
    assert_eq!(on_slot(SlotStatus::Acquired), TapAction::FillSlot);
    assert_eq!(on_frame_read(None), TapAction::Detach);
    assert_eq!(on_frame_read(Some(160)), TapAction::Continue);
    assert_eq!(WSForkerError::Full.slot_status(), SlotStatus::Full);
}

fn key(session: &str, fork: &str) -> SessionKey {
    SessionKey::new(session.to_string(), fork.to_string())
}

#[test]
fn registry_lookup_and_conflict() {
    let mut reg: Registry<u32> = Registry::new(5_000);
    let k = key("call-1", "default");
    assert!(matches!(reg.lookup(&k), Err(RegistryError::NotFound)));
    assert!(reg.start(key("call-1", "default"), 7).is_ok());
    assert!(matches!(reg.lookup(&k), Ok(&7)));
    assert!(matches!(reg.start(key("call-1", "default"), 8), Err((RegistryError::Conflict, 8))));
    assert!(reg.start(key("call-2", "default"), 9).is_ok());
    assert_eq!(reg.len(), 2);
    assert!(reg.contains(&k));
}

#[test]
fn stopped_session_not_found_after_grace() {
    let mut reg: Registry<u32> = Registry::new(5_000);
    let k = key("call-1", "default");
    reg.start(key("call-1", "default"), 7).ok();
    assert!(reg.retire(&k, 1_000));
    assert!(matches!(reg.lookup(&k), Err(RegistryError::NotFound)));
    assert!(!reg.retire(&k, 1_500));
    // Within the grace window the handle is kept.
    assert!(reg.reclaim(5_999).is_empty());
    assert!(matches!(reg.lookup(&k), Err(RegistryError::NotFound)));
    let freed = reg.reclaim(6_000);
    assert_eq!(freed.len(), 1);
    assert_eq!(freed[0].handle, 7);
    assert_eq!(freed[0].since_ms, 1_000);
    assert!(reg.reclaim(100_000).is_empty());
    assert!(matches!(reg.lookup(&k), Err(RegistryError::NotFound)));
    assert_eq!(reg.grace_ms(), 5_000);
}

#[test]
fn reclaim_keeps_order_and_young_entries() {
    let mut reg: Registry<u32> = Registry::new(10);
    for (i, k) in ["a", "b", "c"].iter().enumerate() {
        reg.start(key(k, "f"), i as u32).ok();
    }
    reg.retire(&key("a", "f"), 0);
    reg.retire(&key("b", "f"), 5);
    reg.retire(&key("c", "f"), 1);
    let freed: Vec<u32> = reg.reclaim(11).into_iter().map(|r| r.handle).collect();
    assert_eq!(freed, vec![0, 2]);
    let rest: Vec<u32> = reg.reclaim(15).into_iter().map(|r| r.handle).collect();
    assert_eq!(rest, vec![1]);
}

#[test]
fn commands_reach_live_sessions_only() {
    let mut reg: Registry<Arc<PrivateSessionData>> = Registry::new(5_000);
    let (data, mut rx) = PrivateSessionData::init(320, 20_000, AudioMix::Mono);
    let data = Arc::new(data);
    let k = key("call-1", "default");
    assert!(reg.start(key("call-1", "default"), data.clone()).is_ok());

    assert!(dispatch(&reg, &k, SessionCommand::Pause).is_ok());
    assert!(data.is_paused());
    assert!(dispatch(&reg, &k, SessionCommand::Resume).is_ok());
    assert!(!data.is_paused());
    assert!(dispatch(&reg, &k, SessionCommand::SendText { text: "héllo".to_string() }).is_ok());
    assert_eq!(rx.rx_msg.try_recv().ok(), Some("héllo".as_bytes().to_vec()));
    assert_eq!(data.sender().frame_len(), 320);
    assert!(dispatch(&reg, &k, SessionCommand::Stop).is_ok());

    reg.retire(&k, 0);
    assert_eq!(dispatch(&reg, &k, SessionCommand::SendText { text: "x".to_string() }), Err(CommandError::NotFound));
    assert_eq!(dispatch(&reg, &k, SessionCommand::Pause), Err(CommandError::NotFound));
}

#[test]
fn send_text_full_control_channel() {
    let (data, _rx) = PrivateSessionData::init(160, 100_000, AudioMix::Stereo);
    assert_eq!(data.sender().frame_len(), 320);
    // One slot of buffering for a 100 ms packet interval.
    assert!(data.send_text("a".to_string()).is_ok());
    assert!(matches!(data.send_text("b".to_string()), Err(WSForkerError::Full)));
}

#[test]
fn header_documents() {
    assert_eq!(parse_headers("null").map(|v| v.len()), Ok(0));
    assert_eq!(parse_headers("\"\"").map(|v| v.len()), Ok(0));
    assert_eq!(
        parse_headers("{\"a\":\"b\",\"c\":\"d\"}"),
        Ok(vec![("a".to_string(), "b".to_string()), ("c".to_string(), "d".to_string())])
    );
    assert_eq!(parse_headers("{\"a\":1}"), Err(HeaderError::NonStringValue));
    assert_eq!(parse_headers("[1]"), Err(HeaderError::Unsupported));
    assert_eq!(parse_headers("\"x\""), Err(HeaderError::Unsupported));
    assert_eq!(parse_headers(""), Err(HeaderError::InvalidJson));
    assert_eq!(parse_headers("{"), Err(HeaderError::InvalidJson));
    let doc = HeaderDoc::Object { entries: vec![("k".to_string(), Some("v".to_string())), ("n".to_string(), None)] };
    assert_eq!(header_pairs(doc), Err(HeaderError::NonStringValue));
    assert_eq!(header_pairs(HeaderDoc::Other), Err(HeaderError::Unsupported));
}

#[test]
fn command_keys_default_the_fork() {
    let stop = ModSubcommand::Stop { session: "abc".to_string(), fork: None };
    let k = stop.key();
    assert_eq!(k.session, "abc");
    assert_eq!(k.fork, "default");
    assert!(k.same(&key("abc", "default")));
    assert!(!k.same(&key("abc", "other")));
    let text = ModSubcommand::SendText { session: "abc".to_string(), fork: Some("f2".to_string()), text: "hi".to_string() };
    assert_eq!(text.key().fork, "f2");
    assert!(matches!(text.session_command(), Some(SessionCommand::SendText { ref text }) if text == "hi"));
    let start = ModSubcommand::Start {
        session: "abc".to_string(),
        fork: None,
        url: "ws://localhost:9000".to_string(),
        headers: "null".to_string(),
        mix: AudioMix::Mono,
        start_paused: None,
    };
    assert!(start.session_command().is_none());
    assert!(matches!(ModSubcommand::Pause { session: "s".to_string(), fork: None }.session_command(), Some(SessionCommand::Pause)));
}

#[test]
fn only_valid_bytes_are_forwarded() {
    let (sender, mut receiver) = new_wsfork(8, 2);
    let mut slot = sender.get_next_free_buffer().expect("a free slot");
    slot[..5].copy_from_slice(&[1, 2, 3, 4, 5]);
    assert_eq!(finish_frame(&mut slot, Some(5)), TapAction::Continue);
    drop(slot);
    let frame = receiver.rx_audio.try_recv_ref().expect("a queued frame");
    assert_eq!(frame.as_slice(), &[1, 2, 3, 4, 5]);
    drop(frame);
    let mut failed = sender.get_next_free_buffer().expect("a free slot");
    assert_eq!(failed.len(), 8);
    assert_eq!(finish_frame(&mut failed, None), TapAction::Detach);
}

#[test]
fn keep_valid_caps_at_length() {
    let mut b = vec![1u8, 2, 3, 4];
    keep_valid(&mut b, 2);
    assert_eq!(b, vec![1, 2]);
    let mut c = vec![1u8, 2];
    keep_valid(&mut c, 10);
    assert_eq!(c, vec![1, 2]);
    let mut f = Frame::new(vec![9, 8, 7, 6]);
    assert_eq!(f.datalen(), 0);
    f.set_datalen(3);
    assert_eq!(f.datalen(), 3);
    f.set_datalen(99);
    assert_eq!(f.datalen(), 4);
    f.set_datalen(1);
    assert_eq!(f.into_valid(), vec![9]);
}

#[test]
fn dropped_frames_are_counted() {
    let mut stats = TapStats::new();
    assert_eq!(stats.dropped(), 0);
    stats.record(TapAction::DropFrame);
    stats.record(TapAction::Continue);
    stats.record(on_slot(SlotStatus::Full));
    assert_eq!(stats.dropped(), 2);
    stats.record(TapAction::Detach);
    assert_eq!(stats.dropped(), 2);
}

#[test]
fn command_effects() {
    assert!(matches!(effect(SessionCommand::Stop), Effect::Cancel));
    assert!(matches!(effect(SessionCommand::Pause), Effect::SetPaused { paused: true }));
    assert!(matches!(effect(SessionCommand::Resume), Effect::SetPaused { paused: false }));
    match effect(SessionCommand::SendText { text: "hé".to_string() }) {
        Effect::Enqueue { data } => assert_eq!(data, "hé".as_bytes().to_vec()),
        _ => panic!("expected Enqueue"),
    }
    assert_eq!(text_bytes(&"ab".to_string()), b"ab".to_vec());
    assert_eq!(send_result(Ok(())), Ok(()));
    assert_eq!(send_result(Err(WSForkerError::Full)), Err(CommandError::Full));
    assert_eq!(send_result(Err(WSForkerError::Closed)), Err(CommandError::Closed));

    let mut reg: Registry<Arc<PrivateSessionData>> = Registry::new(5_000);
    let (data, _rx) = PrivateSessionData::init(320, 20_000, AudioMix::Mono);
    let data = Arc::new(data);
    reg.start(key("c", "f"), data.clone()).ok();
    match plan(&reg, &key("c", "f"), SessionCommand::Pause) {
        Ok((h, Effect::SetPaused { paused: true })) => assert!(Arc::ptr_eq(h, &data)),
        _ => panic!("expected the session and a pause"),
    }
    assert!(matches!(plan(&reg, &key("c", "other"), SessionCommand::Stop), Err(CommandError::NotFound)));
}

#[test]
fn stop_signals_cancellation() {
    let (data, rx) = PrivateSessionData::init(320, 20_000, AudioMix::Mono);
    assert!(!rx.cancel.is_signalled());
    data.stop();
    assert!(rx.cancel.is_signalled());
    data.stop();
    assert!(rx.cancel.is_signalled());
    let c = Cancellation::new();
    assert!(!c.is_signalled());
    c.signal();
    assert!(c.is_signalled());
}

#[test]
fn media_bug_flags_by_mix() {
    assert_eq!(bug_flags(AudioMix::Mono), 1);
    assert_eq!(bug_flags(AudioMix::Mixed), 3);
    assert_eq!(bug_flags(AudioMix::Stereo), 35);
}
