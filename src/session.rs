use vstd::prelude::*;

use std::sync::atomic::{AtomicBool, Ordering};
use std::sync::Arc;
use vstd::string::StrSliceExecFns;
use vstd::utf8::encode_utf8;

use crate::fork::{new_wsfork, WSForkReceiver, WSForkSender, WSForkerError};
use crate::registry::{Registry, SessionKey};
use crate::tap::{capacity_of, channel_capacity, frame_size, frame_size_of, AudioMix, BUFFER_DURATION_US};

verus! {

/// What one forwarding session shares between the realtime tap and the
/// commands that reach it through the registry.
pub struct PrivateSessionData {
    tx: WSForkSender,
    paused: AtomicBool,
}

impl PrivateSessionData {
    pub closed spec fn frame_size(&self) -> usize {
        self.tx.frame_size()
    }

    /// Frames that the session's audio channel holds.
    pub closed spec fn capacity(&self) -> nat {
        self.tx.capacity()
    }

    /// Messages that the session's control channel holds.
    pub closed spec fn message_capacity(&self) -> nat {
        self.tx.message_capacity()
    }

    /// Sets up a session for a call whose codec yields `decoded_bytes_per_packet`
    /// bytes per leg every `microseconds_per_packet`: frames sized for `audio_mix`,
    /// channels holding about a tenth of a second of audio.
    pub fn init(decoded_bytes_per_packet: u32, microseconds_per_packet: i32, audio_mix: AudioMix) -> (r: (
        PrivateSessionData,
        WSForkReceiver,
    ))
        requires
            frame_size_of(decoded_bytes_per_packet as int, audio_mix) <= isize::MAX,
        ensures
            r.0.frame_size() == frame_size_of(decoded_bytes_per_packet as int, audio_mix),
            r.0.capacity() == capacity_of(microseconds_per_packet as int, BUFFER_DURATION_US as int),
            r.0.message_capacity() == capacity_of(microseconds_per_packet as int, BUFFER_DURATION_US as int),
    {
        let size = frame_size(decoded_bytes_per_packet, audio_mix) as usize;
        let capacity = channel_capacity(microseconds_per_packet, BUFFER_DURATION_US);
        let (tx, rx) = new_wsfork(size, capacity);
        (PrivateSessionData { tx, paused: AtomicBool::new(false) }, rx)
    }

    /// The producing side, for the realtime tap.
    pub fn sender(&self) -> (r: &WSForkSender)
        ensures
            r.frame_size() == self.frame_size(),
            r.capacity() == self.capacity(),
            r.message_capacity() == self.message_capacity(),
    {
        &self.tx
    }

    /// Pauses (`true`) or resumes (`false`) forwarding. The tap stays attached.
    pub fn pause(&self, state: bool) {
        self.paused.store(state, Ordering::Relaxed);
    }

    /// Whether forwarding is paused.
    pub fn is_paused(&self) -> bool {
        self.paused.load(Ordering::Relaxed)
    }

    /// Requests cancellation; the tap is removed when the engine next closes it.
    pub fn stop(&self) {
        self.tx.cancel();
    }

    /// Queues `msg` as a text message, as its UTF-8 bytes.
    pub fn send_text(&self, msg: String) -> (r: Result<(), WSForkerError>) {
        self.tx.send_message(text_bytes(&msg))
    }

    /// Carries out `effect` on this session. Only a message can fail, and then
    /// as the control channel answered.
    pub fn apply(&self, effect: Effect) -> (r: Result<(), CommandError>)
        ensures
            !(effect is Enqueue) ==> r is Ok,
            r != Err::<(), CommandError>(CommandError::NotFound),
    {
        match effect {
            Effect::Cancel => {
                self.stop();
                Ok(())
            },
            Effect::SetPaused { paused } => {
                self.pause(paused);
                Ok(())
            },
            Effect::Enqueue { data } => send_result(self.tx.send_message(data)),
        }
    }
}

/// The UTF-8 bytes of a text message.
pub fn text_bytes(msg: &String) -> (r: Vec<u8>)
    ensures
        r@ == encode_utf8(msg@),
{
    msg.as_str().as_bytes_vec()
}

/// A command that reaches a running session by its key.
pub enum SessionCommand {
    Stop,
    Pause,
    Resume,
    SendText { text: String },
}

/// Why a command failed.
#[derive(Clone, Copy, Debug, PartialEq, Eq, Structural)]
pub enum CommandError {
    /// No live session under the key.
    NotFound,
    /// The control channel is full.
    Full,
    /// The control channel's consumer is gone.
    Closed,
}

/// What a command does to a running session.
pub enum Effect {
    /// Signal cancellation.
    Cancel,
    /// Set the pause flag.
    SetPaused { paused: bool },
    /// Queue these bytes on the control channel.
    Enqueue { data: Vec<u8> },
}

pub enum EffectView {
    Cancel,
    SetPaused { paused: bool },
    Enqueue { data: Seq<u8> },
}

impl View for Effect {
    type V = EffectView;

    open spec fn view(&self) -> EffectView {
        match self {
            Effect::Cancel => EffectView::Cancel,
            Effect::SetPaused { paused } => EffectView::SetPaused { paused: *paused },
            Effect::Enqueue { data } => EffectView::Enqueue { data: data@ },
        }
    }
}

/// The effect of a command: stop cancels, pause and resume set the pause flag,
/// a text message queues its UTF-8 bytes.
pub open spec fn effect_of(cmd: SessionCommand) -> EffectView {
    match cmd {
        SessionCommand::Stop => EffectView::Cancel,
        SessionCommand::Pause => EffectView::SetPaused { paused: true },
        SessionCommand::Resume => EffectView::SetPaused { paused: false },
        SessionCommand::SendText { text } => EffectView::Enqueue { data: encode_utf8(text@) },
    }
}

pub fn effect(cmd: SessionCommand) -> (r: Effect)
    ensures
        r@ == effect_of(cmd),
{
    match cmd {
        SessionCommand::Stop => Effect::Cancel,
        SessionCommand::Pause => Effect::SetPaused { paused: true },
        SessionCommand::Resume => Effect::SetPaused { paused: false },
        SessionCommand::SendText { text } => Effect::Enqueue { data: text_bytes(&text) },
    }
}

/// A command's result for the control channel's answer to a message.
pub open spec fn send_result_of(sent: Result<(), WSForkerError>) -> Result<(), CommandError> {
    match sent {
        Ok(()) => Ok(()),
        Err(WSForkerError::Full) => Err(CommandError::Full),
        Err(WSForkerError::Closed) => Err(CommandError::Closed),
    }
}

pub fn send_result(sent: Result<(), WSForkerError>) -> (r: Result<(), CommandError>)
    ensures
        r == send_result_of(sent),
        r != Err::<(), CommandError>(CommandError::NotFound),
{
    match sent {
        Ok(()) => Ok(()),
        Err(WSForkerError::Full) => Err(CommandError::Full),
        Err(WSForkerError::Closed) => Err(CommandError::Closed),
    }
}

/// Resolves `key` and works out what `cmd` does to the session found: its
/// handle and the effect, or `NotFound` for a key that is not live.
pub fn plan<'a>(registry: &'a Registry<Arc<PrivateSessionData>>, key: &SessionKey, cmd: SessionCommand) -> (r: Result<
    (&'a Arc<PrivateSessionData>, Effect),
    CommandError,
>)
    requires
        registry.wf(),
    ensures
        registry.sessions().contains_key(key@) ==> (r matches Ok((h, e)) && *h == registry.sessions()[key@]
            && e@ == effect_of(cmd)),
        !registry.sessions().contains_key(key@) ==> r == Err::<(&Arc<PrivateSessionData>, Effect), CommandError>(
            CommandError::NotFound,
        ),
{
    match registry.lookup(key) {
        Ok(data) => Ok((data, effect(cmd))),
        Err(_) => Err(CommandError::NotFound),
    }
}

/// Carries out `cmd` on the session registered under `key`.
///
/// Stop, pause and resume succeed on any live session; a text message can
/// still fail on its control channel, never because of audio backpressure.
/// A key that is not live gives `NotFound`.
pub fn dispatch(registry: &Registry<Arc<PrivateSessionData>>, key: &SessionKey, cmd: SessionCommand) -> (r: Result<
    (),
    CommandError,
>)
    requires
        registry.wf(),
    ensures
        !registry.sessions().contains_key(key@) <==> r == Err::<(), CommandError>(CommandError::NotFound),
        registry.sessions().contains_key(key@) && !(cmd is SendText) ==> r is Ok,
{
    match plan(registry, key, cmd) {
        Err(e) => Err(e),
        Ok((data, e)) => data.apply(e),
    }
}

} // verus!
