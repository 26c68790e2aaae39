use vstd::prelude::*;

use std::sync::atomic::{AtomicBool, Ordering};
use std::sync::Arc;
use thingbuf::mpsc::errors::TrySendError as SlotError;
use thingbuf::mpsc::{Receiver as FrameReceiver, SendRef, Sender as FrameSender};
use thingbuf::recycling::WithCapacity;
use tokio::sync::mpsc::error::TrySendError as MessageError;
use tokio::sync::mpsc::{Receiver as MessageReceiver, Sender as MessageSender};
use tokio::sync::Notify;

use crate::tap::{
    keep_valid, on_frame_read, read_action_of, recycle_frame_buffer, valid_len_of, zeros, SlotStatus, TapAction,
};

verus! {

/// `thingbuf::mpsc::Sender`: producer of the audio channel, carried as is.
#[verifier::external_type_specification]
#[verifier::external_body]
#[verifier::reject_recursive_types(T)]
#[verifier::reject_recursive_types(R)]
pub struct ExFrameSender<T, R>(FrameSender<T, R>);

/// `thingbuf::mpsc::Receiver`: consumer of the audio channel, carried as is.
#[verifier::external_type_specification]
#[verifier::external_body]
#[verifier::reject_recursive_types(T)]
#[verifier::reject_recursive_types(R)]
pub struct ExFrameReceiver<T, R>(FrameReceiver<T, R>);

/// `thingbuf::mpsc::SendRef`: a claimed slot of the audio channel, queued when dropped.
#[verifier::external_type_specification]
#[verifier::external_body]
#[verifier::reject_recursive_types(T)]
pub struct ExSendRef<'a, T>(SendRef<'a, T>);

/// `thingbuf::recycling::WithCapacity`: the policy that keeps slot allocations.
#[verifier::external_type_specification]
#[verifier::external_body]
pub struct ExWithCapacity(WithCapacity);

/// `tokio::sync::mpsc::Sender`: producer of the control channel, carried as is.
#[verifier::external_type_specification]
#[verifier::external_body]
#[verifier::reject_recursive_types(T)]
pub struct ExMessageSender<T>(MessageSender<T>);

/// `tokio::sync::mpsc::Receiver`: consumer of the control channel, carried as is.
#[verifier::external_type_specification]
#[verifier::external_body]
#[verifier::reject_recursive_types(T)]
pub struct ExMessageReceiver<T>(MessageReceiver<T>);

/// `tokio::sync::Notify`: the cancellation signal, carried as is.
#[verifier::external_type_specification]
#[verifier::external_body]
pub struct ExNotify(Notify);

/// Why a frame slot or a message could not be had.
#[derive(Clone, Copy, Debug, PartialEq, Eq, Structural)]
pub enum WSForkerError {
    /// The consumer is behind: the channel is at capacity.
    Full,
    /// The consumer is gone.
    Closed,
}

/// Relies on `thingbuf::recycling::WithCapacity::with_min_capacity`: slots are
/// first allocated with room for `frame_size` bytes, and a recycled slot keeps
/// its allocation. Allocating more than `isize::MAX` bytes would panic.
#[verifier::external_body]
fn frame_recycling(frame_size: usize) -> WithCapacity
    requires
        frame_size <= isize::MAX,
{
    WithCapacity::new().with_min_capacity(frame_size)
}

/// Number of frame slots of the audio channel that a producer belongs to, fixed
/// when the channel is made.
pub uninterp spec fn frame_slots(tx: FrameSender<Vec<u8>, WithCapacity>) -> nat;

/// Number of messages that the control channel a producer belongs to can hold,
/// fixed when the channel is made.
pub uninterp spec fn message_slots(tx: MessageSender<Vec<u8>>) -> nat;

/// Relies on `thingbuf::mpsc::with_recycle`: a channel of `capacity` slots. It
/// panics unless
/// `0 < capacity <= usize::MAX / 2` (its `MAX_CAPACITY`).
#[verifier::external_body]
fn frame_channel(capacity: usize, recycle: WithCapacity) -> (r: (
    FrameSender<Vec<u8>, WithCapacity>,
    FrameReceiver<Vec<u8>, WithCapacity>,
))
    requires
        0 < capacity <= usize::MAX / 2,
    ensures
        frame_slots(r.0) == capacity,
{
    thingbuf::mpsc::with_recycle(capacity, recycle)
}

/// Relies on `tokio::sync::mpsc::channel`: a channel holding `capacity`
/// messages. It panics when `capacity` is zero
/// or above its semaphore's `MAX_PERMITS`, `usize::MAX >> 3`.
#[verifier::external_body]
fn message_channel(capacity: usize) -> (r: (MessageSender<Vec<u8>>, MessageReceiver<Vec<u8>>))
    requires
        0 < capacity <= usize::MAX / 8,
    ensures
        message_slots(r.0) == capacity,
{
    tokio::sync::mpsc::channel(capacity)
}

/// Relies on `tokio::sync::Notify::new`.
#[verifier::external_body]
fn new_notify() -> Notify {
    Notify::new()
}

/// Relies on `thingbuf::mpsc::Sender::try_send_ref`: it never waits; it yields a
/// free slot, or fails with `TrySendError::Full` when the channel is full and
/// otherwise because it is closed. Which, depends on the consumer.
#[verifier::external_body]
fn try_send_ref(tx: &FrameSender<Vec<u8>, WithCapacity>) -> Result<SendRef<'_, Vec<u8>>, WSForkerError> {
    tx.try_send_ref().map_err(|e| match e {
        SlotError::Full(_) => WSForkerError::Full,
        _ => WSForkerError::Closed,
    })
}

/// Relies on `tokio::sync::mpsc::Sender::try_send`: it never waits; it queues the
/// message, or fails with `TrySendError::Full` when the channel is at capacity
/// and `TrySendError::Closed` when its receiver is gone.
#[verifier::external_body]
fn try_send_message(tx: &MessageSender<Vec<u8>>, data: Vec<u8>) -> Result<(), WSForkerError> {
    tx.try_send(data).map_err(|e| match e {
        MessageError::Full(_) => WSForkerError::Full,
        MessageError::Closed(_) => WSForkerError::Closed,
    })
}

/// Relies on `tokio::sync::Notify::notify_waiters`: wakes every task that is
/// waiting, or has enabled a wait, at the time of the call.
#[verifier::external_body]
fn notify_all(n: &Notify) {
    n.notify_waiters()
}

/// The bytes that a claimed slot of the audio channel holds.
pub uninterp spec fn slot_bytes(slot: SendRef<'_, Vec<u8>>) -> Seq<u8>;

/// Relies on `DerefMut` of `thingbuf::mpsc::SendRef`: the buffer of the claimed
/// slot itself, so that what is written through it is what the slot holds.
#[verifier::external_body]
fn slot_buffer<'a, 'b>(slot: &'b mut SendRef<'a, Vec<u8>>) -> (r: &'b mut Vec<u8>)
    ensures
        r@ == slot_bytes(*old(slot)),
        slot_bytes(*final(slot)) == final(r)@,
{
    &mut **slot
}

impl WSForkerError {
    /// How the realtime tap sees this failure to take a slot.
    pub fn slot_status(&self) -> (r: SlotStatus)
        ensures
            *self is Full ==> r == SlotStatus::Full,
            *self is Closed ==> r == SlotStatus::Closed,
    {
        match self {
            WSForkerError::Full => SlotStatus::Full,
            WSForkerError::Closed => SlotStatus::Closed,
        }
    }
}

/// A cancellation signal: a flag that is only ever set, and a broadcast wake.
///
/// A waiter enables its wait on [`Cancellation::waker`] and then reads
/// [`Cancellation::is_signalled`]; a signal given before the read is seen by the
/// read, one given after it wakes the wait, so none is missed.
pub struct Cancellation {
    flag: AtomicBool,
    wake: Notify,
}

impl Cancellation {
    pub fn new() -> Cancellation {
        Cancellation { flag: AtomicBool::new(false), wake: new_notify() }
    }

    /// Sets the flag and wakes every waiter. Signalling again is harmless.
    pub fn signal(&self) {
        self.flag.store(true, Ordering::SeqCst);
        notify_all(&self.wake);
    }

    /// Whether the signal has been given.
    pub fn is_signalled(&self) -> bool {
        self.flag.load(Ordering::SeqCst)
    }

    /// What waiters wait on.
    pub fn waker(&self) -> &Notify {
        &self.wake
    }
}

/// The producing side of a forwarding session: the audio channel's producer,
/// the control channel's producer and the cancellation signal.
///
/// The two channels are separate queues: one being full or closed has no
/// bearing on the other.
pub struct WSForkSender {
    tx_audio: FrameSender<Vec<u8>, WithCapacity>,
    tx_msg: MessageSender<Vec<u8>>,
    cancel: Arc<Cancellation>,
    frame_size: usize,
}

/// The consuming side of a forwarding session, handed to the task that drives
/// the connection.
pub struct WSForkReceiver {
    pub rx_audio: FrameReceiver<Vec<u8>, WithCapacity>,
    pub rx_msg: MessageReceiver<Vec<u8>>,
    pub cancel: Arc<Cancellation>,
}

/// Creates the channels of one forwarding session: an audio channel of
/// `buffer_duration` frame slots of `frame_size` bytes, a control channel of
/// `buffer_duration` messages, and a cancellation signal shared by both sides.
pub fn new_wsfork(frame_size: usize, buffer_duration: usize) -> (r: (WSForkSender, WSForkReceiver))
    requires
        0 < buffer_duration <= usize::MAX / 8,
        frame_size <= isize::MAX,
    ensures
        r.0.frame_size() == frame_size,
        r.0.capacity() == buffer_duration,
        r.0.message_capacity() == buffer_duration,
{
    let (tx_audio, rx_audio) = frame_channel(buffer_duration, frame_recycling(frame_size));
    let (tx_msg, rx_msg) = message_channel(buffer_duration);
    let cancel = Arc::new(Cancellation::new());
    let cancel2 = cancel.clone();
    (
        WSForkSender { tx_audio, tx_msg, cancel, frame_size },
        WSForkReceiver { rx_audio, rx_msg, cancel: cancel2 },
    )
}

impl WSForkSender {
    pub closed spec fn frame_size(&self) -> usize {
        self.frame_size
    }

    /// Frames that the audio channel holds.
    pub closed spec fn capacity(&self) -> nat {
        frame_slots(self.tx_audio)
    }

    /// Messages that the control channel holds.
    pub closed spec fn message_capacity(&self) -> nat {
        message_slots(self.tx_msg)
    }

    /// Bytes in each frame slot.
    pub fn frame_len(&self) -> (r: usize)
        ensures
            r == self.frame_size(),
    {
        self.frame_size
    }

    /// Takes a free frame slot without waiting, reset to `frame_size` zero
    /// bytes; the frame is queued when the slot is dropped. Fails with `Full`
    /// when the consumer is behind and `Closed` when it is gone.
    pub fn get_next_free_buffer(&self) -> (r: Result<SendRef<'_, Vec<u8>>, WSForkerError>)
        ensures
            r matches Ok(slot) ==> slot_bytes(slot) == zeros(self.frame_size() as nat),
    {
        match try_send_ref(&self.tx_audio) {
            Ok(mut slot) => {
                recycle_frame_buffer(slot_buffer(&mut slot), self.frame_size);
                Ok(slot)
            },
            Err(e) => Err(e),
        }
    }

    /// Queues a text message on the control channel without waiting. Fails with
    /// `Full` when the control channel is at capacity and `Closed` when its
    /// consumer is gone; the audio channel plays no part.
    pub fn send_message(&self, data: Vec<u8>) -> (r: Result<(), WSForkerError>) {
        try_send_message(&self.tx_msg, data)
    }

    /// Signals cancellation to the consuming side. Signalling again is harmless.
    pub fn cancel(&self) {
        self.cancel.signal();
    }
}

/// Completes a slot that the engine was asked to fill: `read` is the number of
/// bytes it wrote, and the slot is cut down to them so that only the frame's
/// valid bytes are forwarded; `None` is a failed read, which ends the tap.
pub fn finish_frame(slot: &mut SendRef<'_, Vec<u8>>, read: Option<usize>) -> (r: TapAction)
    ensures
        r == read_action_of(read),
        read matches Some(n) ==> slot_bytes(*final(slot)) == slot_bytes(*old(slot)).take(
            valid_len_of(n as int, slot_bytes(*old(slot)).len() as int),
        ),
        read is None ==> slot_bytes(*final(slot)) == slot_bytes(*old(slot)),
{
    if let Some(n) = read {
        keep_valid(slot_buffer(slot), n);
    }
    on_frame_read(read)
}

} // verus!
