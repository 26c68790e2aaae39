use vstd::prelude::*;

verus! {

/// Which audio of the call is tapped.
#[derive(Clone, Copy, Debug, PartialEq, Eq, Structural)]
pub enum AudioMix {
    /// The read leg only.
    Mono,
    /// Both legs, one per channel.
    Stereo,
    /// Both legs mixed into one channel.
    Mixed,
}

impl AudioMix {
    pub fn default_mix() -> (r: AudioMix)
        ensures
            r == AudioMix::Mixed,
    {
        AudioMix::Mixed
    }
}

/// Media-bug flag of the engine: tap the read stream.
pub const SMBF_READ_STREAM: u32 = 1;

/// Media-bug flag of the engine: tap the write stream.
pub const SMBF_WRITE_STREAM: u32 = 2;

/// Media-bug flag of the engine: deliver the two streams as two channels.
pub const SMBF_STEREO: u32 = 32;

/// The media-bug flags that a mix asks of the engine.
pub open spec fn bug_flags_of(mix: AudioMix) -> u32 {
    match mix {
        AudioMix::Mono => SMBF_READ_STREAM,
        AudioMix::Mixed => SMBF_READ_STREAM | SMBF_WRITE_STREAM,
        AudioMix::Stereo => SMBF_READ_STREAM | SMBF_WRITE_STREAM | SMBF_STEREO,
    }
}

/// The media-bug flags to attach the tap with: mono taps the read leg, mixed
/// both legs, stereo both legs as separate channels.
pub fn bug_flags(mix: AudioMix) -> (r: u32)
    ensures
        r == bug_flags_of(mix),
{
    match mix {
        AudioMix::Mono => SMBF_READ_STREAM,
        AudioMix::Mixed => SMBF_READ_STREAM | SMBF_WRITE_STREAM,
        AudioMix::Stereo => SMBF_READ_STREAM | SMBF_WRITE_STREAM | SMBF_STEREO,
    }
}

/// Audio buffered ahead of the connection, in microseconds.
pub const BUFFER_DURATION_US: u64 = 100_000;

/// Fewest frames the forwarding channel holds.
pub const MIN_CAPACITY: usize = 1;

/// Most frames the forwarding channel holds.
pub const MAX_CAPACITY: usize = 5;

/// Capacity used when the packetization interval cannot be read.
pub const FALLBACK_CAPACITY: usize = 3;

pub open spec fn ceil_div(a: int, b: int) -> int {
    a / b + if a % b == 0 { 0int } else { 1int }
}

pub open spec fn clamp(x: int, lo: int, hi: int) -> int {
    if x < lo {
        lo
    } else if x > hi {
        hi
    } else {
        x
    }
}

/// Frames that the forwarding channel holds for this packetization interval
/// (in microseconds) and buffered duration.
pub open spec fn capacity_of(interval_us: int, duration_us: int) -> int {
    if interval_us < 0 {
        FALLBACK_CAPACITY as int
    } else {
        let n = if interval_us < 1 { 1int } else { interval_us };
        clamp(ceil_div(duration_us, n), MIN_CAPACITY as int, MAX_CAPACITY as int)
    }
}

/// Bytes in one frame of this mix, for a codec producing
/// `decoded_bytes_per_packet` bytes per packet and leg.
pub open spec fn frame_size_of(decoded_bytes_per_packet: int, mix: AudioMix) -> int {
    match mix {
        AudioMix::Stereo => 2 * decoded_bytes_per_packet,
        _ => decoded_bytes_per_packet,
    }
}

/// Size of one frame buffer: a stereo tap carries both legs.
pub fn frame_size(decoded_bytes_per_packet: u32, mix: AudioMix) -> (r: u64)
    ensures
        r == frame_size_of(decoded_bytes_per_packet as int, mix),
{
    match mix {
        AudioMix::Stereo => decoded_bytes_per_packet as u64 * 2,
        _ => decoded_bytes_per_packet as u64,
    }
}

/// Number of frame slots of the forwarding channel: the buffered duration over
/// the packetization interval, rounded up and clamped to a few slots. A
/// negative interval, which cannot be a duration, gives the fallback.
pub fn channel_capacity(interval_us: i32, duration_us: u64) -> (r: usize)
    ensures
        r == capacity_of(interval_us as int, duration_us as int),
        MIN_CAPACITY <= r <= MAX_CAPACITY,
{
    if interval_us < 0 {
        return FALLBACK_CAPACITY;
    }
    let n: u64 = if interval_us < 1 { 1 } else { interval_us as u64 };
    let q: u64 = duration_us / n;
    if q >= MAX_CAPACITY as u64 {
        return MAX_CAPACITY;
    }
    let ceil: u64 = if duration_us % n == 0 { q } else { q + 1 };
    if ceil < MIN_CAPACITY as u64 {
        MIN_CAPACITY
    } else if ceil > MAX_CAPACITY as u64 {
        MAX_CAPACITY
    } else {
        ceil as usize
    }
}

/// A sequence of `n` zero bytes.
pub open spec fn zeros(n: nat) -> Seq<u8> {
    Seq::new(n, |i: int| 0u8)
}

/// A fresh frame buffer of `size` zero bytes.
pub fn new_frame_buffer(size: usize) -> (r: Vec<u8>)
    ensures
        r@ == zeros(size as nat),
{
    let mut buf: Vec<u8> = Vec::new();
    let mut i: usize = 0;
    while i < size
        invariant
            i <= size,
            buf@ == zeros(i as nat),
        decreases size - i,
    {
        buf.push(0);
        i = i + 1;
        assert(buf@ =~= zeros(i as nat));
    }
    buf
}

/// Makes a used buffer ready for the next frame: `size` zero bytes, in the
/// buffer's own storage.
pub fn recycle_frame_buffer(buf: &mut Vec<u8>, size: usize)
    ensures
        final(buf)@ == zeros(size as nat),
{
    buf.truncate(size);
    let mut i: usize = 0;
    let n = buf.len();
    while i < n
        invariant
            i <= n,
            n == buf@.len(),
            n <= size,
            forall|j: int| 0 <= j < i ==> buf@[j] == 0u8,
        decreases n - i,
    {
        buf.set(i, 0);
        i = i + 1;
    }
    while buf.len() < size
        invariant
            buf@.len() <= size,
            forall|j: int| 0 <= j < buf@.len() ==> buf@[j] == 0u8,
        decreases size - buf@.len(),
    {
        buf.push(0);
    }
    assert(buf@ =~= zeros(size as nat));
}

/// An event that the media engine delivers to the tap on its realtime thread.
#[derive(Clone, Copy, Debug, PartialEq, Eq, Structural)]
pub enum TapEvent {
    Init,
    Read,
    Close,
    /// Any other event of the engine.
    Other,
}

/// What the realtime callback does next.
#[derive(Clone, Copy, Debug, PartialEq, Eq, Structural)]
pub enum TapAction {
    /// Nothing to do; the tap stays.
    Continue,
    /// Try to take a free slot of the forwarding channel.
    AcquireSlot,
    /// A slot was taken: read the frame into it.
    FillSlot,
    /// The channel is full: drop this frame, count it, and keep the tap.
    DropFrame,
    /// Stop tapping: the tap is removed.
    Detach,
    /// The engine is detaching: cancel, wait a bounded time for the connection
    /// task, and retire the session.
    Teardown,
}

/// Outcome of taking a slot of the forwarding channel.
#[derive(Clone, Copy, Debug, PartialEq, Eq, Structural)]
pub enum SlotStatus {
    Acquired,
    Full,
    Closed,
}

/// Whether the tap stays attached after this action.
pub open spec fn keeps_tap(a: TapAction) -> bool {
    !(a is Detach || a is Teardown)
}

/// Whether this action sends audio toward the channel.
pub open spec fn forwards(a: TapAction) -> bool {
    a is AcquireSlot || a is FillSlot
}

/// The answer to give the engine after `action`: `true` keeps the tap.
pub fn keep_tap(action: TapAction) -> (r: bool)
    ensures
        r == keeps_tap(action),
{
    match action {
        TapAction::Detach | TapAction::Teardown => false,
        _ => true,
    }
}

/// First decision on an engine event: a close tears down, a read forwards
/// unless paused, anything else leaves the tap as it is.
pub open spec fn tap_action_of(event: TapEvent, paused: bool) -> TapAction {
    match event {
        TapEvent::Close => TapAction::Teardown,
        TapEvent::Read => if paused {
            TapAction::Continue
        } else {
            TapAction::AcquireSlot
        },
        _ => TapAction::Continue,
    }
}

/// First decision on an engine event. A paused tap forwards nothing but stays.
pub fn on_tap_event(event: TapEvent, paused: bool) -> (r: TapAction)
    ensures
        r == tap_action_of(event, paused),
{
    match event {
        TapEvent::Close => TapAction::Teardown,
        TapEvent::Read => if paused {
            TapAction::Continue
        } else {
            TapAction::AcquireSlot
        },
        _ => TapAction::Continue,
    }
}

/// Decision after trying to take a slot: a full channel costs this frame only;
/// a closed one ends the tap, though not the call.
pub open spec fn slot_action_of(status: SlotStatus) -> TapAction {
    match status {
        SlotStatus::Acquired => TapAction::FillSlot,
        SlotStatus::Full => TapAction::DropFrame,
        SlotStatus::Closed => TapAction::Detach,
    }
}

pub fn on_slot(status: SlotStatus) -> (r: TapAction)
    ensures
        r == slot_action_of(status),
{
    match status {
        SlotStatus::Acquired => TapAction::FillSlot,
        SlotStatus::Full => TapAction::DropFrame,
        SlotStatus::Closed => TapAction::Detach,
    }
}

/// Decision after reading a frame into a slot: `read` is the number of bytes
/// the engine wrote, or `None` where the read failed, which ends the tap.
pub open spec fn read_action_of(read: Option<usize>) -> TapAction {
    match read {
        Some(_) => TapAction::Continue,
        None => TapAction::Detach,
    }
}

pub fn on_frame_read(read: Option<usize>) -> (r: TapAction)
    ensures
        r == read_action_of(read),
{
    match read {
        Some(_) => TapAction::Continue,
        None => TapAction::Detach,
    }
}

/// Number of leading bytes of a buffer of `len` bytes that hold a frame of
/// `n` bytes read into it.
pub open spec fn valid_len_of(n: int, len: int) -> int {
    if n < len {
        n
    } else {
        len
    }
}

/// Cuts a filled buffer down to the `n` bytes that were read into it, so that
/// exactly the frame's valid bytes are forwarded.
pub fn keep_valid(buf: &mut Vec<u8>, n: usize)
    ensures
        final(buf)@ == old(buf)@.take(valid_len_of(n as int, old(buf)@.len() as int)),
{
    buf.truncate(n);
    assert(buf@ =~= old(buf)@.take(valid_len_of(n as int, old(buf)@.len() as int)));
}

/// What the realtime side has counted for one tap.
pub struct TapStats {
    dropped: u64,
}

impl TapStats {
    /// Frames dropped because the forwarding channel was full.
    pub closed spec fn dropped_spec(&self) -> u64 {
        self.dropped
    }

    pub fn new() -> (r: TapStats)
        ensures
            r.dropped_spec() == 0,
    {
        TapStats { dropped: 0 }
    }

    pub fn dropped(&self) -> (r: u64)
        ensures
            r == self.dropped_spec(),
    {
        self.dropped
    }

    /// Counts the outcome of one engine event: a dropped frame adds one, up
    /// to `u64::MAX`; any other action leaves the count.
    pub fn record(&mut self, action: TapAction)
        ensures
            action is DropFrame ==> final(self).dropped_spec() == if old(self).dropped_spec() == u64::MAX {
                u64::MAX
            } else {
                (old(self).dropped_spec() + 1) as u64
            },
            !(action is DropFrame) ==> final(self).dropped_spec() == old(self).dropped_spec(),
    {
        if let TapAction::DropFrame = action {
            if self.dropped < u64::MAX {
                self.dropped = self.dropped + 1;
            }
        }
    }
}

/// A paused tap forwards no audio, yet answers every read with "continue": only
/// the engine's close event, or the channel closing after a stop, removes it.
pub proof fn lemma_paused_tap_stays(event: TapEvent)
    ensures
        event is Read ==> !forwards(tap_action_of(event, true)) && keeps_tap(tap_action_of(event, true)),
        !(event is Close) ==> keeps_tap(tap_action_of(event, true)),
{
}

} // verus!
