use vstd::prelude::*;

use crate::close::{close_code_of, close_reason, close_reason_text_of, decode_text, text_of};
use crate::events::{opt_text, Body, BodyView};

verus! {

/// Close code of an orderly close that this side starts on cancellation.
pub const NORMAL_CLOSURE: u16 = 1000;

/// Close code used when the audio producer disappears without cancelling.
pub const GOING_AWAY: u16 = 1001;

/// Reason text sent with a close frame that this side starts.
pub open spec fn local_cancel_reason() -> Seq<char> {
    "LOCAL_CANCEL"@
}

/// The reason text sent with a close frame that this side starts.
pub fn cancel_reason() -> (r: String)
    ensures
        r@ == local_cancel_reason(),
{
    "LOCAL_CANCEL".to_owned()
}

/// Where a connection stands. States are only ever left forward; `Open` is the
/// one state that repeats while frames flow.
#[derive(Clone, Copy, Debug, PartialEq, Eq, Structural)]
pub enum ConnState {
    Connecting,
    Open,
    ClosingLocal,
    ClosingRemote,
    ClosedNormal,
    ClosedError,
}

/// Opcode of a frame read from the peer.
#[derive(Clone, Copy, Debug, PartialEq, Eq, Structural)]
pub enum OpCode {
    Continuation,
    Text,
    Binary,
    Close,
    Ping,
    Pong,
}

/// Something that happened to a connection, as seen by the task that drives it.
pub enum ConnEvent {
    /// The transport is up and the upgrade handshake succeeded.
    HandshakeDone,
    /// Resolving, connecting or the handshake failed.
    HandshakeFailed { desc: String },
    /// The cancellation signal fired.
    Cancelled,
    /// A text message is waiting on the control channel.
    ControlMessage { data: Vec<u8> },
    /// An audio frame is waiting on the forwarding channel.
    FrameReady,
    /// The forwarding channel ended: its producer is gone.
    ProducerGone,
    /// Writing an audio frame to the transport failed.
    WriteFailed { desc: String },
    /// A frame arrived from the peer.
    Incoming { opcode: OpCode, payload: Vec<u8> },
    /// Reading from the transport failed.
    ReadFailed { desc: String },
    /// The close frame of a closing connection has been dealt with.
    CloseFlushed,
}

/// A frame that the driving task is to write to the peer.
pub enum Outgoing {
    /// A text frame holding these bytes.
    Text { data: Vec<u8> },
    /// A binary frame holding the audio frame that is waiting.
    Binary,
    /// A close frame.
    Close { code: u16, reason: String },
}

pub enum OutgoingView {
    Text { data: Seq<u8> },
    Binary,
    Close { code: u16, reason: Seq<char> },
}

impl View for Outgoing {
    type V = OutgoingView;

    open spec fn view(&self) -> OutgoingView {
        match self {
            Outgoing::Text { data } => OutgoingView::Text { data: data@ },
            Outgoing::Binary => OutgoingView::Binary,
            Outgoing::Close { code, reason } => OutgoingView::Close { code: *code, reason: reason@ },
        }
    }
}

/// What one event asks of the driving task: a frame to write and a
/// notification to deliver, each optional.
pub struct Step {
    pub send: Option<Outgoing>,
    pub emit: Option<Body>,
}

pub open spec fn opt_out_view(o: Option<Outgoing>) -> Option<OutgoingView> {
    match o {
        Some(x) => Some(x@),
        None => None,
    }
}

pub open spec fn opt_body_view(o: Option<Body>) -> Option<BodyView> {
    match o {
        Some(x) => Some(x@),
        None => None,
    }
}

/// The abstract state of a connection: where it stands and, while closing, the
/// notification that will end it.
pub struct ConnView {
    pub state: ConnState,
    pub pending: Option<BodyView>,
}

/// The notification ending a close that this side started with `code`.
pub open spec fn local_close(code: u16) -> BodyView {
    BodyView::Closed { code: Some(code), reason: Some(local_cancel_reason()) }
}

/// The notification ending a close that the peer started with this payload.
pub open spec fn remote_close(payload: Seq<u8>) -> BodyView {
    BodyView::Closed { code: close_code_of(payload), reason: close_reason_text_of(payload) }
}

pub open spec fn closing_local(code: u16) -> (ConnView, Option<OutgoingView>, Option<BodyView>) {
    (
        ConnView { state: ConnState::ClosingLocal, pending: Some(local_close(code)) },
        Some(OutgoingView::Close { code, reason: local_cancel_reason() }),
        None,
    )
}

pub open spec fn failed(desc: String) -> (ConnView, Option<OutgoingView>, Option<BodyView>) {
    (ConnView { state: ConnState::ClosedError, pending: None }, None, Some(BodyView::Error { desc: desc@ }))
}

pub open spec fn finish_close(v: ConnView) -> (ConnView, Option<OutgoingView>, Option<BodyView>) {
    (ConnView { state: ConnState::ClosedNormal, pending: None }, None, v.pending)
}

/// The transition table: the next abstract state, the frame to write and the
/// notification to deliver when `e` happens in `v`.
///
/// Cancellation wins over anything else; a connection that fails to come up
/// reports one error and is not retried; closed connections ignore everything.
pub open spec fn transition(v: ConnView, e: ConnEvent) -> (ConnView, Option<OutgoingView>, Option<BodyView>) {
    let stay = (v, None, None);
    match v.state {
        ConnState::Connecting => match e {
            ConnEvent::HandshakeDone => (
                ConnView { state: ConnState::Open, pending: None },
                None,
                Some(BodyView::Connected),
            ),
            ConnEvent::HandshakeFailed { desc } => failed(desc),
            ConnEvent::Cancelled => (
                ConnView { state: ConnState::ClosedNormal, pending: None },
                None,
                Some(local_close(NORMAL_CLOSURE)),
            ),
            _ => stay,
        },
        ConnState::Open => match e {
            ConnEvent::Cancelled => closing_local(NORMAL_CLOSURE),
            ConnEvent::ProducerGone => closing_local(GOING_AWAY),
            ConnEvent::ControlMessage { data } => (v, Some(OutgoingView::Text { data: data@ }), None),
            ConnEvent::FrameReady => (v, Some(OutgoingView::Binary), None),
            ConnEvent::WriteFailed { desc } => failed(desc),
            ConnEvent::ReadFailed { desc } => failed(desc),
            ConnEvent::Incoming { opcode, payload } => match opcode {
                OpCode::Close => (
                    ConnView { state: ConnState::ClosingRemote, pending: Some(remote_close(payload@)) },
                    None,
                    None,
                ),
                OpCode::Text => (v, None, Some(BodyView::Message { content: text_of(payload@) })),
                _ => stay,
            },
            _ => stay,
        },
        ConnState::ClosingLocal | ConnState::ClosingRemote => match e {
            ConnEvent::CloseFlushed => finish_close(v),
            ConnEvent::WriteFailed { .. } => finish_close(v),
            ConnEvent::ReadFailed { .. } => finish_close(v),
            _ => stay,
        },
        _ => stay,
    }
}

/// A history of notifications of a session that is up and not ended:
/// `Connected` followed by messages only.
pub open spec fn live_history(h: Seq<BodyView>) -> bool {
    &&& h.len() >= 1
    &&& h[0] is Connected
    &&& forall|i: int| 1 <= i < h.len() ==> (#[trigger] h[i]) is Message
}

/// A history that may still be ended by a terminal notification.
pub open spec fn open_history(h: Seq<BodyView>) -> bool {
    h.len() == 0 || live_history(h)
}

/// A complete history: an open one followed by exactly one terminal notification.
pub open spec fn complete_history(h: Seq<BodyView>) -> bool {
    &&& h.len() >= 1
    &&& open_history(h.drop_last())
    &&& h.last().is_terminal()
}

pub open spec fn is_closed_state(s: ConnState) -> bool {
    s is ClosedNormal || s is ClosedError
}

/// Order of the states: a transition never goes to a lower rank.
pub open spec fn rank(s: ConnState) -> int {
    match s {
        ConnState::Connecting => 0,
        ConnState::Open => 1,
        ConnState::ClosingLocal => 2,
        ConnState::ClosingRemote => 2,
        ConnState::ClosedNormal => 3,
        ConnState::ClosedError => 3,
    }
}

/// The protocol state machine of one outbound streaming connection.
///
/// It performs no I/O: the task that owns the transport feeds it events and
/// carries out the frame writes and notifications it returns. It also keeps,
/// as ghost state, every notification handed out so far.
pub struct Connection {
    state: ConnState,
    pending: Option<Body>,
    history: Ghost<Seq<BodyView>>,
}

impl View for Connection {
    type V = ConnView;

    closed spec fn view(&self) -> ConnView {
        ConnView { state: self.state, pending: opt_body_view(self.pending) }
    }
}

impl Connection {
    /// The notifications handed out so far, oldest first.
    pub closed spec fn history(&self) -> Seq<BodyView> {
        self.history@
    }

    pub closed spec fn wf(&self) -> bool {
        &&& (self.state is ClosingLocal || self.state is ClosingRemote) <==> self.pending is Some
        &&& self.pending is Some ==> self.pending->Some_0@ is Closed
        &&& match self.state {
            ConnState::Connecting => self.history@.len() == 0,
            ConnState::Open | ConnState::ClosingLocal | ConnState::ClosingRemote => live_history(
                self.history@,
            ),
            ConnState::ClosedNormal => complete_history(self.history@) && self.history@.last() is Closed,
            ConnState::ClosedError => complete_history(self.history@) && self.history@.last() is Error,
        }
    }

    /// A connection that has not yet been established.
    pub fn new() -> (r: Connection)
        ensures
            r.wf(),
            r@.state == ConnState::Connecting,
            r@.pending is None,
            r.history() == Seq::<BodyView>::empty(),
    {
        Connection { state: ConnState::Connecting, pending: None, history: Ghost(Seq::empty()) }
    }

    pub fn state(&self) -> (r: ConnState)
        ensures
            r == self@.state,
    {
        self.state
    }

    /// Whether the connection has reached one of its final states.
    pub fn is_closed(&self) -> (r: bool)
        ensures
            r == is_closed_state(self@.state),
    {
        match self.state {
            ConnState::ClosedNormal | ConnState::ClosedError => true,
            _ => false,
        }
    }

    fn enter_closing(&mut self, state: ConnState, body: Body)
        requires
            old(self).wf(),
            old(self).state == ConnState::Open,
            state is ClosingLocal || state is ClosingRemote,
            body@ is Closed,
        ensures
            final(self).wf(),
            final(self).state == state,
            final(self).pending == Some(body),
            final(self).history() == old(self).history(),
    {
        self.state = state;
        self.pending = Some(body);
    }

    fn enter_closed(&mut self, state: ConnState, body: Body)
        requires
            old(self).wf(),
            old(self).state is Connecting || old(self).state is Open || old(self).state is ClosingLocal
                || old(self).state is ClosingRemote,
            state is ClosedNormal ==> body@ is Closed,
            state is ClosedError ==> body@ is Error,
            state is ClosedNormal || state is ClosedError,
        ensures
            final(self).wf(),
            final(self).state == state,
            final(self).pending is None,
            final(self).history() == old(self).history().push(body@),
    {
        let ghost h = self.history@;
        self.state = state;
        self.pending = None;
        self.history = Ghost(h.push(body@));
        assert(self.history@.drop_last() =~= h);
    }

    /// Feeds one event to the connection and returns what to do about it.
    pub fn step(&mut self, event: ConnEvent) -> (r: Step)
        requires
            old(self).wf(),
        ensures
            final(self).wf(),
            (final(self)@, opt_out_view(r.send), opt_body_view(r.emit)) == transition(old(self)@, event),
            final(self).history() == match opt_body_view(r.emit) {
                Some(b) => old(self).history().push(b),
                None => old(self).history(),
            },
    {
        match self.state {
            ConnState::Connecting => match event {
                ConnEvent::HandshakeDone => {
                    let ghost h = self.history@;
                    self.state = ConnState::Open;
                    self.history = Ghost(h.push(BodyView::Connected));
                    Step { send: None, emit: Some(Body::Connected) }
                },
                ConnEvent::HandshakeFailed { desc } => self.fail(desc),
                ConnEvent::Cancelled => {
                    let body = Body::Closed { code: Some(NORMAL_CLOSURE), reason: Some(cancel_reason()) };
                    let out = Body::Closed { code: Some(NORMAL_CLOSURE), reason: Some(cancel_reason()) };
                    self.enter_closed(ConnState::ClosedNormal, body);
                    Step { send: None, emit: Some(out) }
                },
                _ => Step { send: None, emit: None },
            },
            ConnState::Open => match event {
                ConnEvent::Cancelled => self.close_locally(NORMAL_CLOSURE),
                ConnEvent::ProducerGone => self.close_locally(GOING_AWAY),
                ConnEvent::ControlMessage { data } => Step { send: Some(Outgoing::Text { data }), emit: None },
                ConnEvent::FrameReady => Step { send: Some(Outgoing::Binary), emit: None },
                ConnEvent::WriteFailed { desc } => self.fail(desc),
                ConnEvent::ReadFailed { desc } => self.fail(desc),
                ConnEvent::Incoming { opcode, payload } => match opcode {
                    OpCode::Close => {
                        let cr = close_reason(payload.as_slice());
                        self.enter_closing(
                            ConnState::ClosingRemote,
                            Body::Closed { code: cr.code, reason: cr.reason },
                        );
                        Step { send: None, emit: None }
                    },
                    OpCode::Text => {
                        let content = decode_text(payload);
                        let ghost h = self.history@;
                        let ghost b = BodyView::Message { content: content@ };
                        self.history = Ghost(h.push(b));
                        assert forall|i: int| 1 <= i < self.history@.len() implies (
                        #[trigger] self.history@[i]) is Message by {
                            if i < h.len() {
                                assert(self.history@[i] == h[i]);
                            }
                        }
                        Step { send: None, emit: Some(Body::Message { content }) }
                    },
                    _ => Step { send: None, emit: None },
                },
                _ => Step { send: None, emit: None },
            },
            ConnState::ClosingLocal | ConnState::ClosingRemote => match event {
                ConnEvent::CloseFlushed => self.finish(),
                ConnEvent::WriteFailed { .. } => self.finish(),
                ConnEvent::ReadFailed { .. } => self.finish(),
                _ => Step { send: None, emit: None },
            },
            _ => Step { send: None, emit: None },
        }
    }

    fn fail(&mut self, desc: String) -> (r: Step)
        requires
            old(self).wf(),
            old(self).state is Connecting || old(self).state is Open,
        ensures
            final(self).wf(),
            (final(self)@, opt_out_view(r.send), opt_body_view(r.emit)) == failed(desc),
            final(self).history() == old(self).history().push(BodyView::Error { desc: desc@ }),
    {
        let d2 = desc.clone();
        self.enter_closed(ConnState::ClosedError, Body::Error { desc });
        Step { send: None, emit: Some(Body::Error { desc: d2 }) }
    }

    fn close_locally(&mut self, code: u16) -> (r: Step)
        requires
            old(self).wf(),
            old(self).state is Open,
        ensures
            final(self).wf(),
            (final(self)@, opt_out_view(r.send), opt_body_view(r.emit)) == closing_local(code),
            final(self).history() == old(self).history(),
    {
        self.enter_closing(
            ConnState::ClosingLocal,
            Body::Closed { code: Some(code), reason: Some(cancel_reason()) },
        );
        Step { send: Some(Outgoing::Close { code, reason: cancel_reason() }), emit: None }
    }

    fn finish(&mut self) -> (r: Step)
        requires
            old(self).wf(),
            old(self).state is ClosingLocal || old(self).state is ClosingRemote,
        ensures
            final(self).wf(),
            (final(self)@, opt_out_view(r.send), opt_body_view(r.emit)) == finish_close(old(self)@),
            final(self).history() == old(self).history().push(old(self)@.pending->Some_0),
    {
        let body = self.pending.take().unwrap();
        let ghost bv = body@;
        let ghost h = self.history@;
        self.state = ConnState::ClosedNormal;
        self.history = Ghost(h.push(bv));
        assert(self.history@.drop_last() =~= h);
        Step { send: None, emit: Some(body) }
    }
}

/// The notifications delivered for a session always form `Connected`, then
/// messages, then, once the connection is closed, exactly one `Closed` or
/// `Error`; before it is closed no terminal notification has been delivered.
pub proof fn lemma_notification_sequence(c: &Connection)
    requires
        c.wf(),
    ensures
        is_closed_state(c@.state) ==> complete_history(c.history()),
        !is_closed_state(c@.state) ==> open_history(c.history()),
        !is_closed_state(c@.state) ==> forall|i: int|
            0 <= i < c.history().len() ==> !(#[trigger] c.history()[i]).is_terminal(),
{
    let h = c.history();
    if !is_closed_state(c@.state) && h.len() > 0 {
        assert forall|i: int| 0 <= i < h.len() implies !(#[trigger] h[i]).is_terminal() by {
            if i > 0 {
                assert(h[i] is Message);
            }
        }
    }
}

/// Transitions only go forward: a state that is left is never reached again,
/// and a closed connection ignores every event.
pub proof fn lemma_forward_only(v: ConnView, e: ConnEvent)
    ensures
        rank(transition(v, e).0.state) >= rank(v.state),
        transition(v, e).0.state != v.state ==> rank(transition(v, e).0.state) > rank(v.state),
        is_closed_state(v.state) ==> transition(v, e) == (v, Option::<OutgoingView>::None, Option::<BodyView>::None),
{
}

/// Cancelling a connection on which nothing has been forwarded ends it with a
/// single `Closed` carrying the normal-closure code and the local-cancel reason,
/// and no message or error comes before it.
///
/// Cancelled while still connecting, that is the only notification; cancelled
/// once open, a close frame is written and the notification follows when it
/// has been dealt with.
pub proof fn lemma_cancel_closes_normally(v: ConnView)
    requires
        v.state is Connecting || v.state is Open,
    ensures
        v.state is Connecting ==> transition(v, ConnEvent::Cancelled) == (
            ConnView { state: ConnState::ClosedNormal, pending: None },
            Option::<OutgoingView>::None,
            Some(local_close(NORMAL_CLOSURE)),
        ),
        v.state is Open ==> transition(v, ConnEvent::Cancelled).1 == Some(
            OutgoingView::Close { code: NORMAL_CLOSURE, reason: local_cancel_reason() },
        ),
        v.state is Open ==> transition(v, ConnEvent::Cancelled).2 is None,
        v.state is Open ==> transition(transition(v, ConnEvent::Cancelled).0, ConnEvent::CloseFlushed) == (
            ConnView { state: ConnState::ClosedNormal, pending: None },
            Option::<OutgoingView>::None,
            Some(local_close(NORMAL_CLOSURE)),
        ),
{
}

/// An event source that the driving task can serve next.
#[derive(Clone, Copy, Debug, PartialEq, Eq, Structural)]
pub enum Source {
    Cancel,
    Control,
    Frame,
    Inbound,
}

/// Which event sources have something ready.
#[derive(Clone, Copy, Debug)]
pub struct Readiness {
    pub cancelled: bool,
    pub control: bool,
    pub frame: bool,
    pub inbound: bool,
}

/// The source to serve next among the ready ones, or `None` when none is.
///
/// Cancellation always wins. Otherwise outbound sources (control before audio)
/// go first, unless `inbound_first` is set and the peer has sent something; a
/// driver that flips `inbound_first` on every turn starves neither direction.
pub fn next_source(ready: Readiness, inbound_first: bool) -> (r: Option<Source>)
    ensures
        ready.cancelled ==> r == Some(Source::Cancel),
        !ready.cancelled && inbound_first && ready.inbound ==> r == Some(Source::Inbound),
        !ready.cancelled && !(inbound_first && ready.inbound) ==> r == (if ready.control {
            Some(Source::Control)
        } else if ready.frame {
            Some(Source::Frame)
        } else if ready.inbound {
            Some(Source::Inbound)
        } else {
            None
        }),
{
    if ready.cancelled {
        Some(Source::Cancel)
    } else if inbound_first && ready.inbound {
        Some(Source::Inbound)
    } else if ready.control {
        Some(Source::Control)
    } else if ready.frame {
        Some(Source::Frame)
    } else if ready.inbound {
        Some(Source::Inbound)
    } else {
        None
    }
}

} // verus!
