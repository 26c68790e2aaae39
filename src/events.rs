use vstd::prelude::*;

verus! {

/// A notification about one forwarding session, as delivered to the observer.
///
/// Over the life of a session the observer receives `Connected`, then any
/// number of `Message`s, then exactly one of `Closed` or `Error`.
pub enum Body {
    Connected,
    Closed { code: Option<u16>, reason: Option<String> },
    Message { content: String },
    Error { desc: String },
    Overrun,
}

/// The mathematical value of a [`Body`]: its strings as character sequences.
pub enum BodyView {
    Connected,
    Closed { code: Option<u16>, reason: Option<Seq<char>> },
    Message { content: Seq<char> },
    Error { desc: Seq<char> },
    Overrun,
}

pub open spec fn opt_text(s: Option<String>) -> Option<Seq<char>> {
    match s {
        Some(t) => Some(t@),
        None => None,
    }
}

impl View for Body {
    type V = BodyView;

    open spec fn view(&self) -> BodyView {
        match self {
            Body::Connected => BodyView::Connected,
            Body::Closed { code, reason } => BodyView::Closed { code: *code, reason: opt_text(*reason) },
            Body::Message { content } => BodyView::Message { content: content@ },
            Body::Error { desc } => BodyView::Error { desc: desc@ },
            Body::Overrun => BodyView::Overrun,
        }
    }
}

impl BodyView {
    /// A notification that ends a session.
    pub open spec fn is_terminal(self) -> bool {
        self is Closed || self is Error
    }
}

impl Body {
    /// Whether this notification ends the session it belongs to.
    pub fn is_terminal(&self) -> (r: bool)
        ensures
            r == self@.is_terminal(),
    {
        match self {
            Body::Closed { .. } | Body::Error { .. } => true,
            _ => false,
        }
    }
}

/// A notification together with the call it is about.
pub struct WSForkEvent {
    pub session: String,
    pub body: Body,
}

impl WSForkEvent {
    pub fn new(session: String, body: Body) -> (r: WSForkEvent)
        ensures
            r.session@ == session@,
            r.body@ == body@,
    {
        WSForkEvent { session, body }
    }
}

} // verus!
