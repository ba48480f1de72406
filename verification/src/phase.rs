//! Events of the build stream.

use vstd::prelude::*;

verus! {

/// The text of an optional string, as a sequence of characters.
pub open spec fn text_of(s: Option<String>) -> Option<Seq<char>> {
    match s {
        Some(t) => Some(t@),
        None => None,
    }
}

/// A copy of an optional string.
pub fn clone_text(text: &Option<String>) -> (copy: Option<String>)
    ensures
        text_of(copy) == text_of(*text),
{
    match text {
        Some(s) => Some(s.clone()),
        None => None,
    }
}

/// A stage of the provisioning pipeline, without its payload.
#[derive(Clone, Copy, Debug, PartialEq, Eq, Structural)]
pub enum PhaseKind {
    Waiting,
    Building,
    Built,
    Fetching,
    Launching,
    Ready,
    Failed,
    Unknown,
}

/// One event decoded from a line of the build stream.
///
/// `Ready` is the only event that ends a build in success and `Failed` the
/// only one that ends it in failure; every other event reports progress.
#[derive(Debug, PartialEq, Eq)]
pub enum PhaseEvent {
    Waiting { message: Option<String> },
    Building { message: Option<String> },
    Built { message: Option<String> },
    Fetching { message: Option<String> },
    Launching { message: Option<String> },
    Ready { url: String, token: String },
    Failed { message: Option<String> },
    Unknown { message: Option<String> },
}

/// The mathematical value of a [`PhaseEvent`].
pub enum PhaseEventView {
    Waiting { message: Option<Seq<char>> },
    Building { message: Option<Seq<char>> },
    Built { message: Option<Seq<char>> },
    Fetching { message: Option<Seq<char>> },
    Launching { message: Option<Seq<char>> },
    Ready { url: Seq<char>, token: Seq<char> },
    Failed { message: Option<Seq<char>> },
    Unknown { message: Option<Seq<char>> },
}

impl PhaseEventView {
    /// The stage that the event reports.
    pub open spec fn kind(self) -> PhaseKind {
        match self {
            PhaseEventView::Waiting { .. } => PhaseKind::Waiting,
            PhaseEventView::Building { .. } => PhaseKind::Building,
            PhaseEventView::Built { .. } => PhaseKind::Built,
            PhaseEventView::Fetching { .. } => PhaseKind::Fetching,
            PhaseEventView::Launching { .. } => PhaseKind::Launching,
            PhaseEventView::Ready { .. } => PhaseKind::Ready,
            PhaseEventView::Failed { .. } => PhaseKind::Failed,
            PhaseEventView::Unknown { .. } => PhaseKind::Unknown,
        }
    }

    /// Whether the event ends the build, in success or in failure.
    pub open spec fn is_terminal(self) -> bool {
        self is Ready || self is Failed
    }
}

impl View for PhaseEvent {
    type V = PhaseEventView;

    open spec fn view(&self) -> PhaseEventView {
        match *self {
            PhaseEvent::Waiting { message } => PhaseEventView::Waiting { message: text_of(message) },
            PhaseEvent::Building { message } => PhaseEventView::Building {
                message: text_of(message),
            },
            PhaseEvent::Built { message } => PhaseEventView::Built { message: text_of(message) },
            PhaseEvent::Fetching { message } => PhaseEventView::Fetching {
                message: text_of(message),
            },
            PhaseEvent::Launching { message } => PhaseEventView::Launching {
                message: text_of(message),
            },
            PhaseEvent::Ready { url, token } => PhaseEventView::Ready { url: url@, token: token@ },
            PhaseEvent::Failed { message } => PhaseEventView::Failed { message: text_of(message) },
            PhaseEvent::Unknown { message } => PhaseEventView::Unknown {
                message: text_of(message),
            },
        }
    }
}

impl Clone for PhaseEvent {
    fn clone(&self) -> (copy: Self)
        ensures
            copy@ == self@,
    {
        match self {
            PhaseEvent::Waiting { message } => PhaseEvent::Waiting { message: clone_text(message) },
            PhaseEvent::Building { message } => PhaseEvent::Building {
                message: clone_text(message),
            },
            PhaseEvent::Built { message } => PhaseEvent::Built { message: clone_text(message) },
            PhaseEvent::Fetching { message } => PhaseEvent::Fetching {
                message: clone_text(message),
            },
            PhaseEvent::Launching { message } => PhaseEvent::Launching {
                message: clone_text(message),
            },
            PhaseEvent::Ready { url, token } => PhaseEvent::Ready {
                url: url.clone(),
                token: token.clone(),
            },
            PhaseEvent::Failed { message } => PhaseEvent::Failed { message: clone_text(message) },
            PhaseEvent::Unknown { message } => PhaseEvent::Unknown {
                message: clone_text(message),
            },
        }
    }
}

impl PhaseEvent {
    /// The stage that the event reports.
    pub fn kind(&self) -> (k: PhaseKind)
        ensures
            k == self@.kind(),
    {
        match self {
            PhaseEvent::Waiting { .. } => PhaseKind::Waiting,
            PhaseEvent::Building { .. } => PhaseKind::Building,
            PhaseEvent::Built { .. } => PhaseKind::Built,
            PhaseEvent::Fetching { .. } => PhaseKind::Fetching,
            PhaseEvent::Launching { .. } => PhaseKind::Launching,
            PhaseEvent::Ready { .. } => PhaseKind::Ready,
            PhaseEvent::Failed { .. } => PhaseKind::Failed,
            PhaseEvent::Unknown { .. } => PhaseKind::Unknown,
        }
    }

    /// Whether the event ends the build, in success or in failure.
    pub fn is_terminal(&self) -> (b: bool)
        ensures
            b == self@.is_terminal(),
    {
        match self {
            PhaseEvent::Ready { .. } => true,
            PhaseEvent::Failed { .. } => true,
            _ => false,
        }
    }
}

} // verus!
