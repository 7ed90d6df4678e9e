//! The protocol between a widget and the driver that does its outside work.
//!
//! A widget answers an event with a dispatch. The driver asks the widget for
//! the next [`Step`] of the dispatch, does what the step says, reports a
//! failure to the dispatch if there was one, and asks again, until the step
//! is [`Step::Complete`] or [`Step::Abort`]. The widget alone decides what
//! comes next; in particular it is the widget that stops at the first
//! failure.

use super::button::ButtonEvent;
use super::event::Size;
use super::identity::Identity;
use vstd::prelude::*;

verus! {

/// What the driver of a dispatch is to do next.
#[derive(Clone, Copy, Debug, PartialEq, Eq, Hash, Structural)]
pub enum Step {
    /// Give the widget's own frame this size. May fail.
    Resize(Size),
    /// Hand the panel event of this dispatch to the panel with this identity
    /// and wait until it has handled it. May fail.
    Deliver(Identity),
    /// Hand this button event to the panel with this identity and wait until
    /// it has handled it. May fail.
    Notify(Identity, ButtonEvent),
    /// The widget has put the panel event of this dispatch on its outward
    /// stream: await the handle that came with this step.
    Emitted,
    /// The widget has put this button event on its stream of button events:
    /// await the handle that came with this step.
    Announced(ButtonEvent),
    /// The dispatch is over and nothing failed.
    Complete,
    /// The dispatch is over because a step failed.
    Abort,
}

impl Step {
    /// Whether the dispatch is over with this step.
    pub open spec fn is_last(self) -> bool {
        self is Complete || self is Abort
    }

    /// Whether the step comes with a handle to await.
    pub open spec fn is_sent(self) -> bool {
        self is Emitted || self is Announced
    }
}

} // verus!
