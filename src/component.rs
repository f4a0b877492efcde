//! What a widget asks of its host after it handled a message.
use vstd::prelude::*;

verus! {

/// Whether the host renders the widget again, and which of the widget's
/// callbacks it invokes (at most one, once, with the event's own payload).
#[derive(Clone, Copy, Debug, PartialEq, Eq)]
pub struct Effect<S> {
    pub render: bool,
    pub emit: Option<S>,
}

} // verus!
