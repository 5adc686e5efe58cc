//! What becomes of a frame that is handed to the hub.

use vstd::prelude::*;

verus! {

/// The hub is gone, and a command cannot be answered.
#[derive(Clone, Copy, Debug, PartialEq, Eq, Structural)]
pub struct HubUnavailable;

impl HubUnavailable {
    /// What is wrong.
    pub fn message(&self) -> (result: &'static str)
        ensures
            result@ == "hub actor is no longer running"@,
    {
        "hub actor is no longer running"
    }
}

/// What became of a frame that must not block its reader.
#[derive(Clone, Copy, Debug, PartialEq, Eq, Structural)]
pub enum DeliveryOutcome {
    /// It was handed over.
    Queued,
    /// The queue is full, and it was dropped.
    Backpressured,
    /// The hub has stopped.
    Stopped,
}

} // verus!
