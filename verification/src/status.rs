//! The scheduler's finite status.

use vstd::prelude::*;

verus! {

/// The four states a voice-session scheduler can be in.
#[derive(Clone, Copy, Debug, PartialEq, Eq, Structural)]
pub enum Status {
    Playing,
    Idle,
    Paused,
    Disconnected,
}

/// A status admits new tracks exactly when the scheduler is connected:
/// `Idle`, `Playing` and `Paused` all accept an enqueue, `Disconnected`
/// rejects it.
pub open spec fn accepts_enqueue(s: Status) -> bool {
    !(s is Disconnected)
}

impl Status {
    /// Whether a track submitted while the scheduler is in `current_status`
    /// may enter the queue.
    pub fn should_enqueue(current_status: Status) -> (r: bool)
        ensures
            r == accepts_enqueue(current_status),
    {
        current_status != Status::Disconnected
    }

    /// The status's user-displayable label.
    pub fn label(&self) -> (r: &'static str)
        ensures
            *self is Playing ==> r@ == "Playing"@,
            *self is Idle ==> r@ == "Idle"@,
            *self is Paused ==> r@ == "Paused"@,
            *self is Disconnected ==> r@ == "Disconnected"@,
    {
        match self {
            Status::Playing => "Playing",
            Status::Idle => "Idle",
            Status::Paused => "Paused",
            Status::Disconnected => "Disconnected",
        }
    }
}

} // verus!
