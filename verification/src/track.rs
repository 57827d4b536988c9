//! The unit of playback.

use vstd::prelude::*;

verus! {

/// One playable unit: the resolved resource it plays from, plus the identity
/// of the user who requested it (kept for diagnostics). A `Track` is created
/// by the resolver, owned by the queue once enqueued, and handed to the audio
/// engine when the playback loop pops it.
#[derive(Debug)]
pub struct Track {
    /// The playable resource, as the resolver produced it.
    pub resource: String,
    /// The requesting user's identifier.
    pub requester: u64,
}

} // verus!
