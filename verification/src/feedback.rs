//! Audio feedback for recording state.
//!
//! Feedback sounds are played by the surrounding program; the library
//! keeps the one decision involved: whether feedback is enabled at all.
//! Playback failures are best-effort and never abort the recording cycle.

use vstd::prelude::*;

verus! {

/// Audio feedback player settings.
pub struct FeedbackPlayer {
    enabled: bool,
}

impl FeedbackPlayer {
    /// Whether sound feedback is enabled.
    pub closed spec fn spec_enabled(&self) -> bool {
        self.enabled
    }

    /// Create a new feedback player.
    pub fn new(enabled: bool) -> (r: FeedbackPlayer)
        ensures
            r.spec_enabled() == enabled,
    {
        FeedbackPlayer { enabled }
    }

    /// Whether a feedback sound should be played at all: playback is
    /// attempted exactly when feedback is enabled.
    pub fn is_enabled(&self) -> (r: bool)
        ensures
            r == self.spec_enabled(),
    {
        self.enabled
    }
}

} // verus!
