//! System tray state shown to the user.
//!
//! The tray icon itself is a platform service; the library only decides
//! which state the tray should show and which tooltip belongs to it.

use vstd::prelude::*;

verus! {

/// State of the system tray icon.
#[derive(Debug, Clone, Copy, PartialEq, Eq, Structural)]
pub enum TrayState {
    /// No recording in progress.
    Idle,
    /// A recording is in progress.
    Recording,
}

/// The tooltip text shown for a tray state.
pub open spec fn spec_tooltip(state: TrayState) -> Seq<char> {
    match state {
        TrayState::Idle => "Speedy STT - Idle"@,
        TrayState::Recording => "Speedy STT - Recording"@,
    }
}

/// Tooltip text for the given tray state.
pub fn tooltip_for(state: TrayState) -> (r: &'static str)
    ensures
        r@ == spec_tooltip(state),
{
    match state {
        TrayState::Idle => "Speedy STT - Idle",
        TrayState::Recording => "Speedy STT - Recording",
    }
}

} // verus!
