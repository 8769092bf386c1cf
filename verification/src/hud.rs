//! Process-wide HUD toggles: overlay visibility and audio mute.
//!
//! Each flag flips on an explicit request and is otherwise only observed.
//! The embedding program acts on the returned value (showing or hiding the
//! overlay, announcing the new mute state); this module only keeps the state.

use vstd::prelude::*;

verus! {

/// The two HUD toggles.  `muted` gates whether any component may queue an
/// audio cue; `visible` gates whether the overlay is shown.
#[derive(Clone, Copy, Debug, PartialEq, Eq, Structural)]
pub struct HudControlState {
    pub visible: bool,
    pub muted: bool,
}

impl HudControlState {
    /// The startup state: overlay shown, audio audible.
    pub fn new() -> (s: Self)
        ensures
            s.visible,
            !s.muted,
    {
        HudControlState { visible: true, muted: false }
    }

    /// Flip overlay visibility; returns the new value so the caller can
    /// show or hide the overlay accordingly.
    pub fn toggle_visible(&mut self) -> (visible: bool)
        ensures
            final(self).visible == !old(self).visible,
            final(self).muted == old(self).muted,
            visible == final(self).visible,
    {
        self.visible = !self.visible;
        self.visible
    }

    /// Flip the mute flag; returns the new value so the caller can notify
    /// observers of the change.
    pub fn toggle_mute(&mut self) -> (muted: bool)
        ensures
            final(self).muted == !old(self).muted,
            final(self).visible == old(self).visible,
            muted == final(self).muted,
    {
        self.muted = !self.muted;
        self.muted
    }
}

} // verus!
