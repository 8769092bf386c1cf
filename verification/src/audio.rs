//! Audio cues: the tone requested for each zone transition, for the one-shot
//! near-max warning, and for the release.
//!
//! An [`AudioCmd`] is a transient value handed to whatever owns the audio
//! device; this module only decides which tone is due, never plays one.

use vstd::prelude::*;

use crate::zone::Zone;

verus! {

/// A request to play a single sine tone: frequency in hertz, duration in
/// milliseconds.
#[derive(Clone, Copy, Debug, PartialEq, Eq, Structural)]
pub struct AudioCmd {
    pub freq: u32,
    pub ms: u64,
}

/// The cue queued when the hold first enters a zone.  `Neutral` has no cue.
pub open spec fn zone_cue(z: Zone) -> Option<AudioCmd> {
    match z {
        Zone::Neutral => Option::None,
        Zone::Tap => Option::Some(AudioCmd { freq: 220, ms: 40 }),
        Zone::Small => Option::Some(AudioCmd { freq: 260, ms: 40 }),
        Zone::Mid => Option::Some(AudioCmd { freq: 300, ms: 40 }),
        Zone::Large => Option::Some(AudioCmd { freq: 340, ms: 40 }),
        Zone::Full => Option::Some(AudioCmd { freq: 420, ms: 60 }),
    }
}

/// The one-shot warning cue, fired the first time a hold reaches the
/// near-max frame threshold.
pub open spec fn threshold_cue() -> AudioCmd {
    AudioCmd { freq: 350, ms: 80 }
}

/// The terminal cue queued at release, fixed regardless of zone.
pub open spec fn release_cue() -> AudioCmd {
    AudioCmd { freq: 600, ms: 100 }
}

/// The cue for entering `z`, as an executable value.
pub fn cue_for_zone(z: Zone) -> (r: Option<AudioCmd>)
    ensures
        r == zone_cue(z),
{
    match z {
        Zone::Neutral => Option::None,
        Zone::Tap => Option::Some(AudioCmd { freq: 220, ms: 40 }),
        Zone::Small => Option::Some(AudioCmd { freq: 260, ms: 40 }),
        Zone::Mid => Option::Some(AudioCmd { freq: 300, ms: 40 }),
        Zone::Large => Option::Some(AudioCmd { freq: 340, ms: 40 }),
        Zone::Full => Option::Some(AudioCmd { freq: 420, ms: 60 }),
    }
}

/// The one-shot warning cue, as an executable value.
pub fn make_threshold_cue() -> (r: AudioCmd)
    ensures
        r == threshold_cue(),
{
    AudioCmd { freq: 350, ms: 80 }
}

/// The release cue, as an executable value.
pub fn make_release_cue() -> (r: AudioCmd)
    ensures
        r == release_cue(),
{
    AudioCmd { freq: 600, ms: 100 }
}

} // verus!
