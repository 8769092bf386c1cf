//! Classification of a frame count into charge-intensity zones.

use vstd::prelude::*;

verus! {

/// The six charge-intensity zones, from weakest to strongest.  `Neutral` is
/// the zone of frame 0, before any charge has registered.
#[derive(Clone, Copy, Debug, PartialEq, Eq, Structural)]
pub enum Zone {
    Neutral,
    Tap,
    Small,
    Mid,
    Large,
    Full,
}

/// The zone that a frame count falls in.  The thresholds encode the
/// product's difficulty curve and are boundary-inclusive exactly as written:
/// any off-by-one changes gameplay feel.
pub open spec fn zone_of(frame: int) -> Zone {
    if frame >= 36 {
        Zone::Full
    } else if 25 <= frame <= 35 {
        Zone::Large
    } else if 14 <= frame <= 24 {
        Zone::Mid
    } else if 8 <= frame <= 13 {
        Zone::Small
    } else if 1 <= frame <= 7 {
        Zone::Tap
    } else {
        Zone::Neutral
    }
}

/// Classify a frame count into its zone.
pub fn get_zone(frame: u32) -> (z: Zone)
    ensures
        z == zone_of(frame as int),
{
    if frame >= 36 {
        Zone::Full
    } else if frame >= 25 {
        Zone::Large
    } else if frame >= 14 {
        Zone::Mid
    } else if frame >= 8 {
        Zone::Small
    } else if frame >= 1 {
        Zone::Tap
    } else {
        Zone::Neutral
    }
}

} // verus!
