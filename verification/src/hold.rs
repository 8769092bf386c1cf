//! The hold-timing state machine.
//!
//! A hold is the interval between a trigger press and its matching release.
//! The embedding program feeds this module press and release events and
//! samples it at a high rate while a hold is active; every call takes the
//! current time in microseconds on the caller's monotonic clock.  The module
//! answers with the progress events and audio cues that are due, and keeps
//! the bookkeeping that makes each of them fire exactly once.
//!
//! Elapsed time is quantized into logical frames of 1/60 second.  Live
//! progress uses the floor of the frame count (only fully elapsed frames are
//! reported); the terminal release measurement rounds to the nearest frame
//! to give fair credit at release.

use vstd::prelude::*;

use crate::audio::AudioCmd;
use crate::audio::cue_for_zone;
use crate::audio::make_release_cue;
use crate::audio::make_threshold_cue;
use crate::audio::release_cue;
use crate::audio::threshold_cue;
use crate::audio::zone_cue;
use crate::zone::Zone;
use crate::zone::get_zone;
use crate::zone::zone_of;

verus! {

/// Logical frames per second.
pub const FRAMES_PER_SECOND: u64 = 60;

/// Microseconds per second.
pub const MICROS_PER_SECOND: u64 = 1_000_000;

/// Frame at which the one-shot near-max warning cue fires.
pub const THRESHOLD_FRAME: u32 = 30;

/// Frames fully elapsed after `elapsed_us` microseconds: the floor of
/// `elapsed_us / (1_000_000 / 60)`, written over integers.
pub open spec fn frame_floor(elapsed_us: int) -> int {
    (elapsed_us * FRAMES_PER_SECOND) / (MICROS_PER_SECOND as int)
}

/// The frame boundary nearest to `elapsed_us` microseconds, halves rounding
/// up: the terminal release measurement.
pub open spec fn frame_round(elapsed_us: int) -> int {
    (elapsed_us * FRAMES_PER_SECOND + (MICROS_PER_SECOND as int) / 2) / (MICROS_PER_SECOND as int)
}

/// A frame count clipped to the range of the `u32` event payload.
pub open spec fn clip_frame(f: int) -> int {
    if f > u32::MAX {
        u32::MAX as int
    } else {
        f
    }
}

/// Floor-quantize an elapsed time to frames, saturating at `u32::MAX`.
pub fn frames_elapsed_floor(elapsed_us: u64) -> (f: u32)
    ensures
        f == clip_frame(frame_floor(elapsed_us as int)),
{
    let wide: u128 = (elapsed_us as u128) * (FRAMES_PER_SECOND as u128) / (MICROS_PER_SECOND as u128);
    if wide > u32::MAX as u128 {
        u32::MAX
    } else {
        wide as u32
    }
}

/// Round-quantize an elapsed time to the nearest frame, saturating at
/// `u32::MAX`.
pub fn frames_elapsed_round(elapsed_us: u64) -> (f: u32)
    ensures
        f == clip_frame(frame_round(elapsed_us as int)),
{
    let ticks: u128 = (elapsed_us as u128) * (FRAMES_PER_SECOND as u128);
    proof {
        assert(ticks <= (u64::MAX as int) * (FRAMES_PER_SECOND as int)) by (nonlinear_arith)
            requires
                ticks == (elapsed_us as int) * (FRAMES_PER_SECOND as int),
                elapsed_us <= u64::MAX,
        ;
    }
    let wide: u128 = (ticks + (MICROS_PER_SECOND as u128) / 2) / (MICROS_PER_SECOND as u128);
    if wide > u32::MAX as u128 {
        u32::MAX
    } else {
        wide as u32
    }
}

/// The shared record of one in-progress hold.
#[derive(Clone, Copy, Debug)]
pub struct HoldState {
    /// True between press and release.
    pub holding: bool,
    /// Time of the press on the caller's monotonic clock, in microseconds;
    /// present exactly while holding.
    pub start_us: Option<u64>,
    /// Highest frame already reported this hold; -1 when none has been.
    pub last_frame: i64,
    /// Zone most recently reported this hold.
    pub last_zone: Zone,
    /// Whether the one-shot near-max warning cue has fired this hold.
    pub played_threshold_cue: bool,
}

/// The idle state before any press.
pub open spec fn idle_state() -> HoldState {
    HoldState {
        holding: false,
        start_us: Option::None,
        last_frame: -1i64,
        last_zone: Zone::Neutral,
        played_threshold_cue: false,
    }
}

/// The state after a press at `now_us`: a fresh hold, unless one is already
/// active, in which case the press changes nothing.
pub open spec fn pressed(s: HoldState, now_us: u64) -> HoldState {
    if s.holding {
        s
    } else {
        HoldState {
            holding: true,
            start_us: Option::Some(now_us),
            last_frame: -1i64,
            last_zone: Zone::Neutral,
            played_threshold_cue: false,
        }
    }
}

/// Microseconds between the press and `now_us`.
pub open spec fn elapsed_at(s: HoldState, now_us: u64) -> int
    recommends
        s.holding,
{
    now_us - s.start_us->0
}

/// The frame a live sample at `now_us` observes.
pub open spec fn live_frame(s: HoldState, now_us: u64) -> int
    recommends
        s.holding,
{
    clip_frame(frame_floor(elapsed_at(s, now_us)))
}

/// Whether a sample at `now_us` reports progress: only while holding, and
/// only when the frame count differs from the one last reported.
pub open spec fn tick_emits(s: HoldState, now_us: u64) -> bool {
    s.holding && live_frame(s, now_us) != s.last_frame
}

/// The state after a sample at `now_us`.  Bookkeeping is independent of the
/// mute flag: muting suppresses cues, not state tracking.
pub open spec fn ticked(s: HoldState, now_us: u64) -> HoldState {
    if !tick_emits(s, now_us) {
        s
    } else {
        HoldState {
            last_frame: live_frame(s, now_us) as i64,
            last_zone: zone_of(live_frame(s, now_us)),
            played_threshold_cue: s.played_threshold_cue || live_frame(s, now_us)
                >= THRESHOLD_FRAME,
            ..s
        }
    }
}

/// The progress event a sample at `now_us` emits, if any.
pub open spec fn tick_progress(s: HoldState, now_us: u64) -> Option<u32> {
    if tick_emits(s, now_us) {
        Option::Some(live_frame(s, now_us) as u32)
    } else {
        Option::None
    }
}

/// The zone-transition cue a sample at `now_us` queues, if any: the frame
/// count changed, its zone differs from the one last reported, and audio is
/// not muted.
pub open spec fn tick_zone_cue(s: HoldState, now_us: u64, muted: bool) -> Option<AudioCmd> {
    if tick_emits(s, now_us) && zone_of(live_frame(s, now_us)) != s.last_zone && !muted {
        zone_cue(zone_of(live_frame(s, now_us)))
    } else {
        Option::None
    }
}

/// The near-max warning cue a sample at `now_us` queues, if any: the frame
/// count changed, it reached the threshold, the warning has not fired this
/// hold, and audio is not muted.
pub open spec fn tick_threshold_cue(s: HoldState, now_us: u64, muted: bool) -> Option<AudioCmd> {
    if tick_emits(s, now_us) && live_frame(s, now_us) >= THRESHOLD_FRAME
        && !s.played_threshold_cue && !muted {
        Option::Some(threshold_cue())
    } else {
        Option::None
    }
}

/// The state after a release: idle, with the measurement bookkeeping
/// cleared.  A release while idle changes nothing.
pub open spec fn released(s: HoldState) -> HoldState {
    if !s.holding {
        s
    } else {
        HoldState {
            holding: false,
            start_us: Option::None,
            last_frame: -1i64,
            last_zone: Zone::Neutral,
            ..s
        }
    }
}

/// The frame count a release at `now_us` reports: elapsed time rounded to
/// the nearest frame.
pub open spec fn release_frame(s: HoldState, now_us: u64) -> int
    recommends
        s.holding,
{
    clip_frame(frame_round(elapsed_at(s, now_us)))
}

/// The terminal update event a release at `now_us` emits: present exactly
/// when a hold actually ended.
pub open spec fn release_update(s: HoldState, now_us: u64) -> Option<u32> {
    if s.holding {
        Option::Some(release_frame(s, now_us) as u32)
    } else {
        Option::None
    }
}

/// The release cue a release queues: present exactly when a hold actually
/// ended and audio is not muted.
pub open spec fn release_cue_out(s: HoldState, muted: bool) -> Option<AudioCmd> {
    if s.holding && !muted {
        Option::Some(release_cue())
    } else {
        Option::None
    }
}

/// What one sample asks the embedding program to do.  Cues are queued in
/// field order: the zone cue before the warning cue.
#[derive(Clone, Copy, Debug, PartialEq, Eq)]
pub struct TickEvents {
    /// Frame to report as progress, present when the frame count changed.
    pub progress: Option<u32>,
    /// Zone-transition cue to queue.
    pub zone_cue: Option<AudioCmd>,
    /// Near-max warning cue to queue, at most once per hold.
    pub threshold_cue: Option<AudioCmd>,
}

/// What a release asks the embedding program to do.
#[derive(Clone, Copy, Debug, PartialEq, Eq)]
pub struct ReleaseEvents {
    /// Final rounded frame count to report, present exactly when a hold
    /// actually ended.
    pub update: Option<u32>,
    /// Release cue to queue.
    pub cue: Option<AudioCmd>,
}

impl HoldState {
    /// Structural soundness: the press time is present exactly while
    /// holding, and the reported-frame bookkeeping is in payload range.
    pub open spec fn wf(self) -> bool {
        &&& self.holding <==> self.start_us is Some
        &&& -1 <= self.last_frame <= u32::MAX
    }

    /// Apply a press at `now_us`.  A press while already holding is an
    /// idempotent no-op, absorbing duplicate signals from a noisy source;
    /// a press while idle starts a fresh hold.
    pub fn press(&mut self, now_us: u64)
        requires
            old(self).wf(),
        ensures
            final(self).wf(),
            *final(self) == pressed(*old(self), now_us),
            old(self).holding ==> *final(self) == *old(self),
    {
        if !self.holding {
            self.holding = true;
            self.start_us = Option::Some(now_us);
            self.last_frame = -1;
            self.last_zone = Zone::Neutral;
            self.played_threshold_cue = false;
        }
    }

    /// Sample the hold at `now_us`.  While idle this changes nothing and
    /// emits nothing.  While holding it reports the floor-quantized frame
    /// count whenever it changed, and queues the zone-transition and
    /// near-max warning cues that are due; muting suppresses the cues but
    /// never the bookkeeping, so unmuting cannot retroactively fire them.
    pub fn tick(&mut self, now_us: u64, muted: bool) -> (out: TickEvents)
        requires
            old(self).wf(),
            old(self).holding ==> old(self).start_us->0 <= now_us,
        ensures
            final(self).wf(),
            *final(self) == ticked(*old(self), now_us),
            out.progress == tick_progress(*old(self), now_us),
            out.zone_cue == tick_zone_cue(*old(self), now_us, muted),
            out.threshold_cue == tick_threshold_cue(*old(self), now_us, muted),
    {
        if !self.holding {
            return TickEvents { progress: Option::None, zone_cue: Option::None, threshold_cue: Option::None };
        }
        let start = self.start_us.unwrap();
        let frame = frames_elapsed_floor(now_us - start);
        if frame as i64 == self.last_frame {
            return TickEvents { progress: Option::None, zone_cue: Option::None, threshold_cue: Option::None };
        }
        self.last_frame = frame as i64;
        let zone = get_zone(frame);
        let zone_cue_out: Option<AudioCmd> = if zone != self.last_zone {
            self.last_zone = zone;
            if muted {
                Option::None
            } else {
                cue_for_zone(zone)
            }
        } else {
            Option::None
        };
        let threshold_cue_out: Option<AudioCmd> = if frame >= THRESHOLD_FRAME
            && !self.played_threshold_cue {
            self.played_threshold_cue = true;
            if muted {
                Option::None
            } else {
                Option::Some(make_threshold_cue())
            }
        } else {
            Option::None
        };
        TickEvents { progress: Option::Some(frame), zone_cue: zone_cue_out, threshold_cue: threshold_cue_out }
    }

    /// Apply a release at `now_us`.  A release while idle is a no-op and
    /// emits nothing.  A release while holding reports the round-quantized
    /// final frame count, queues the release cue unless muted, and returns
    /// the state to idle.
    pub fn release(&mut self, now_us: u64, muted: bool) -> (out: ReleaseEvents)
        requires
            old(self).wf(),
            old(self).holding ==> old(self).start_us->0 <= now_us,
        ensures
            final(self).wf(),
            *final(self) == released(*old(self)),
            out.update == release_update(*old(self), now_us),
            out.cue == release_cue_out(*old(self), muted),
            !old(self).holding ==> *final(self) == *old(self) && out.update is None
                && out.cue is None,
    {
        if !self.holding {
            return ReleaseEvents { update: Option::None, cue: Option::None };
        }
        let start = self.start_us.unwrap();
        let frame = frames_elapsed_round(now_us - start);
        let cue: Option<AudioCmd> = if muted {
            Option::None
        } else {
            Option::Some(make_release_cue())
        };
        self.holding = false;
        self.start_us = Option::None;
        self.last_frame = -1;
        self.last_zone = Zone::Neutral;
        ReleaseEvents { update: Option::Some(frame), cue }
    }
}

impl Default for HoldState {
    /// The idle state before any press.
    fn default() -> (s: Self)
        ensures
            s == idle_state(),
            s.wf(),
    {
        HoldState {
            holding: false,
            start_us: Option::None,
            last_frame: -1i64,
            last_zone: Zone::Neutral,
            played_threshold_cue: false,
        }
    }
}

} // verus!
