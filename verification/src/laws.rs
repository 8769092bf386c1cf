//! Laws of the hold-timing state machine, stated over whole sampling runs.
//!
//! A run is a sequence of samples, each a pair of the sample time in
//! microseconds and the mute flag in force at that moment.  The spec
//! functions below fold the tick transition of [`crate::hold`] over a run;
//! the proof functions state what every run observes: progress frames only
//! ever increase within a hold, and the near-max warning cue is queued at
//! most once per hold however often the state is sampled and however the
//! mute flag changes.

use vstd::prelude::*;

use vstd::arithmetic::div_mod::lemma_div_is_ordered;

use crate::hold::FRAMES_PER_SECOND;
use crate::hold::HoldState;
use crate::hold::MICROS_PER_SECOND;
use crate::hold::THRESHOLD_FRAME;
use crate::hold::elapsed_at;
use crate::hold::frame_floor;
use crate::hold::live_frame;
use crate::hold::pressed;
use crate::hold::tick_emits;
use crate::hold::tick_progress;
use crate::hold::tick_threshold_cue;
use crate::hold::tick_zone_cue;
use crate::hold::ticked;
use crate::zone::zone_of;

verus! {

/// The progress frames a run reports, in emission order.
pub open spec fn run_progress(s: HoldState, samples: Seq<(u64, bool)>) -> Seq<u32>
    decreases samples.len(),
{
    if samples.len() == 0 {
        Seq::empty()
    } else {
        (match tick_progress(s, samples[0].0) {
            Option::Some(f) => seq![f],
            Option::None => Seq::empty(),
        }) + run_progress(ticked(s, samples[0].0), samples.drop_first())
    }
}

/// How many near-max warning cues a run queues.
pub open spec fn run_threshold_cues(s: HoldState, samples: Seq<(u64, bool)>) -> int
    decreases samples.len(),
{
    if samples.len() == 0 {
        0
    } else {
        (if tick_threshold_cue(s, samples[0].0, samples[0].1) is Some {
            1int
        } else {
            0int
        }) + run_threshold_cues(ticked(s, samples[0].0), samples.drop_first())
    }
}

/// Sample times that all fall at or after `start` and never decrease.
pub open spec fn samples_ordered(start: u64, samples: Seq<(u64, bool)>) -> bool {
    &&& forall|i: int| 0 <= i < samples.len() ==> start <= (#[trigger] samples[i]).0
    &&& forall|i: int, j: int|
        0 <= i <= j < samples.len() ==> (#[trigger] samples[i]).0 <= (#[trigger] samples[j]).0
}

/// Floor-quantization never goes below zero.
pub proof fn lemma_frame_floor_nonneg(elapsed_us: int)
    requires
        elapsed_us >= 0,
    ensures
        frame_floor(elapsed_us) >= 0,
{
    lemma_div_is_ordered(0, elapsed_us * FRAMES_PER_SECOND, MICROS_PER_SECOND as int);
}

/// Floor-quantization is monotone in elapsed time.
pub proof fn lemma_frame_floor_monotone(e1: int, e2: int)
    requires
        e1 <= e2,
    ensures
        frame_floor(e1) <= frame_floor(e2),
{
    lemma_div_is_ordered(e1 * FRAMES_PER_SECOND, e2 * FRAMES_PER_SECOND, MICROS_PER_SECOND as int);
}

/// The frame a live sample observes lies in the `u32` payload range.
pub proof fn lemma_live_frame_bounds(s: HoldState, t: u64)
    requires
        s.holding,
        s.start_us->0 <= t,
    ensures
        0 <= live_frame(s, t) <= u32::MAX,
{
    lemma_frame_floor_nonneg(elapsed_at(s, t));
}

/// The frame a live sample observes is monotone in the sample time.
pub proof fn lemma_live_frame_monotone(s: HoldState, t1: u64, t2: u64)
    requires
        s.holding,
        t1 <= t2,
    ensures
        live_frame(s, t1) <= live_frame(s, t2),
{
    lemma_frame_floor_monotone(elapsed_at(s, t1), elapsed_at(s, t2));
}

/// Law: within one hold, sampled at nondecreasing times, the reported
/// progress frames are strictly increasing, and each exceeds the frame
/// recorded as last reported when sampling began.
pub proof fn lemma_progress_strictly_increasing(s: HoldState, samples: Seq<(u64, bool)>)
    requires
        s.wf(),
        s.holding,
        samples_ordered(s.start_us->0, samples),
        samples.len() > 0 ==> s.last_frame <= live_frame(s, samples[0].0),
    ensures
        forall|i: int, j: int|
            0 <= i < j < run_progress(s, samples).len() ==> (#[trigger] run_progress(
                s,
                samples,
            )[i]) < (#[trigger] run_progress(s, samples)[j]),
        forall|k: int|
            0 <= k < run_progress(s, samples).len() ==> s.last_frame < (#[trigger] run_progress(
                s,
                samples,
            )[k]),
    decreases samples.len(),
{
    if samples.len() > 0 {
        let t0 = samples[0].0;
        let s2 = ticked(s, t0);
        let rest = samples.drop_first();
        lemma_live_frame_bounds(s, t0);
        assert(s2.holding && s2.start_us == s.start_us && s2.wf());
        assert forall|i: int| 0 <= i < rest.len() implies s2.start_us->0 <= (
        #[trigger] rest[i]).0 by {
            assert(rest[i] == samples[i + 1]);
        }
        assert forall|i: int, j: int| 0 <= i <= j < rest.len() implies (#[trigger] rest[i]).0 <= (
        #[trigger] rest[j]).0 by {
            assert(rest[i] == samples[i + 1]);
            assert(rest[j] == samples[j + 1]);
        }
        if rest.len() > 0 {
            assert(rest[0] == samples[1]);
            lemma_live_frame_monotone(s, t0, samples[1].0);
            assert(live_frame(s2, rest[0].0) == live_frame(s, samples[1].0));
            assert(s2.last_frame <= live_frame(s2, rest[0].0));
        }
        lemma_progress_strictly_increasing(s2, rest);
        let head = (match tick_progress(s, t0) {
            Option::Some(f) => seq![f],
            Option::None => Seq::<u32>::empty(),
        });
        let rest_p = run_progress(s2, rest);
        let p = run_progress(s, samples);
        assert(p == head + rest_p);
        if tick_emits(s, t0) {
            let f0 = live_frame(s, t0) as u32;
            assert(head == seq![f0]);
            assert(p.len() == 1 + rest_p.len());
            assert(p[0] == f0);
            assert(s.last_frame < f0);
            assert forall|k: int| 1 <= k < p.len() implies f0 < p[k] && s.last_frame < p[k] by {
                assert(p[k] == rest_p[k - 1]);
                assert(s2.last_frame < rest_p[k - 1]);
            }
        } else {
            assert(p =~= rest_p);
            assert(s2 == s);
        }
    }
}

/// Law: from a fresh press, with samples taken at nondecreasing times at or
/// after the press, the reported progress frames are strictly increasing
/// (and, being unsigned, each is at least zero).
pub proof fn lemma_hold_progress_strictly_increasing(
    s0: HoldState,
    press_us: u64,
    samples: Seq<(u64, bool)>,
)
    requires
        s0.wf(),
        !s0.holding,
        samples_ordered(press_us, samples),
    ensures
        forall|i: int, j: int|
            0 <= i < j < run_progress(pressed(s0, press_us), samples).len() ==> (
            #[trigger] run_progress(pressed(s0, press_us), samples)[i]) < (#[trigger] run_progress(
                pressed(s0, press_us),
                samples,
            )[j]),
{
    let s = pressed(s0, press_us);
    if samples.len() > 0 {
        lemma_live_frame_bounds(s, samples[0].0);
    }
    lemma_progress_strictly_increasing(s, samples);
}

/// Law: the near-max warning cue is queued at most once per hold, however
/// often the state is sampled and however the mute flag changes between
/// samples; once the warning has fired it never fires again in the same
/// hold.
pub proof fn lemma_threshold_cue_at_most_once(s: HoldState, samples: Seq<(u64, bool)>)
    ensures
        run_threshold_cues(s, samples) <= 1,
        s.played_threshold_cue ==> run_threshold_cues(s, samples) == 0,
    decreases samples.len(),
{
    if samples.len() > 0 {
        let s2 = ticked(s, samples[0].0);
        lemma_threshold_cue_at_most_once(s2, samples.drop_first());
        if tick_threshold_cue(s, samples[0].0, samples[0].1) is Some {
            assert(s2.played_threshold_cue);
        }
    }
}

/// Law: the near-max warning cue is queued exactly once per hold when it is
/// due: if the warning has not fired, audio is never muted, the samples are
/// taken at nondecreasing times, and some sample observes a frame at or
/// past the threshold, then the run queues the warning cue exactly once —
/// at the first sample that observes such a frame, since every earlier
/// sample observes a smaller one.
pub proof fn lemma_threshold_cue_exactly_once(s: HoldState, samples: Seq<(u64, bool)>, k: int)
    requires
        s.wf(),
        s.holding,
        samples_ordered(s.start_us->0, samples),
        samples.len() > 0 ==> s.last_frame <= live_frame(s, samples[0].0),
        !s.played_threshold_cue,
        s.last_frame < THRESHOLD_FRAME,
        forall|i: int| 0 <= i < samples.len() ==> !(#[trigger] samples[i]).1,
        0 <= k < samples.len(),
        live_frame(s, samples[k].0) >= THRESHOLD_FRAME,
    ensures
        run_threshold_cues(s, samples) == 1,
    decreases samples.len(),
{
    let t0 = samples[0].0;
    let s2 = ticked(s, t0);
    let rest = samples.drop_first();
    lemma_live_frame_bounds(s, t0);
    assert forall|i: int| 0 <= i < rest.len() implies s2.start_us->0 <= (#[trigger] rest[i]).0
        && !rest[i].1 by {
        assert(rest[i] == samples[i + 1]);
    }
    assert forall|i: int, j: int| 0 <= i <= j < rest.len() implies (#[trigger] rest[i]).0 <= (
    #[trigger] rest[j]).0 by {
        assert(rest[i] == samples[i + 1]);
        assert(rest[j] == samples[j + 1]);
    }
    if live_frame(s, t0) >= THRESHOLD_FRAME {
        assert(tick_emits(s, t0));
        assert(tick_threshold_cue(s, t0, samples[0].1) is Some);
        assert(s2.played_threshold_cue);
        lemma_threshold_cue_at_most_once(s2, rest);
    } else {
        assert(tick_threshold_cue(s, t0, samples[0].1) is None);
        assert(k >= 1);
        assert(rest[k - 1] == samples[k]);
        assert(!s2.played_threshold_cue);
        assert(s2.last_frame < THRESHOLD_FRAME);
        if rest.len() > 0 {
            assert(rest[0] == samples[1]);
            lemma_live_frame_monotone(s, t0, samples[1].0);
        }
        assert(live_frame(s2, rest[k - 1].0) == live_frame(s, samples[k].0));
        lemma_threshold_cue_exactly_once(s2, rest, k - 1);
    }
}

/// Law: muting suppresses cues, never bookkeeping.  The state transition of
/// a sample does not mention the mute flag at all, so a muted sample that
/// crosses a zone boundary or the warning threshold records the new zone
/// and marks the warning played exactly as an unmuted one would, while
/// queuing nothing; and a later unmuted sample that observes the same frame
/// count queues nothing either, so the missed cues never fire
/// retroactively.
pub proof fn lemma_mute_suppresses_cues_not_bookkeeping(
    s: HoldState,
    t1: u64,
    t2: u64,
    muted_later: bool,
)
    requires
        s.wf(),
        s.holding,
        s.start_us->0 <= t1,
        tick_emits(s, t1),
        live_frame(s, t2) == live_frame(s, t1),
    ensures
        tick_zone_cue(s, t1, true) is None,
        tick_threshold_cue(s, t1, true) is None,
        ticked(s, t1).last_zone == zone_of(live_frame(s, t1)),
        live_frame(s, t1) >= THRESHOLD_FRAME ==> ticked(s, t1).played_threshold_cue,
        !tick_emits(ticked(s, t1), t2),
        tick_progress(ticked(s, t1), t2) is None,
        tick_zone_cue(ticked(s, t1), t2, muted_later) is None,
        tick_threshold_cue(ticked(s, t1), t2, muted_later) is None,
{
    lemma_live_frame_bounds(s, t1);
    let s2 = ticked(s, t1);
    assert(s2.start_us == s.start_us);
    assert(live_frame(s2, t2) == live_frame(s, t2));
    assert(s2.last_frame == live_frame(s, t1));
}

} // verus!
