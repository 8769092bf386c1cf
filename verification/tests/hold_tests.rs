use hold_meter::audio::AudioCmd;
use hold_meter::hold::HoldState;
use hold_meter::zone::Zone;

/// First microsecond at which `frame` full frames have elapsed.
fn frame_start_us(frame: u64) -> u64 {
    (frame * 1_000_000 + 59) / 60
}

#[test]
fn default_is_idle() {
    let s = HoldState::default();
    assert!(!s.holding);
    assert_eq!(s.start_us, None);
    assert_eq!(s.last_frame, -1);
    assert_eq!(s.last_zone, Zone::Neutral);
    assert!(!s.played_threshold_cue);
}

#[test]
fn press_starts_a_fresh_hold() {
    let mut s = HoldState::default();
    s.press(42);
    assert!(s.holding);
    assert_eq!(s.start_us, Some(42));
    assert_eq!(s.last_frame, -1);
    assert_eq!(s.last_zone, Zone::Neutral);
    assert!(!s.played_threshold_cue);
}

#[test]
fn second_press_is_a_no_op() {
    let mut s = HoldState::default();
    s.press(0);
    let out = s.tick(250_000, false);
    assert_eq!(out.progress, Some(15));
    s.press(260_000);
    assert!(s.holding);
    assert_eq!(s.start_us, Some(0));
    assert_eq!(s.last_frame, 15);
    assert_eq!(s.last_zone, Zone::Mid);
    assert!(!s.played_threshold_cue);
}

#[test]
fn release_while_idle_emits_nothing() {
    let mut s = HoldState::default();
    let out = s.release(123_456, false);
    assert_eq!(out.update, None);
    assert_eq!(out.cue, None);
    assert!(!s.holding);
    assert_eq!(s.start_us, None);
    assert_eq!(s.last_frame, -1);
}

#[test]
fn tick_while_idle_emits_nothing() {
    let mut s = HoldState::default();
    let out = s.tick(5_000, false);
    assert_eq!(out.progress, None);
    assert_eq!(out.zone_cue, None);
    assert_eq!(out.threshold_cue, None);
    assert!(!s.holding);
}

#[test]
fn progress_uses_floor_release_uses_round() {
    let mut s = HoldState::default();
    s.press(0);
    let out = s.tick(25_000, false);
    assert_eq!(out.progress, Some(1));
    let end = s.release(25_000, false);
    assert_eq!(end.update, Some(2));
}

#[test]
fn release_rounds_to_nearest_frame() {
    let mut s = HoldState::default();
    s.press(0);
    assert_eq!(s.release(8_333, false).update, Some(0));
    s.press(10_000);
    assert_eq!(s.release(18_334, false).update, Some(1));
    s.press(20_000);
    assert_eq!(s.release(45_000, false).update, Some(2));
}

#[test]
fn release_queues_fixed_cue_unless_muted() {
    let mut s = HoldState::default();
    s.press(0);
    let end = s.release(100_000, false);
    assert_eq!(end.update, Some(6));
    assert_eq!(end.cue, Some(AudioCmd { freq: 600, ms: 100 }));
    s.press(200_000);
    let muted_end = s.release(300_000, true);
    assert_eq!(muted_end.update, Some(6));
    assert_eq!(muted_end.cue, None);
}

#[test]
fn release_returns_state_to_idle_keeping_threshold_mark() {
    let mut s = HoldState::default();
    s.press(0);
    let out = s.tick(500_000, false);
    assert_eq!(out.threshold_cue, Some(AudioCmd { freq: 350, ms: 80 }));
    let _ = s.release(510_000, false);
    assert!(!s.holding);
    assert_eq!(s.start_us, None);
    assert_eq!(s.last_frame, -1);
    assert_eq!(s.last_zone, Zone::Neutral);
    assert!(s.played_threshold_cue);
    s.press(600_000);
    assert!(!s.played_threshold_cue);
}

#[test]
fn progress_frames_strictly_increase() {
    let times: [u64; 8] = [1_000, 1_000, 30_000, 40_000, 40_100, 100_000, 250_000, 500_000];
    let mut s = HoldState::default();
    s.press(0);
    let mut reported: Vec<u32> = Vec::new();
    for t in times {
        if let Some(f) = s.tick(t, false).progress {
            reported.push(f);
        }
    }
    assert_eq!(reported, vec![0, 1, 2, 6, 15, 30]);
    for w in reported.windows(2) {
        assert!(w[0] < w[1]);
    }
}

#[test]
fn threshold_cue_fires_exactly_once_per_hold() {
    let mut s = HoldState::default();
    s.press(0);
    let first = s.tick(500_000, false);
    assert_eq!(first.progress, Some(30));
    assert_eq!(first.threshold_cue, Some(AudioCmd { freq: 350, ms: 80 }));
    assert!(s.played_threshold_cue);
    let second = s.tick(516_700, false);
    assert_eq!(second.progress, Some(31));
    assert_eq!(second.threshold_cue, None);
    let third = s.tick(600_000, false);
    assert_eq!(third.progress, Some(36));
    assert_eq!(third.zone_cue, Some(AudioCmd { freq: 420, ms: 60 }));
    assert_eq!(third.threshold_cue, None);
}

#[test]
fn mute_suppresses_zone_cue_but_not_bookkeeping() {
    let mut s = HoldState::default();
    s.press(0);
    let muted = s.tick(250_000, true);
    assert_eq!(muted.progress, Some(15));
    assert_eq!(muted.zone_cue, None);
    assert_eq!(s.last_zone, Zone::Mid);
    let same_frame = s.tick(250_100, false);
    assert_eq!(same_frame.progress, None);
    assert_eq!(same_frame.zone_cue, None);
    assert_eq!(same_frame.threshold_cue, None);
    let next_zone = s.tick(433_400, false);
    assert_eq!(next_zone.progress, Some(26));
    assert_eq!(next_zone.zone_cue, Some(AudioCmd { freq: 340, ms: 40 }));
}

#[test]
fn mute_suppresses_threshold_cue_but_marks_it_played() {
    let mut s = HoldState::default();
    s.press(0);
    let muted = s.tick(500_000, true);
    assert_eq!(muted.progress, Some(30));
    assert_eq!(muted.threshold_cue, None);
    assert!(s.played_threshold_cue);
    let unmuted = s.tick(516_700, false);
    assert_eq!(unmuted.progress, Some(31));
    assert_eq!(unmuted.threshold_cue, None);
}

#[test]
fn half_second_hold_end_to_end() {
    let mut s = HoldState::default();
    s.press(0);
    let mut cues: Vec<(u32, AudioCmd)> = Vec::new();
    for k in 0u64..30u64 {
        let out = s.tick(frame_start_us(k), false);
        assert_eq!(out.progress, Some(k as u32));
        if let Some(c) = out.zone_cue {
            cues.push((k as u32, c));
        }
        assert_eq!(out.threshold_cue, None);
    }
    let last = s.tick(500_000, false);
    assert_eq!(last.progress, Some(30));
    assert_eq!(last.zone_cue, None);
    assert_eq!(last.threshold_cue, Some(AudioCmd { freq: 350, ms: 80 }));
    let end = s.release(500_050, false);
    assert_eq!(end.update, Some(30));
    assert_eq!(end.cue, Some(AudioCmd { freq: 600, ms: 100 }));
    assert_eq!(
        cues,
        vec![
            (1, AudioCmd { freq: 220, ms: 40 }),
            (8, AudioCmd { freq: 260, ms: 40 }),
            (14, AudioCmd { freq: 300, ms: 40 }),
            (25, AudioCmd { freq: 340, ms: 40 }),
        ]
    );
}

#[test]
fn very_long_hold_saturates_at_payload_range() {
    let mut s = HoldState::default();
    s.press(0);
    let out = s.tick(u64::MAX, false);
    assert_eq!(out.progress, Some(u32::MAX));
}
