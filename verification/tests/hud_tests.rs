use hold_meter::hud::HudControlState;

#[test]
fn startup_state_is_visible_and_audible() {
    let s = HudControlState::new();
    assert!(s.visible);
    assert!(!s.muted);
}

#[test]
fn toggle_mute_flips_and_reports_only_mute() {
    let mut s = HudControlState::new();
    let now_muted = s.toggle_mute();
    assert!(now_muted);
    assert!(s.muted);
    assert!(s.visible);
    let again = s.toggle_mute();
    assert!(!again);
    assert!(!s.muted);
}

#[test]
fn toggle_visible_flips_and_reports_only_visibility() {
    let mut s = HudControlState::new();
    let now_visible = s.toggle_visible();
    assert!(!now_visible);
    assert!(!s.visible);
    assert!(!s.muted);
    let again = s.toggle_visible();
    assert!(again);
    assert!(s.visible);
}
