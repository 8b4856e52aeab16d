use lightroom::render::{RenderMode, RenderSwitchable3D};

#[test]
fn default_mode_is_pbr() {
    assert_eq!(RenderMode::default(), RenderMode::Pbr);
    assert_eq!(RenderSwitchable3D::default().last_mode, RenderMode::Pbr);
}

#[test]
fn modes_cycle() {
    assert_eq!(RenderMode::Flat.next(), RenderMode::Shaded);
    assert_eq!(RenderMode::Shaded.next(), RenderMode::Pbr);
    assert_eq!(RenderMode::Pbr.next(), RenderMode::Flat);
}

#[test]
fn rebuild_only_on_transitions() {
    let mut switch = RenderSwitchable3D::default();
    let modes = vec![
        RenderMode::Pbr,
        RenderMode::Pbr,
        RenderMode::Shaded,
        RenderMode::Shaded,
        RenderMode::Flat,
    ];
    assert_eq!(switch.frames(&modes), vec![false, false, true, false, true]);
    assert_eq!(switch.last_mode, RenderMode::Flat);
}

#[test]
fn first_frame_in_another_mode_rebuilds() {
    let mut switch = RenderSwitchable3D::default();
    assert_eq!(switch.frames(&vec![RenderMode::Flat, RenderMode::Pbr]), vec![true, true]);
}

#[test]
fn no_frames_no_signals() {
    let mut switch = RenderSwitchable3D { last_mode: RenderMode::Shaded };
    assert!(switch.frames(&Vec::new()).is_empty());
    assert_eq!(switch.last_mode, RenderMode::Shaded);
}

#[test]
fn check_does_not_record_the_mode() {
    let switch = RenderSwitchable3D::default();
    assert!(switch.should_rebuild(RenderMode::Flat));
    assert!(switch.should_rebuild(RenderMode::Flat));
    assert!(!switch.should_rebuild(RenderMode::Pbr));
}

#[test]
fn plan_delegates_to_the_current_mode() {
    let mut switch = RenderSwitchable3D::default();
    assert_eq!(switch.on_plan(RenderMode::Shaded), RenderMode::Shaded);
    assert_eq!(switch.last_mode, RenderMode::Shaded);
    assert!(!switch.should_rebuild(RenderMode::Shaded));
    assert_eq!(switch.frame(RenderMode::Flat), (true, RenderMode::Flat));
    assert_eq!(switch.frame(RenderMode::Flat), (false, RenderMode::Flat));
}

#[test]
fn build_always_sets_up_pbr() {
    let mut switch = RenderSwitchable3D::default();
    assert_eq!(switch.on_build(), RenderMode::Pbr);
    switch.on_plan(RenderMode::Flat);
    assert_eq!(switch.on_build(), RenderMode::Pbr);
}
