use lightroom::render::RenderMode;
use lightroom::scene::{ActiveScene, SceneChangeSystem, SceneSwitch, TemplateHandle};
use lightroom::state::{Completion, Lightroom, StateEvent, Trans, VirtualKey, WindowEvent};
use lightroom::ui_state::UIState;

const PLANE: TemplateHandle = TemplateHandle { id: 100 };

const SPONZA: TemplateHandle = TemplateHandle { id: 200 };

#[test]
fn new_state_is_idle() {
    let state = Lightroom::new(3);
    assert!(!state.initialised);
    assert!(!state.loading);
    assert_eq!(state.scene, 3);
    assert_eq!(state.scene_root, None);
}

#[test]
fn close_request_and_escape_quit() {
    let mut state = Lightroom::new(0);
    let mut mode = RenderMode::Pbr;
    assert_eq!(state.handle_event(StateEvent::Window(WindowEvent::CloseRequested), &mut mode), Trans::Quit);
    assert_eq!(
        state.handle_event(StateEvent::Window(WindowEvent::KeyDown(VirtualKey::Escape)), &mut mode),
        Trans::Quit
    );
    assert_eq!(mode, RenderMode::Pbr);
}

#[test]
fn key_e_selects_the_next_mode() {
    let mut state = Lightroom::new(0);
    let mut mode = RenderMode::default();
    let e = StateEvent::Window(WindowEvent::KeyDown(VirtualKey::E));
    assert_eq!(state.handle_event(e, &mut mode), Trans::Continue);
    assert_eq!(mode, RenderMode::Flat);
    assert_eq!(state.handle_event(e, &mut mode), Trans::Continue);
    assert_eq!(mode, RenderMode::Shaded);
    assert_eq!(state.handle_event(e, &mut mode), Trans::Continue);
    assert_eq!(mode, RenderMode::Pbr);
}

#[test]
fn other_events_change_nothing() {
    let mut state = Lightroom::new(0);
    let mut mode = RenderMode::Shaded;
    for event in [
        StateEvent::Other,
        StateEvent::Window(WindowEvent::Other),
        StateEvent::Window(WindowEvent::KeyDown(VirtualKey::Other(42))),
    ] {
        assert_eq!(state.handle_event(event, &mut mode), Trans::Continue);
        assert_eq!(mode, RenderMode::Shaded);
    }
}

#[test]
fn update_follows_the_loader() {
    let mut state = Lightroom::new(0);
    assert_eq!(state.update(Completion::Failed), Trans::Continue);
    state.on_start(PLANE, SPONZA);
    assert!(state.loading);
    assert_eq!(state.update(Completion::Loading), Trans::Continue);
    assert!(state.loading);
    assert_eq!(state.update(Completion::Complete), Trans::Continue);
    assert!(!state.loading);
    assert_eq!(state.update(Completion::Failed), Trans::Continue);
}

#[test]
fn failed_loading_quits() {
    let mut state = Lightroom::new(0);
    state.on_start(PLANE, SPONZA);
    assert_eq!(state.update(Completion::Failed), Trans::Quit);
    assert!(state.loading);
}

#[test]
fn start_registers_both_scenes() {
    let mut state = Lightroom::new(0);
    let scene_map = state.on_start(PLANE, SPONZA);
    assert_eq!(scene_map.len(), 2);
    assert_eq!(scene_map[&0], PLANE);
    assert_eq!(scene_map[&1], SPONZA);
    let mut system = SceneChangeSystem::new();
    let wanted = UIState { free_camera_movement: false, scene: 1 };
    assert_eq!(
        system.run(&wanted, &ActiveScene::empty(), &scene_map),
        SceneSwitch::Replace { destroy: None, index: 1, template: SPONZA }
    );
}
