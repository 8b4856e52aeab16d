use lightroom::camera::{CustomFreeRotationSystem, Surroundings, Turn};
use lightroom::events::{InputEvent, MouseButton};
use lightroom::filtered_input::FilterInputSystemDesc;
use lightroom::scalar::Scalar;
use lightroom::schedule::run_input_stage;
use lightroom::ui_state::{CaptureState, UIState};

fn bits(x: f32) -> Scalar {
    Scalar::from_bits(x.to_bits())
}

fn frame_input() -> Vec<InputEvent> {
    vec![
        InputEvent::MouseButtonPressed(MouseButton::Left),
        InputEvent::MouseMoved { delta_x: bits(10.0), delta_y: bits(-5.0) },
        InputEvent::KeyPressed { key_code: 3, scancode: 4 },
    ]
}

#[test]
fn input_stage_turns_on_free_motion() {
    let (mut filter, mut channel) = FilterInputSystemDesc::default().build();
    let mut camera = CustomFreeRotationSystem::new(bits(0.1), bits(0.1), &mut channel);
    let capture = CaptureState { wants_mouse: false, wants_keyboard: true };
    let state = UIState { free_camera_movement: false, scene: 0 };
    let around = Surroundings { focused: true, cursor_hidden: true };
    let turns = run_input_stage(&mut filter, &mut camera, &capture, &frame_input(), &mut channel, around, &state);
    assert_eq!(turns, vec![Turn { delta_x: bits(10.0), delta_y: bits(-5.0) }]);
    assert!(camera.mouse_down);
}

#[test]
fn input_stage_keeps_captured_pointer_from_the_camera() {
    let (mut filter, mut channel) = FilterInputSystemDesc::default().build();
    let mut camera = CustomFreeRotationSystem::new(bits(0.1), bits(0.1), &mut channel);
    let capture = CaptureState { wants_mouse: true, wants_keyboard: false };
    let state = UIState { free_camera_movement: true, scene: 0 };
    let around = Surroundings { focused: true, cursor_hidden: true };
    let turns = run_input_stage(&mut filter, &mut camera, &capture, &frame_input(), &mut channel, around, &state);
    assert!(turns.is_empty());
    assert!(!camera.mouse_down);
    let mut other = channel.register_reader();
    let free = CaptureState { wants_mouse: false, wants_keyboard: false };
    let turns = run_input_stage(&mut filter, &mut camera, &free, &frame_input(), &mut channel, around, &state);
    assert_eq!(turns.len(), 1);
    assert_eq!(channel.read(&mut other).count(), 3);
}
