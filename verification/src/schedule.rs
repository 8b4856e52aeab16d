//! The order of the input stage within a frame: the classifier runs after
//! the interface has set its flags and before anything reads what it wrote.

use vstd::prelude::*;
use shrev::EventChannel;
use crate::bus::{channel_identity, pending, published};
use crate::camera::{button_after, turns, CustomFreeRotationSystem, Surroundings, Turn};
use crate::events::{is_free, FilteredInputEvent, InputEvent};
use crate::filtered_input::{classified_all, FilterInputSystem};
use crate::ui_state::{CaptureState, UIState};

verus! {

/// The input stage of one frame: first the classifier publishes the frame's
/// raw input with its tags, then the camera controller reads what has been
/// published since its last frame. The turns that come back are to be
/// applied, in order, to every camera.
pub fn run_input_stage(
    filter: &mut FilterInputSystem,
    camera: &mut CustomFreeRotationSystem,
    capture: &CaptureState,
    input_events: &Vec<InputEvent>,
    filtered_events: &mut EventChannel<FilteredInputEvent>,
    around: Surroundings,
    state: &UIState,
) -> (out: Vec<Turn>)
    requires
        old(camera).listens_to(*old(filtered_events)),
    ensures
        published(*final(filtered_events)) == published(*old(filtered_events)) + classified_all(
            input_events@,
            *capture,
        ),
        channel_identity(*final(filtered_events)) == channel_identity(*old(filtered_events)),
        out@ == turns(
            old(camera).mouse_down,
            pending(old(camera).event_reader, *old(filtered_events)) + classified_all(input_events@, *capture),
            around,
            state.free_camera_movement,
        ),
        final(camera).mouse_down == button_after(
            old(camera).mouse_down,
            pending(old(camera).event_reader, *old(filtered_events)) + classified_all(input_events@, *capture),
        ),
        final(camera).listens_to(*final(filtered_events)),
        pending(final(camera).event_reader, *final(filtered_events)) == Seq::<FilteredInputEvent>::empty(),
        final(camera).sensitivity_x == old(camera).sensitivity_x,
        final(camera).sensitivity_y == old(camera).sensitivity_y,
{
    let ghost unread = pending(camera.event_reader, *filtered_events);
    filter.run(capture, input_events, filtered_events);
    proof {
        assert(pending(camera.event_reader, *filtered_events) =~= unread + classified_all(input_events@, *capture));
    }
    camera.run(filtered_events, around, state)
}

/// While the interface wants the pointer, the camera controller neither
/// turns nor follows the buttons, whatever the frame's input is.
pub proof fn lemma_wanted_pointer_never_reaches_camera(
    down: bool,
    events: Seq<InputEvent>,
    capture: CaptureState,
    around: Surroundings,
    free_movement: bool,
)
    requires
        capture.wants_mouse,
    ensures
        turns(down, classified_all(events, capture), around, free_movement) == Seq::<Turn>::empty(),
        button_after(down, classified_all(events, capture)) == down,
    decreases events.len(),
{
    if events.len() > 0 {
        lemma_wanted_pointer_never_reaches_camera(down, events.drop_last(), capture, around, free_movement);
        assert(classified_all(events, capture).drop_last() =~= classified_all(events.drop_last(), capture));
    }
}

/// While the interface wants nothing, every event of the frame is free for
/// the world.
pub proof fn lemma_unwanted_input_is_free(events: Seq<InputEvent>, i: int)
    requires
        0 <= i < events.len(),
    ensures
        is_free(classified_all(events, CaptureState { wants_mouse: false, wants_keyboard: false })[i]),
{
}

} // verus!
