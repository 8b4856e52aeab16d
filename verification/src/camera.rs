//! The camera rotation controller: follows the pointer through the events
//! that are free for the world.

use vstd::prelude::*;
use shrev::{EventChannel, ReaderId};
use crate::bus::{channel_identity, channel_read, channel_register_reader, pending, published, reads_from};
use crate::events::{is_free, FilteredInputEvent, InputEvent, MouseButton};
use crate::scalar::Scalar;
use crate::ui_state::UIState;

verus! {

/// One pointer motion that turns the camera.
///
/// Every camera is rotated about its own X axis by `-delta_y` times the
/// vertical sensitivity, in degrees, after its present orientation, and about
/// the world's Y axis by `-delta_x` times the horizontal sensitivity, before
/// its present orientation.
#[derive(Clone, Copy, Debug, PartialEq, Eq, Structural)]
pub struct Turn {
    pub delta_x: Scalar,
    pub delta_y: Scalar,
}

/// What has to hold of the window for the pointer to turn the camera.
#[derive(Clone, Copy, Debug)]
pub struct Surroundings {
    /// The window has the input focus.
    pub focused: bool,
    /// The cursor is hidden.
    pub cursor_hidden: bool,
}

/// Whether the left button is down after `event`, if it was `down` before.
/// Only free events count.
pub open spec fn button_after_event(down: bool, event: FilteredInputEvent) -> bool {
    match event {
        FilteredInputEvent::Free(InputEvent::MouseButtonPressed(button)) => if button == MouseButton::Left {
            true
        } else {
            down
        },
        FilteredInputEvent::Free(InputEvent::MouseButtonReleased(button)) => if button == MouseButton::Left {
            false
        } else {
            down
        },
        _ => down,
    }
}

/// The turn that `event` causes, if any: a free pointer motion, while the
/// window is focused, the cursor hidden, and the camera either moves freely
/// or the left button is down.
pub open spec fn turn_of_event(down: bool, event: FilteredInputEvent, around: Surroundings, free_movement: bool) -> Option<Turn> {
    match event {
        FilteredInputEvent::Free(InputEvent::MouseMoved { delta_x, delta_y }) => if around.focused
            && around.cursor_hidden && (free_movement || down) {
            Some(Turn { delta_x, delta_y })
        } else {
            None
        },
        _ => None,
    }
}

/// Whether the left button is down after `events`, in order.
pub open spec fn button_after(down: bool, events: Seq<FilteredInputEvent>) -> bool
    decreases events.len(),
{
    if events.len() == 0 {
        down
    } else {
        button_after_event(button_after(down, events.drop_last()), events.last())
    }
}

/// The turns that `events` cause, in order.
pub open spec fn turns(down: bool, events: Seq<FilteredInputEvent>, around: Surroundings, free_movement: bool) -> Seq<Turn>
    decreases events.len(),
{
    if events.len() == 0 {
        Seq::empty()
    } else {
        let earlier = turns(down, events.drop_last(), around, free_movement);
        match turn_of_event(button_after(down, events.drop_last()), events.last(), around, free_movement) {
            Some(turn) => earlier.push(turn),
            None => earlier,
        }
    }
}

/// The free events among `events`, in order.
pub open spec fn free_events(events: Seq<FilteredInputEvent>) -> Seq<FilteredInputEvent>
    decreases events.len(),
{
    if events.len() == 0 {
        Seq::empty()
    } else if is_free(events.last()) {
        free_events(events.drop_last()).push(events.last())
    } else {
        free_events(events.drop_last())
    }
}

/// Turns the cameras as the pointer moves.
pub struct CustomFreeRotationSystem {
    pub sensitivity_x: Scalar,
    pub sensitivity_y: Scalar,
    pub event_reader: ReaderId<FilteredInputEvent>,
    pub mouse_down: bool,
}

impl CustomFreeRotationSystem {
    /// The controller reads from `channel`.
    pub open spec fn listens_to(&self, channel: EventChannel<FilteredInputEvent>) -> bool {
        reads_from(self.event_reader, channel)
    }

    /// A controller with the given sensitivities, the button up, that sees
    /// the events written to `channel` from now on.
    pub fn new(sensitivity_x: Scalar, sensitivity_y: Scalar, channel: &mut EventChannel<FilteredInputEvent>) -> (system: CustomFreeRotationSystem)
        ensures
            system.sensitivity_x == sensitivity_x,
            system.sensitivity_y == sensitivity_y,
            !system.mouse_down,
            system.listens_to(*final(channel)),
            pending(system.event_reader, *final(channel)) == Seq::<FilteredInputEvent>::empty(),
            published(*final(channel)) == published(*old(channel)),
            channel_identity(*final(channel)) == channel_identity(*old(channel)),
    {
        let event_reader = channel_register_reader(channel);
        assert(pending(event_reader, *channel) =~= Seq::<FilteredInputEvent>::empty());
        CustomFreeRotationSystem { sensitivity_x, sensitivity_y, event_reader, mouse_down: false }
    }

    /// Reacts to one event.
    pub fn step(&mut self, event: &FilteredInputEvent, around: Surroundings, free_movement: bool) -> (turn: Option<Turn>)
        ensures
            turn == turn_of_event(old(self).mouse_down, *event, around, free_movement),
            final(self).mouse_down == button_after_event(old(self).mouse_down, *event),
            final(self).sensitivity_x == old(self).sensitivity_x,
            final(self).sensitivity_y == old(self).sensitivity_y,
            final(self).event_reader == old(self).event_reader,
    {
        match event {
            FilteredInputEvent::Free(raw) => match raw {
                InputEvent::MouseMoved { delta_x, delta_y } => {
                    if around.focused && around.cursor_hidden && (free_movement || self.mouse_down) {
                        Some(Turn { delta_x: *delta_x, delta_y: *delta_y })
                    } else {
                        None
                    }
                },
                InputEvent::MouseButtonPressed(button) => {
                    if *button == MouseButton::Left {
                        self.mouse_down = true;
                    }
                    None
                },
                InputEvent::MouseButtonReleased(button) => {
                    if *button == MouseButton::Left {
                        self.mouse_down = false;
                    }
                    None
                },
                _ => None,
            },
            FilteredInputEvent::Filtered(_) => None,
        }
    }

    /// Reacts to `events`, in order, and returns the turns they cause.
    pub fn track(&mut self, events: &Vec<FilteredInputEvent>, around: Surroundings, free_movement: bool) -> (out: Vec<Turn>)
        ensures
            out@ == turns(old(self).mouse_down, events@, around, free_movement),
            final(self).mouse_down == button_after(old(self).mouse_down, events@),
            final(self).sensitivity_x == old(self).sensitivity_x,
            final(self).sensitivity_y == old(self).sensitivity_y,
            final(self).event_reader == old(self).event_reader,
    {
        let ghost down = self.mouse_down;
        let ghost start = *self;
        let mut out: Vec<Turn> = Vec::new();
        let mut i: usize = 0;
        while i < events.len()
            invariant
                0 <= i <= events.len(),
                out@ == turns(down, events@.take(i as int), around, free_movement),
                self.mouse_down == button_after(down, events@.take(i as int)),
                self.sensitivity_x == start.sensitivity_x,
                self.sensitivity_y == start.sensitivity_y,
                self.event_reader == start.event_reader,
            decreases events.len() - i,
        {
            proof {
                assert(events@.take(i + 1).drop_last() =~= events@.take(i as int));
                assert(events@.take(i + 1).last() == events@[i as int]);
            }
            match self.step(&events[i], around, free_movement) {
                Some(turn) => {
                    out.push(turn);
                },
                None => {},
            }
            i = i + 1;
        }
        proof {
            assert(events@.take(events@.len() as int) =~= events@);
        }
        out
    }

    /// One frame of the controller: reads what was written to `events` since
    /// its last frame and reacts to it. The turns that come back are to be
    /// applied, in order, to every camera.
    pub fn run(&mut self, events: &EventChannel<FilteredInputEvent>, around: Surroundings, state: &UIState) -> (out: Vec<Turn>)
        requires
            old(self).listens_to(*events),
        ensures
            out@ == turns(
                old(self).mouse_down,
                pending(old(self).event_reader, *events),
                around,
                state.free_camera_movement,
            ),
            final(self).mouse_down == button_after(old(self).mouse_down, pending(old(self).event_reader, *events)),
            final(self).listens_to(*events),
            pending(final(self).event_reader, *events) == Seq::<FilteredInputEvent>::empty(),
            final(self).sensitivity_x == old(self).sensitivity_x,
            final(self).sensitivity_y == old(self).sensitivity_y,
    {
        let unread = channel_read(events, &mut self.event_reader);
        assert(pending(self.event_reader, *events) =~= Seq::<FilteredInputEvent>::empty());
        self.track(&unread, around, state.free_camera_movement)
    }
}

/// A captured event changes nothing: the button stays and no turn is made.
pub proof fn lemma_captured_event_ignored(down: bool, event: FilteredInputEvent, around: Surroundings, free_movement: bool)
    requires
        !is_free(event),
    ensures
        button_after_event(down, event) == down,
        turn_of_event(down, event, around, free_movement) is None,
{
}

/// The controller observes no captured event: what it does on a sequence of
/// events is what it does on the free events among them.
pub proof fn lemma_only_free_events_observed(down: bool, events: Seq<FilteredInputEvent>, around: Surroundings, free_movement: bool)
    ensures
        button_after(down, events) == button_after(down, free_events(events)),
        turns(down, events, around, free_movement) == turns(down, free_events(events), around, free_movement),
    decreases events.len(),
{
    if events.len() > 0 {
        lemma_only_free_events_observed(down, events.drop_last(), around, free_movement);
        if is_free(events.last()) {
            let kept = free_events(events.drop_last()).push(events.last());
            assert(kept.drop_last() =~= free_events(events.drop_last()));
            assert(kept.last() == events.last());
        }
    }
}

/// Reading in two batches is reading in one: what the controller does on
/// `first` followed by `second` is what it does on `first`, and then on
/// `second` with the button as `first` left it.
pub proof fn lemma_batches_compose(
    down: bool,
    first: Seq<FilteredInputEvent>,
    second: Seq<FilteredInputEvent>,
    around: Surroundings,
    free_movement: bool,
)
    ensures
        button_after(down, first + second) == button_after(button_after(down, first), second),
        turns(down, first + second, around, free_movement) == turns(down, first, around, free_movement) + turns(
            button_after(down, first),
            second,
            around,
            free_movement,
        ),
    decreases second.len(),
{
    if second.len() == 0 {
        assert(first + second =~= first);
        assert(turns(down, first, around, free_movement) + Seq::<Turn>::empty() =~= turns(
            down,
            first,
            around,
            free_movement,
        ));
    } else {
        lemma_batches_compose(down, first, second.drop_last(), around, free_movement);
        assert((first + second).drop_last() =~= first + second.drop_last());
        assert((first + second).last() == second.last());
        let earlier = turns(down, first, around, free_movement);
        let later = turns(button_after(down, first), second.drop_last(), around, free_movement);
        match turn_of_event(button_after(down, first + second.drop_last()), second.last(), around, free_movement) {
            Some(turn) => {
                assert((earlier + later).push(turn) =~= earlier + later.push(turn));
            },
            None => {},
        }
    }
}

/// No turn is made while the cursor is shown or the window lacks the focus.
pub proof fn lemma_no_turn_unless_focused_and_hidden(down: bool, events: Seq<FilteredInputEvent>, around: Surroundings, free_movement: bool)
    requires
        !around.focused || !around.cursor_hidden,
    ensures
        turns(down, events, around, free_movement) == Seq::<Turn>::empty(),
    decreases events.len(),
{
    if events.len() > 0 {
        lemma_no_turn_unless_focused_and_hidden(down, events.drop_last(), around, free_movement);
    }
}

} // verus!
