//! The input classifier: every raw event of a frame is republished once,
//! untouched, tagged for the interface or for the world.

use vstd::prelude::*;
use shrev::EventChannel;
use crate::bus::{channel_identity, channel_new, channel_single_write, published};
use crate::events::{raw_event, FilteredInputEvent, InputEvent};
use crate::ui_state::CaptureState;

verus! {

/// Whether the interface captures `event` under `capture`.
///
/// Pointer motion, buttons and the wheel go by the pointer flag, keys by the
/// keyboard flag. An action that goes down goes by the pointer flag; one that
/// goes up is captured when either flag is set. Nothing else is captured.
pub open spec fn is_captured(event: InputEvent, capture: CaptureState) -> bool {
    match event {
        InputEvent::MouseMoved { .. } => capture.wants_mouse,
        InputEvent::MouseButtonPressed(_) => capture.wants_mouse,
        InputEvent::MouseButtonReleased(_) => capture.wants_mouse,
        InputEvent::MouseWheelMoved(_) => capture.wants_mouse,
        InputEvent::KeyPressed { .. } => capture.wants_keyboard,
        InputEvent::KeyReleased { .. } => capture.wants_keyboard,
        InputEvent::ActionPressed(_) => capture.wants_mouse,
        InputEvent::ActionReleased(_) => capture.wants_mouse || capture.wants_keyboard,
        _ => false,
    }
}

/// The event is of a kind that the interface can capture: pointer motion, a
/// button of the pointing device, the wheel, a key, or a logical action that
/// goes down or up.
pub open spec fn is_capturable(event: InputEvent) -> bool {
    event is MouseMoved || event is MouseButtonPressed || event is MouseButtonReleased || event is MouseWheelMoved
        || event is KeyPressed || event is KeyReleased || event is ActionPressed || event is ActionReleased
}

/// The event with its tag.
pub open spec fn classified(event: InputEvent, capture: CaptureState) -> FilteredInputEvent {
    if is_captured(event, capture) {
        FilteredInputEvent::Filtered(event)
    } else {
        FilteredInputEvent::Free(event)
    }
}

/// The events of a frame with their tags: one per raw event, in the same order.
pub open spec fn classified_all(events: Seq<InputEvent>, capture: CaptureState) -> Seq<FilteredInputEvent> {
    Seq::new(events.len(), |i: int| classified(events[i], capture))
}

/// Classifies the raw input of each frame.
#[derive(Debug)]
pub struct FilterInputSystem {}

/// Builds the classifier.
#[derive(Debug)]
pub struct FilterInputSystemDesc {}

impl Default for FilterInputSystemDesc {
    fn default() -> (desc: FilterInputSystemDesc) {
        FilterInputSystemDesc {}
    }
}

impl FilterInputSystemDesc {
    /// Builds the classifier together with the channel that it writes to,
    /// to which nothing has been written yet.
    pub fn build(self) -> (built: (FilterInputSystem, EventChannel<FilteredInputEvent>))
        ensures
            published(built.1) == Seq::<FilteredInputEvent>::empty(),
    {
        (FilterInputSystem {}, channel_new())
    }
}

impl FilterInputSystem {
    /// Tags one event, by the flags as they are now.
    pub fn classify(&self, event: &InputEvent, capture: &CaptureState) -> (tagged: FilteredInputEvent)
        ensures
            tagged == classified(*event, *capture),
    {
        let taken = match event {
            InputEvent::MouseMoved { .. }
            | InputEvent::MouseButtonPressed(_)
            | InputEvent::MouseButtonReleased(_)
            | InputEvent::MouseWheelMoved(_) => capture.wants_mouse,
            InputEvent::KeyPressed { .. } | InputEvent::KeyReleased { .. } => capture.wants_keyboard,
            InputEvent::ActionPressed(_) => capture.wants_mouse,
            InputEvent::ActionReleased(_) => capture.wants_mouse || capture.wants_keyboard,
            _ => false,
        };
        if taken {
            FilteredInputEvent::Filtered(event.duplicate())
        } else {
            FilteredInputEvent::Free(event.duplicate())
        }
    }

    /// Tags every event of `input_events`, in order.
    pub fn classify_all(&self, input_events: &Vec<InputEvent>, capture: &CaptureState) -> (tagged: Vec<FilteredInputEvent>)
        ensures
            tagged@ == classified_all(input_events@, *capture),
    {
        let mut tagged: Vec<FilteredInputEvent> = Vec::new();
        let mut i: usize = 0;
        while i < input_events.len()
            invariant
                0 <= i <= input_events.len(),
                tagged@ == classified_all(input_events@.take(i as int), *capture),
            decreases input_events.len() - i,
        {
            let one = self.classify(&input_events[i], capture);
            tagged.push(one);
            proof {
                assert(classified_all(input_events@.take(i + 1), *capture)
                    =~= classified_all(input_events@.take(i as int), *capture).push(one));
            }
            i = i + 1;
        }
        proof {
            assert(input_events@.take(input_events@.len() as int) =~= input_events@);
        }
        tagged
    }

    /// One frame of the classifier: every event of `input_events`, the raw
    /// input that arrived since the last frame, is written once to
    /// `filtered_events`, in order and with its tag. `capture` holds the flags
    /// that the interface computed for this frame.
    pub fn run(
        &mut self,
        capture: &CaptureState,
        input_events: &Vec<InputEvent>,
        filtered_events: &mut EventChannel<FilteredInputEvent>,
    )
        ensures
            published(*final(filtered_events)) == published(*old(filtered_events)) + classified_all(
                input_events@,
                *capture,
            ),
            channel_identity(*final(filtered_events)) == channel_identity(*old(filtered_events)),
    {
        let ghost before = published(*filtered_events);
        let ghost identity = channel_identity(*filtered_events);
        let mut i: usize = 0;
        while i < input_events.len()
            invariant
                0 <= i <= input_events.len(),
                published(*filtered_events) == before + classified_all(input_events@.take(i as int), *capture),
                channel_identity(*filtered_events) == identity,
            decreases input_events.len() - i,
        {
            let one = self.classify(&input_events[i], capture);
            channel_single_write(filtered_events, one);
            proof {
                assert(classified_all(input_events@.take(i + 1), *capture)
                    =~= classified_all(input_events@.take(i as int), *capture).push(one));
                assert(before + classified_all(input_events@.take(i + 1), *capture)
                    =~= (before + classified_all(input_events@.take(i as int), *capture)).push(one));
            }
            i = i + 1;
        }
        proof {
            assert(input_events@.take(input_events@.len() as int) =~= input_events@);
        }
    }
}

/// Classification is complete: one classified event per raw event, at the same
/// place, wrapping that very event, and tagged as captured exactly when the
/// rule captures it under the flags.
pub proof fn lemma_classification_complete(events: Seq<InputEvent>, capture: CaptureState)
    ensures
        classified_all(events, capture).len() == events.len(),
        forall|i: int| 0 <= i < events.len() ==> raw_event(#[trigger] classified_all(events, capture)[i]) == events[i],
        forall|i: int| 0 <= i < events.len() ==>
            ((#[trigger] classified_all(events, capture)[i]) is Filtered) == is_captured(events[i], capture),
{
}

/// With neither flag set every event is free; with both set, the events
/// of the kinds that can be captured are captured, and no others; an event
/// of any other kind is free whatever the flags are.
pub proof fn lemma_flags_decide(event: InputEvent, capture: CaptureState)
    ensures
        classified(event, CaptureState { wants_mouse: false, wants_keyboard: false }) is Free,
        classified(event, CaptureState { wants_mouse: true, wants_keyboard: true }) is Filtered <==> is_capturable(
            event,
        ),
        !is_capturable(event) ==> classified(event, capture) == FilteredInputEvent::Free(event),
{
}

} // verus!
