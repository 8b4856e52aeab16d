//! Input events as the platform delivers them, and the same events once they
//! have been assigned to the interface or to the world.

use vstd::prelude::*;
use crate::scalar::Scalar;

verus! {

/// A button of the pointing device.
#[derive(Clone, Copy, Debug, PartialEq, Eq, Structural)]
pub enum MouseButton {
    Left,
    Right,
    Middle,
    Other(u8),
}

/// Direction of one step of the wheel.
#[derive(Clone, Copy, Debug, PartialEq, Eq, Structural)]
pub enum ScrollDirection {
    ScrollUp,
    ScrollDown,
    ScrollLeft,
    ScrollRight,
}

/// A button of a game controller.
#[derive(Clone, Copy, Debug, PartialEq, Eq, Structural)]
pub enum ControllerButton {
    A,
    B,
    X,
    Y,
    DPadDown,
    DPadLeft,
    DPadRight,
    DPadUp,
    LeftShoulder,
    RightShoulder,
    LeftStick,
    RightStick,
    Back,
    Start,
    Guide,
}

/// An axis of a game controller.
#[derive(Clone, Copy, Debug, PartialEq, Eq, Structural)]
pub enum ControllerAxis {
    LeftX,
    LeftY,
    RightX,
    RightY,
    LeftTrigger,
    RightTrigger,
}

/// Anything that can be pressed: a key by its code or by its scancode, a
/// button of the pointing device, or a button of a controller, which is
/// named first.
#[derive(Clone, Copy, Debug, PartialEq, Eq, Structural)]
pub enum Button {
    Key(u32),
    Mouse(MouseButton),
    ScanCode(u32),
    Controller(u32, ControllerButton),
}

/// An input event as the platform layer produced it. It is never changed
/// after that; the order of events within a frame is the order of arrival.
#[derive(Clone, Debug, PartialEq, Eq)]
pub enum InputEvent {
    /// The pointer moved by the given amounts.
    MouseMoved { delta_x: Scalar, delta_y: Scalar },
    MouseButtonPressed(MouseButton),
    MouseButtonReleased(MouseButton),
    MouseWheelMoved(ScrollDirection),
    KeyPressed { key_code: u32, scancode: u32 },
    KeyReleased { key_code: u32, scancode: u32 },
    /// A logical action, known by its name, went down.
    ActionPressed(String),
    /// A logical action, known by its name, went up.
    ActionReleased(String),
    /// The wheel moved while a logical action, known by its name, was bound
    /// to it.
    ActionWheelMoved(String),
    /// A character was typed.
    KeyTyped(char),
    ButtonPressed(Button),
    ButtonReleased(Button),
    /// The cursor moved by the given amounts, in the window's units.
    CursorMoved { delta_x: Scalar, delta_y: Scalar },
    /// A logical axis, known by its name, took a new value.
    AxisMoved { axis: String, value: Scalar },
    ControllerAxisMoved { which: u32, axis: ControllerAxis, value: Scalar },
    ControllerButtonPressed { which: u32, button: ControllerButton },
    ControllerButtonReleased { which: u32, button: ControllerButton },
    ControllerConnected { which: u32 },
    ControllerDisconnected { which: u32 },
}

/// An input event together with the layer that may react to it.
#[derive(Clone, Debug, PartialEq, Eq)]
pub enum FilteredInputEvent {
    /// The interface has captured the event; the world must not react.
    Filtered(InputEvent),
    /// The event is free for the world.
    Free(InputEvent),
}

impl InputEvent {
    /// A copy of the event, equal to it in every field.
    pub fn duplicate(&self) -> (copy: InputEvent)
        ensures
            copy == *self,
    {
        match self {
            InputEvent::MouseMoved { delta_x, delta_y } => InputEvent::MouseMoved {
                delta_x: *delta_x,
                delta_y: *delta_y,
            },
            InputEvent::MouseButtonPressed(button) => InputEvent::MouseButtonPressed(*button),
            InputEvent::MouseButtonReleased(button) => InputEvent::MouseButtonReleased(*button),
            InputEvent::MouseWheelMoved(direction) => InputEvent::MouseWheelMoved(*direction),
            InputEvent::KeyPressed { key_code, scancode } => InputEvent::KeyPressed {
                key_code: *key_code,
                scancode: *scancode,
            },
            InputEvent::KeyReleased { key_code, scancode } => InputEvent::KeyReleased {
                key_code: *key_code,
                scancode: *scancode,
            },
            InputEvent::ActionPressed(name) => InputEvent::ActionPressed(name.clone()),
            InputEvent::ActionReleased(name) => InputEvent::ActionReleased(name.clone()),
            InputEvent::ActionWheelMoved(name) => InputEvent::ActionWheelMoved(name.clone()),
            InputEvent::KeyTyped(character) => InputEvent::KeyTyped(*character),
            InputEvent::ButtonPressed(button) => InputEvent::ButtonPressed(*button),
            InputEvent::ButtonReleased(button) => InputEvent::ButtonReleased(*button),
            InputEvent::CursorMoved { delta_x, delta_y } => InputEvent::CursorMoved {
                delta_x: *delta_x,
                delta_y: *delta_y,
            },
            InputEvent::AxisMoved { axis, value } => InputEvent::AxisMoved { axis: axis.clone(), value: *value },
            InputEvent::ControllerAxisMoved { which, axis, value } => InputEvent::ControllerAxisMoved {
                which: *which,
                axis: *axis,
                value: *value,
            },
            InputEvent::ControllerButtonPressed { which, button } => InputEvent::ControllerButtonPressed {
                which: *which,
                button: *button,
            },
            InputEvent::ControllerButtonReleased { which, button } => InputEvent::ControllerButtonReleased {
                which: *which,
                button: *button,
            },
            InputEvent::ControllerConnected { which } => InputEvent::ControllerConnected { which: *which },
            InputEvent::ControllerDisconnected { which } => InputEvent::ControllerDisconnected { which: *which },
        }
    }
}

/// The raw event that a classified event wraps.
pub open spec fn raw_event(event: FilteredInputEvent) -> InputEvent {
    match event {
        FilteredInputEvent::Filtered(raw) => raw,
        FilteredInputEvent::Free(raw) => raw,
    }
}

/// The event is free for the world.
pub open spec fn is_free(event: FilteredInputEvent) -> bool {
    event is Free
}

impl FilteredInputEvent {
    /// A copy of the event, with the same tag and an equal raw event.
    pub fn duplicate(&self) -> (copy: FilteredInputEvent)
        ensures
            copy == *self,
    {
        match self {
            FilteredInputEvent::Filtered(raw) => FilteredInputEvent::Filtered(raw.duplicate()),
            FilteredInputEvent::Free(raw) => FilteredInputEvent::Free(raw.duplicate()),
        }
    }

    /// The raw event inside, whatever the tag.
    pub fn event(&self) -> (raw: &InputEvent)
        ensures
            *raw == raw_event(*self),
    {
        match self {
            FilteredInputEvent::Filtered(raw) => raw,
            FilteredInputEvent::Free(raw) => raw,
        }
    }

    /// Whether the world may react to the event.
    pub fn is_free(&self) -> (free: bool)
        ensures
            free == is_free(*self),
    {
        match self {
            FilteredInputEvent::Filtered(_) => false,
            FilteredInputEvent::Free(_) => true,
        }
    }
}

} // verus!
