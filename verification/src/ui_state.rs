//! State that the interface shares with the controllers.

use vstd::prelude::*;

verus! {

/// What the user has chosen in the panel. The interface writes it; the scene
/// switch and the camera controller read it.
#[derive(Clone, Copy, Debug)]
pub struct UIState {
    /// The camera follows the pointer without a button held down.
    pub free_camera_movement: bool,
    /// Index of the scene that the user wants to see.
    pub scene: usize,
}

impl Default for UIState {
    fn default() -> (state: UIState)
        ensures
            !state.free_camera_movement,
            state.scene == 0,
    {
        UIState { free_camera_movement: false, scene: 0 }
    }
}

/// What the interface wants to keep for itself in the current frame.
#[derive(Clone, Copy, Debug)]
pub struct CaptureState {
    pub wants_mouse: bool,
    pub wants_keyboard: bool,
}

} // verus!
