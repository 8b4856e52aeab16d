//! Frame-driven control layer of an interactive scene viewer.
//!
//! The crate holds the decisions that a frame of the viewer makes: which layer
//! may react to an input event, how the camera follows the pointer, when the
//! active scene is replaced, which edits of the light panel reach the
//! component store, and when the rendering pipeline has to be rebuilt.

pub mod scalar;
pub mod events;
pub mod bus;
pub mod ui_state;
pub mod filtered_input;
pub mod camera;
pub mod schedule;
pub mod scene;
pub mod render;
pub mod state;
pub mod lights;
