//! The viewer's application state: what a window event or a frame means for
//! the run as a whole.

use vstd::prelude::*;
use crate::render::{next_mode, RenderMode};
use crate::scene::{EntityRef, TemplateHandle};
use std::collections::HashMap;

verus! {

broadcast use vstd::std_specs::hash::group_hash_axioms;

/// A key of the keyboard, as far as the viewer tells keys apart.
#[derive(Clone, Copy, Debug, PartialEq, Eq, Structural)]
pub enum VirtualKey {
    Escape,
    E,
    Other(u32),
}

/// An event of the window.
#[derive(Clone, Copy, Debug, PartialEq, Eq, Structural)]
pub enum WindowEvent {
    CloseRequested,
    KeyDown(VirtualKey),
    Other,
}

/// An event that reaches the application state.
#[derive(Clone, Copy, Debug, PartialEq, Eq, Structural)]
pub enum StateEvent {
    Window(WindowEvent),
    Other,
}

/// What the frame loop does next.
#[derive(Clone, Copy, Debug, PartialEq, Eq, Structural)]
pub enum Trans {
    /// Go on.
    Continue,
    /// End the run.
    Quit,
}

/// What the loader says of the scene templates.
#[derive(Clone, Copy, Debug, PartialEq, Eq, Structural)]
pub enum Completion {
    Loading,
    Complete,
    Failed,
}

/// The application state of the viewer.
#[derive(Clone, Copy, Debug)]
pub struct Lightroom {
    pub initialised: bool,
    /// Loading of the templates is being followed.
    pub loading: bool,
    pub scene: usize,
    pub scene_root: Option<EntityRef>,
}

/// The event asks for the end of the run: the window is to be closed, or the
/// escape key went down.
pub open spec fn asks_to_quit(event: StateEvent) -> bool {
    event == StateEvent::Window(WindowEvent::CloseRequested) || event == StateEvent::Window(
        WindowEvent::KeyDown(VirtualKey::Escape),
    )
}

/// The event asks for the next rendering technique.
pub open spec fn asks_for_next_mode(event: StateEvent) -> bool {
    event == StateEvent::Window(WindowEvent::KeyDown(VirtualKey::E))
}

impl Lightroom {
    pub fn new(scene: usize) -> (state: Lightroom)
        ensures
            !state.initialised,
            !state.loading,
            state.scene == scene,
            state.scene_root is None,
    {
        Lightroom { initialised: false, loading: false, scene, scene_root: None }
    }

    /// The two scene templates have been handed to the loader: their loading
    /// is followed from now on. Returns the registry of scenes, with `plane`
    /// as scene 0 and `sponza` as scene 1.
    pub fn on_start(&mut self, plane: TemplateHandle, sponza: TemplateHandle) -> (scene_map: HashMap<
        usize,
        TemplateHandle,
    >)
        ensures
            final(self).loading,
            final(self).initialised == old(self).initialised,
            final(self).scene == old(self).scene,
            final(self).scene_root == old(self).scene_root,
            scene_map@ == Map::<usize, TemplateHandle>::empty().insert(0, plane).insert(1, sponza),
    {
        self.loading = true;
        let mut scene_map: HashMap<usize, TemplateHandle> = HashMap::new();
        scene_map.insert(0, plane);
        scene_map.insert(1, sponza);
        scene_map
    }

    /// Reacts to an event: a request to close the window, or the escape key,
    /// ends the run; the key E selects the next rendering technique; nothing
    /// else has an effect.
    pub fn handle_event(&mut self, event: StateEvent, mode: &mut RenderMode) -> (trans: Trans)
        ensures
            trans == (if asks_to_quit(event) {
                Trans::Quit
            } else {
                Trans::Continue
            }),
            *final(mode) == (if asks_for_next_mode(event) {
                next_mode(*old(mode))
            } else {
                *old(mode)
            }),
            *final(self) == *old(self),
    {
        match event {
            StateEvent::Window(window) => match window {
                WindowEvent::CloseRequested => Trans::Quit,
                WindowEvent::KeyDown(key) => match key {
                    VirtualKey::Escape => Trans::Quit,
                    VirtualKey::E => {
                        *mode = mode.next();
                        Trans::Continue
                    },
                    VirtualKey::Other(_) => Trans::Continue,
                },
                WindowEvent::Other => Trans::Continue,
            },
            StateEvent::Other => Trans::Continue,
        }
    }

    /// One frame of the state. While loading is followed, `completion` is
    /// what the loader reports: a failure ends the run, completion ends the
    /// following, and the run goes on otherwise.
    pub fn update(&mut self, completion: Completion) -> (trans: Trans)
        ensures
            trans == (if !old(self).initialised && old(self).loading && completion == Completion::Failed {
                Trans::Quit
            } else {
                Trans::Continue
            }),
            final(self).loading == (old(self).loading && (old(self).initialised || completion
                != Completion::Complete)),
            final(self).initialised == old(self).initialised,
            final(self).scene == old(self).scene,
            final(self).scene_root == old(self).scene_root,
    {
        if !self.initialised && self.loading {
            match completion {
                Completion::Loading => {},
                Completion::Complete => {
                    self.loading = false;
                },
                Completion::Failed => {
                    return Trans::Quit;
                },
            }
        }
        Trans::Continue
    }
}

} // verus!
