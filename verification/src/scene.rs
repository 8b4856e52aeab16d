//! The scene switch: replaces the root of the active scene when the user
//! selects another one.

use vstd::prelude::*;
use std::collections::HashMap;
use crate::ui_state::UIState;

verus! {

broadcast use vstd::std_specs::hash::group_hash_axioms;

/// An entity of the component store, by index and generation.
#[derive(Clone, Copy, Debug, PartialEq, Eq, Structural)]
pub struct EntityRef {
    pub id: u32,
    pub generation: i32,
}

/// A loaded scene template, by the identifier that the loader gave it.
#[derive(Clone, Copy, Debug, PartialEq, Eq, Structural)]
pub struct TemplateHandle {
    pub id: u32,
}

/// The scene that is instantiated now: its index and the root entity that
/// was made from its template. Both are set or both are empty.
#[derive(Clone, Copy, Debug, PartialEq, Eq, Structural)]
pub struct ActiveScene {
    pub scene: Option<usize>,
    pub entity: Option<EntityRef>,
}

/// What the component store has to do for a switch.
#[derive(Clone, Copy, Debug, PartialEq, Eq, Structural)]
pub enum SceneSwitch {
    /// The wanted scene is the active one: nothing is destroyed or created.
    Keep,
    /// Destroy `destroy` with all below it, if there is one, and make one
    /// new entity from `template`, the template of scene `index`.
    Replace { destroy: Option<EntityRef>, index: usize, template: TemplateHandle },
}

impl ActiveScene {
    /// Index and root are set together.
    pub open spec fn well_formed(&self) -> bool {
        self.scene is Some <==> self.entity is Some
    }

    /// No scene is active.
    pub fn empty() -> (record: ActiveScene)
        ensures
            record.scene is None,
            record.entity is None,
            record.well_formed(),
    {
        ActiveScene { scene: None, entity: None }
    }
}

/// A switch is due when no scene is active or another one than `wanted`.
pub open spec fn switch_due(record: ActiveScene, wanted: usize) -> bool {
    record.scene != Some(wanted)
}

/// The step that leads from `record` to scene `wanted`.
pub open spec fn switch_for(record: ActiveScene, wanted: usize, registry: Map<usize, TemplateHandle>) -> SceneSwitch {
    if switch_due(record, wanted) {
        SceneSwitch::Replace { destroy: record.entity, index: wanted, template: registry[wanted] }
    } else {
        SceneSwitch::Keep
    }
}

/// The record once `step` has been carried out and `root` is the entity that
/// was made for it.
pub open spec fn record_after(record: ActiveScene, step: SceneSwitch, root: EntityRef) -> ActiveScene {
    match step {
        SceneSwitch::Keep => record,
        SceneSwitch::Replace { index, .. } => ActiveScene { scene: Some(index), entity: Some(root) },
    }
}

/// The scene roots that live in the store, each with the template it was made
/// from, once `step` has been carried out with `root` as the new entity.
pub open spec fn roots_after(roots: Map<EntityRef, TemplateHandle>, step: SceneSwitch, root: EntityRef) -> Map<EntityRef, TemplateHandle> {
    match step {
        SceneSwitch::Keep => roots,
        SceneSwitch::Replace { destroy, template, .. } => match destroy {
            Some(previous) => roots.remove(previous).insert(root, template),
            None => roots.insert(root, template),
        },
    }
}

/// Decides when the active scene is replaced.
#[derive(Clone, Copy, Debug)]
pub struct SceneChangeSystem {}

impl SceneChangeSystem {
    pub fn new() -> (system: SceneChangeSystem) {
        SceneChangeSystem {}
    }

    /// One frame of the switch: compares the active scene with the one that
    /// the user wants and says what has to be done. The registry must hold
    /// the wanted scene whenever a switch is due.
    pub fn run(&mut self, ui_state: &UIState, scene: &ActiveScene, scene_map: &HashMap<usize, TemplateHandle>) -> (step: SceneSwitch)
        requires
            switch_due(*scene, ui_state.scene) ==> scene_map@.contains_key(ui_state.scene),
        ensures
            step == switch_for(*scene, ui_state.scene, scene_map@),
    {
        let due = match scene.scene {
            None => true,
            Some(active) => active != ui_state.scene,
        };
        if due {
            match scene_map.get(&ui_state.scene) {
                Some(template) => SceneSwitch::Replace {
                    destroy: scene.entity,
                    index: ui_state.scene,
                    template: *template,
                },
                None => SceneSwitch::Keep,
            }
        } else {
            SceneSwitch::Keep
        }
    }

    /// Records that `step` has been carried out: `root` is the entity that
    /// was made from the template. After `Keep` the record stays as it is.
    pub fn complete(&mut self, scene: &mut ActiveScene, step: SceneSwitch, root: EntityRef)
        ensures
            *final(scene) == record_after(*old(scene), step, root),
            old(scene).well_formed() ==> final(scene).well_formed(),
    {
        match step {
            SceneSwitch::Keep => {},
            SceneSwitch::Replace { destroy: _, index, template: _ } => {
                scene.scene = Some(index);
                scene.entity = Some(root);
            },
        }
    }
}

/// Switching to the scene that is already active is a no-op: nothing is
/// destroyed or created, and record and store stay as they are.
pub proof fn lemma_switch_idempotent(
    record: ActiveScene,
    wanted: usize,
    registry: Map<usize, TemplateHandle>,
    roots: Map<EntityRef, TemplateHandle>,
    root: EntityRef,
)
    requires
        record.scene == Some(wanted),
    ensures
        switch_for(record, wanted, registry) == SceneSwitch::Keep,
        record_after(record, switch_for(record, wanted, registry), root) == record,
        roots_after(roots, switch_for(record, wanted, registry), root) == roots,
{
}

/// Once a switch to a scene has been completed, asking for that scene again
/// changes nothing.
pub proof fn lemma_switch_settles(
    record: ActiveScene,
    wanted: usize,
    registry: Map<usize, TemplateHandle>,
    root: EntityRef,
)
    ensures
        record_after(record, switch_for(record, wanted, registry), root).scene == Some(wanted),
        switch_for(record_after(record, switch_for(record, wanted, registry), root), wanted, registry)
            == SceneSwitch::Keep,
{
}

/// A switch from one scene to another destroys the previous root and nothing
/// else, creates one root from the template of the new scene, and leaves the
/// new scene's index in the record.
pub proof fn lemma_switch_replaces_root(
    record: ActiveScene,
    wanted: usize,
    registry: Map<usize, TemplateHandle>,
    roots: Map<EntityRef, TemplateHandle>,
    root: EntityRef,
)
    requires
        record.well_formed(),
        switch_due(record, wanted),
        record.entity is Some ==> roots.contains_key(record.entity->0),
        !roots.contains_key(root),
    ensures
        switch_for(record, wanted, registry) == (SceneSwitch::Replace {
            destroy: record.entity,
            index: wanted,
            template: registry[wanted],
        }),
        record_after(record, switch_for(record, wanted, registry), root).scene == Some(wanted),
        record_after(record, switch_for(record, wanted, registry), root).entity == Some(root),
        record_after(record, switch_for(record, wanted, registry), root).well_formed(),
        forall|e: EntityRef|
            roots_after(roots, switch_for(record, wanted, registry), root).contains_key(e) <==> (e == root
                || (roots.contains_key(e) && record.entity != Some(e))),
        roots_after(roots, switch_for(record, wanted, registry), root)[root] == registry[wanted],
        forall|e: EntityRef|
            roots.contains_key(e) && record.entity != Some(e) ==> roots_after(
                roots,
                switch_for(record, wanted, registry),
                root,
            )[e] == roots[e],
{
}

} // verus!
