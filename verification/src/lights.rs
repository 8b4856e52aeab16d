//! The light inspector: a snapshot of every light is shown in the panel, and
//! what the user changed there is written back to the component store.

use vstd::prelude::*;
use crate::scalar::{is_nan, same_number, same_numbers, Scalar};
use crate::scene::EntityRef;

verus! {

/// Kind shown for a light that the panel cannot edit.
pub const KIND_NONE: usize = 0;

pub const KIND_DISK: usize = 1;

pub const KIND_SPHERE: usize = 2;

pub const KIND_RECTANGLE: usize = 3;

/// The intensity is a power.
pub const UNIT_POWER: usize = 0;

/// The intensity is a luminance.
pub const UNIT_LUMINANCE: usize = 1;

/// Bounds of the position sliders.
pub const POSITION_MIN: i32 = -20;

pub const POSITION_MAX: i32 = 20;

/// Bounds of the sliders of the rotation's four components.
pub const ROTATION_MIN: i32 = -1;

pub const ROTATION_MAX: i32 = 1;

/// Bounds of the scale sliders.
pub const SCALE_MIN: i32 = 0;

pub const SCALE_MAX: i32 = 10;

/// Bounds of the intensity slider.
pub const INTENSITY_MIN: i32 = 0;

pub const INTENSITY_MAX: i32 = 100;

/// A light as the component store holds it, as far as the panel reads it.
/// The parameters that the panel does not show are not held here; a light
/// that the panel makes has the defaults for them.
#[derive(Clone, Copy, Debug, PartialEq, Eq, Structural)]
pub enum StoredLight {
    Disk { intensity: Scalar, unit: IntensityUnit, two_sided: bool },
    Sphere { intensity: Scalar, unit: IntensityUnit },
    Rectangle { intensity: Scalar, unit: IntensityUnit, two_sided: bool },
    /// Any light that is no area light of these three kinds.
    Other,
}

/// The unit in which a light's intensity is given.
#[derive(Clone, Copy, Debug, PartialEq, Eq, Structural)]
pub enum IntensityUnit {
    Power,
    Luminance,
}

/// The light parameters that the panel shows.
#[derive(Clone, Copy, Debug)]
pub struct LightTy {
    pub kind: usize,
    pub intensity: Scalar,
    pub unit_type: usize,
}

/// What the panel shows of one light: made anew each frame from the
/// component store, edited by the panel, compared, and dropped.
#[derive(Clone, Copy, Debug)]
pub struct LightSync {
    pub entity: EntityRef,
    pub translation: [Scalar; 3],
    /// The rotation's components as the store holds them: i, j, k, then w.
    pub rotation: [Scalar; 4],
    pub scale: [Scalar; 2],
    pub light: LightTy,
}

/// One value that goes back to the component store.
#[derive(Clone, Copy, Debug, PartialEq, Eq, Structural)]
pub enum LightWrite {
    /// The entity's position becomes (x, y, z).
    Translation { entity: EntityRef, x: Scalar, y: Scalar, z: Scalar },
    /// The entity's orientation becomes the unit quaternion that has the
    /// direction of (w; i, j, k).
    Rotation { entity: EntityRef, i: Scalar, j: Scalar, k: Scalar, w: Scalar },
    /// The entity's scale becomes (x, y, z).
    Scale { entity: EntityRef, x: Scalar, y: Scalar, z: Scalar },
    /// The entity's light is replaced by `light`.
    Light { entity: EntityRef, light: StoredLight },
}

/// Label of the intensity slider.
#[derive(Clone, Copy, Debug, PartialEq, Eq, Structural)]
pub enum IntensityLabel {
    Power,
    Luminance,
}

/// The number that the unit selector shows for a unit.
pub open spec fn unit_number(unit: IntensityUnit) -> usize {
    match unit {
        IntensityUnit::Power => UNIT_POWER,
        IntensityUnit::Luminance => UNIT_LUMINANCE,
    }
}

/// The unit that a number of the unit selector stands for, if any.
pub open spec fn unit_of(unit_type: usize) -> Option<IntensityUnit> {
    if unit_type == UNIT_POWER {
        Some(IntensityUnit::Power)
    } else if unit_type == UNIT_LUMINANCE {
        Some(IntensityUnit::Luminance)
    } else {
        None
    }
}

/// What the panel shows of a stored light: its kind, its intensity and the
/// unit of that intensity; for a light that it cannot edit, no kind, no
/// intensity, and the power unit.
pub open spec fn shown_light(light: StoredLight) -> LightTy {
    match light {
        StoredLight::Disk { intensity, unit, .. } => LightTy { kind: KIND_DISK, intensity, unit_type: unit_number(unit) },
        StoredLight::Sphere { intensity, unit } => LightTy { kind: KIND_SPHERE, intensity, unit_type: unit_number(unit) },
        StoredLight::Rectangle { intensity, unit, .. } => LightTy {
            kind: KIND_RECTANGLE,
            intensity,
            unit_type: unit_number(unit),
        },
        StoredLight::Other => LightTy { kind: KIND_NONE, intensity: Scalar { bits: 0 }, unit_type: UNIT_POWER },
    }
}

/// The light that the panel makes for a kind, with the given intensity in
/// the given unit; disks and rectangles shine to both sides. No light for a
/// kind or a unit that the panel does not know.
pub open spec fn made_light(kind: usize, intensity: Scalar, unit_type: usize) -> Option<StoredLight> {
    match unit_of(unit_type) {
        Some(unit) => if kind == KIND_DISK {
            Some(StoredLight::Disk { intensity, unit, two_sided: true })
        } else if kind == KIND_SPHERE {
            Some(StoredLight::Sphere { intensity, unit })
        } else if kind == KIND_RECTANGLE {
            Some(StoredLight::Rectangle { intensity, unit, two_sided: true })
        } else {
            None
        },
        None => None,
    }
}

/// The two sets of light parameters differ: in kind, in unit, or in
/// intensity as a number.
pub open spec fn light_changed(before: LightTy, after: LightTy) -> bool {
    before.kind != after.kind || !same_number(before.intensity, after.intensity) || before.unit_type
        != after.unit_type
}

/// The write of the position, if it changed.
pub open spec fn translation_write(before: LightSync, after: LightSync) -> Seq<LightWrite> {
    if !same_numbers(after.translation@, before.translation@) {
        seq![
            LightWrite::Translation {
                entity: after.entity,
                x: after.translation[0],
                y: after.translation[1],
                z: after.translation[2],
            },
        ]
    } else {
        Seq::empty()
    }
}

/// The write of the orientation, if one of its components changed.
pub open spec fn rotation_write(before: LightSync, after: LightSync) -> Seq<LightWrite> {
    if !same_numbers(after.rotation@, before.rotation@) {
        seq![
            LightWrite::Rotation {
                entity: after.entity,
                i: after.rotation[0],
                j: after.rotation[1],
                k: after.rotation[2],
                w: after.rotation[3],
            },
        ]
    } else {
        Seq::empty()
    }
}

/// The write of the scale, if it changed: the two shown components, and one
/// for the third.
pub open spec fn scale_write(before: LightSync, after: LightSync) -> Seq<LightWrite> {
    if !same_numbers(after.scale@, before.scale@) {
        seq![
            LightWrite::Scale {
                entity: after.entity,
                x: after.scale[0],
                y: after.scale[1],
                z: Scalar { bits: crate::scalar::ONE_BITS },
            },
        ]
    } else {
        Seq::empty()
    }
}

/// The write of the light, if its parameters changed and its kind and unit
/// are ones that the panel can make: a light of the kind, the intensity and
/// the unit that the panel shows now.
pub open spec fn light_write(before: LightSync, after: LightSync) -> Seq<LightWrite> {
    if light_changed(before.light, after.light) {
        match made_light(after.light.kind, after.light.intensity, after.light.unit_type) {
            Some(light) => seq![LightWrite::Light { entity: after.entity, light }],
            None => Seq::empty(),
        }
    } else {
        Seq::empty()
    }
}

/// The writes for one light, `before` being its snapshot and `after` what
/// the panel left of it: position, orientation, scale, light, each only if
/// it changed.
pub open spec fn writes_for(before: LightSync, after: LightSync) -> Seq<LightWrite> {
    translation_write(before, after) + rotation_write(before, after) + scale_write(before, after) + light_write(
        before,
        after,
    )
}

/// The writes for all lights, in the order of the lights.
pub open spec fn all_writes(before: Seq<LightSync>, after: Seq<LightSync>) -> Seq<LightWrite>
    recommends
        after.len() <= before.len(),
    decreases after.len(),
{
    if after.len() == 0 {
        Seq::empty()
    } else {
        all_writes(before, after.drop_last()) + writes_for(before[after.len() - 1], after.last())
    }
}

/// The snapshot holds no NaN.
pub open spec fn all_numbers(entry: LightSync) -> bool {
    &&& forall|i: int| 0 <= i < 3 ==> !is_nan(#[trigger] entry.translation@[i])
    &&& forall|i: int| 0 <= i < 4 ==> !is_nan(#[trigger] entry.rotation@[i])
    &&& forall|i: int| 0 <= i < 2 ==> !is_nan(#[trigger] entry.scale@[i])
    &&& !is_nan(entry.light.intensity)
}

/// Whether two arrays of numbers differ in a component, as numbers.
pub fn differ<const N: usize>(a: &[Scalar; N], b: &[Scalar; N]) -> (r: bool)
    ensures
        r == !same_numbers(a@, b@),
{
    let mut i: usize = 0;
    while i < N
        invariant
            0 <= i <= N,
            forall|k: int| 0 <= k < i ==> same_number(#[trigger] a@[k], b@[k]),
        decreases N - i,
    {
        if !a[i].same(&b[i]) {
            return true;
        }
        i = i + 1;
    }
    false
}

impl LightTy {
    /// Whether the parameters differ from `other`.
    pub fn differs(&self, other: &LightTy) -> (r: bool)
        ensures
            r == light_changed(*other, *self),
    {
        self.kind != other.kind || !self.intensity.same(&other.intensity) || self.unit_type != other.unit_type
    }
}

/// Renders the panel and keeps the component store in step with it.
#[derive(Clone, Copy, Debug)]
pub struct UISystem {}

impl Default for UISystem {
    fn default() -> (system: UISystem) {
        UISystem {}
    }
}

impl UISystem {
    /// The number that the unit selector shows for a unit.
    pub fn unit_type(unit: IntensityUnit) -> (unit_type: usize)
        ensures
            unit_type == unit_number(unit),
    {
        match unit {
            IntensityUnit::Power => UNIT_POWER,
            IntensityUnit::Luminance => UNIT_LUMINANCE,
        }
    }

    /// The unit that a number of the unit selector stands for, if any.
    pub fn unit(unit_type: usize) -> (unit: Option<IntensityUnit>)
        ensures
            unit == unit_of(unit_type),
    {
        if unit_type == UNIT_POWER {
            Some(IntensityUnit::Power)
        } else if unit_type == UNIT_LUMINANCE {
            Some(IntensityUnit::Luminance)
        } else {
            None
        }
    }

    /// What the panel shows of a stored light.
    pub fn shown(light: &StoredLight) -> (shown: LightTy)
        ensures
            shown == shown_light(*light),
    {
        match light {
            StoredLight::Disk { intensity, unit, two_sided: _ } => LightTy {
                kind: KIND_DISK,
                intensity: *intensity,
                unit_type: UISystem::unit_type(*unit),
            },
            StoredLight::Sphere { intensity, unit } => LightTy {
                kind: KIND_SPHERE,
                intensity: *intensity,
                unit_type: UISystem::unit_type(*unit),
            },
            StoredLight::Rectangle { intensity, unit, two_sided: _ } => LightTy {
                kind: KIND_RECTANGLE,
                intensity: *intensity,
                unit_type: UISystem::unit_type(*unit),
            },
            StoredLight::Other => LightTy { kind: KIND_NONE, intensity: Scalar { bits: 0 }, unit_type: UNIT_POWER },
        }
    }

    /// The snapshot of one light-bearing entity.
    pub fn snapshot(
        entity: EntityRef,
        translation: [Scalar; 3],
        rotation: [Scalar; 4],
        scale: [Scalar; 2],
        light: &StoredLight,
    ) -> (entry: LightSync)
        ensures
            entry.entity == entity,
            entry.translation == translation,
            entry.rotation == rotation,
            entry.scale == scale,
            entry.light == shown_light(*light),
    {
        LightSync { entity, translation, rotation, scale, light: UISystem::shown(light) }
    }

    /// The light that the panel makes for a kind, an intensity and a unit.
    pub fn make_light(kind: usize, intensity: Scalar, unit_type: usize) -> (light: Option<StoredLight>)
        ensures
            light == made_light(kind, intensity, unit_type),
    {
        match UISystem::unit(unit_type) {
            Some(unit) => {
                if kind == KIND_DISK {
                    Some(StoredLight::Disk { intensity, unit, two_sided: true })
                } else if kind == KIND_SPHERE {
                    Some(StoredLight::Sphere { intensity, unit })
                } else if kind == KIND_RECTANGLE {
                    Some(StoredLight::Rectangle { intensity, unit, two_sided: true })
                } else {
                    None
                }
            },
            None => None,
        }
    }

    /// Whether the panel lists the lights while scene `scene` is selected:
    /// it does for the two scenes it knows, and asks for a selection
    /// otherwise.
    pub fn lists_lights(scene: usize) -> (lists: bool)
        ensures
            lists == (scene == 0 || scene == 1),
    {
        scene == 0 || scene == 1
    }

    /// The label of the intensity slider for a unit; no slider is shown for
    /// a unit that the panel does not know.
    pub fn intensity_label(unit_type: usize) -> (label: Option<IntensityLabel>)
        ensures
            label == (if unit_type == UNIT_POWER {
                Some(IntensityLabel::Power)
            } else if unit_type == UNIT_LUMINANCE {
                Some(IntensityLabel::Luminance)
            } else {
                None
            }),
    {
        if unit_type == UNIT_POWER {
            Some(IntensityLabel::Power)
        } else if unit_type == UNIT_LUMINANCE {
            Some(IntensityLabel::Luminance)
        } else {
            None
        }
    }

    /// Adds to `writes` what has to be written back for one light.
    pub fn write_back(before: &LightSync, after: &LightSync, writes: &mut Vec<LightWrite>)
        ensures
            final(writes)@ == old(writes)@ + writes_for(*before, *after),
    {
        let ghost start = writes@;
        if differ(&after.translation, &before.translation) {
            writes.push(
                LightWrite::Translation {
                    entity: after.entity,
                    x: after.translation[0],
                    y: after.translation[1],
                    z: after.translation[2],
                },
            );
        }
        assert(writes@ =~= start + translation_write(*before, *after));
        if differ(&after.rotation, &before.rotation) {
            writes.push(
                LightWrite::Rotation {
                    entity: after.entity,
                    i: after.rotation[0],
                    j: after.rotation[1],
                    k: after.rotation[2],
                    w: after.rotation[3],
                },
            );
        }
        assert(writes@ =~= start + translation_write(*before, *after) + rotation_write(*before, *after));
        if differ(&after.scale, &before.scale) {
            writes.push(
                LightWrite::Scale { entity: after.entity, x: after.scale[0], y: after.scale[1], z: Scalar::one() },
            );
        }
        assert(writes@ =~= start + translation_write(*before, *after) + rotation_write(*before, *after)
            + scale_write(*before, *after));
        if after.light.differs(&before.light) {
            match UISystem::make_light(after.light.kind, after.light.intensity, after.light.unit_type) {
                Some(light) => {
                    writes.push(LightWrite::Light { entity: after.entity, light });
                },
                None => {},
            }
        }
        assert(writes@ =~= start + (translation_write(*before, *after) + rotation_write(*before, *after)
            + scale_write(*before, *after) + light_write(*before, *after)));
    }

    /// The last step of a frame of the panel: `before` holds the snapshots
    /// as they were made, `after` what the panel left of each. Returns, in
    /// the order of the lights, every value that the user changed.
    pub fn run(&mut self, before: &Vec<LightSync>, after: &Vec<LightSync>) -> (writes: Vec<LightWrite>)
        requires
            after@.len() <= before@.len(),
        ensures
            writes@ == all_writes(before@, after@),
    {
        let mut writes: Vec<LightWrite> = Vec::new();
        let mut i: usize = 0;
        while i < after.len()
            invariant
                0 <= i <= after.len(),
                after@.len() <= before@.len(),
                writes@ == all_writes(before@, after@.take(i as int)),
            decreases after.len() - i,
        {
            proof {
                assert(after@.take(i + 1).drop_last() =~= after@.take(i as int));
                assert(after@.take(i + 1).last() == after@[i as int]);
            }
            UISystem::write_back(&before[i], &after[i], &mut writes);
            i = i + 1;
        }
        proof {
            assert(after@.take(after@.len() as int) =~= after@);
        }
        writes
    }
}

/// What the panel makes for a kind and a unit that it knows is shown with
/// that kind, that intensity and that unit.
pub proof fn lemma_made_light_is_shown(kind: usize, intensity: Scalar, unit_type: usize)
    requires
        kind == KIND_DISK || kind == KIND_SPHERE || kind == KIND_RECTANGLE,
        unit_type == UNIT_POWER || unit_type == UNIT_LUMINANCE,
    ensures
        made_light(kind, intensity, unit_type) is Some,
        shown_light(made_light(kind, intensity, unit_type)->0) == (LightTy { kind, intensity, unit_type }),
{
}

/// What the panel shows of a light that it can edit is what it would make
/// that light from, but for the sides: making a light from what is shown of
/// it gives its kind, intensity and unit back.
pub proof fn lemma_shown_light_is_made(light: StoredLight)
    requires
        !(light is Other),
    ensures
        made_light(shown_light(light).kind, shown_light(light).intensity, shown_light(light).unit_type) is Some,
        shown_light(
            made_light(shown_light(light).kind, shown_light(light).intensity, shown_light(light).unit_type)->0,
        ) == shown_light(light),
{
}

/// A light that the panel left untouched is not written back, as long as
/// its snapshot holds numbers only.
pub proof fn lemma_untouched_light_writes_nothing(entry: LightSync)
    requires
        all_numbers(entry),
    ensures
        writes_for(entry, entry) == Seq::<LightWrite>::empty(),
{
    assert(same_numbers(entry.translation@, entry.translation@));
    assert(same_numbers(entry.rotation@, entry.rotation@));
    assert(same_numbers(entry.scale@, entry.scale@));
    assert(writes_for(entry, entry) =~= Seq::<LightWrite>::empty());
}

/// A panel that nothing was changed in writes nothing back.
pub proof fn lemma_untouched_panel_writes_nothing(entries: Seq<LightSync>)
    requires
        forall|i: int| 0 <= i < entries.len() ==> all_numbers(#[trigger] entries[i]),
    ensures
        all_writes(entries, entries) == Seq::<LightWrite>::empty(),
{
    lemma_untouched_prefix(entries, entries.len() as int);
    assert(entries.take(entries.len() as int) =~= entries);
}

/// The first `n` lights of an untouched panel write nothing back.
proof fn lemma_untouched_prefix(entries: Seq<LightSync>, n: int)
    requires
        0 <= n <= entries.len(),
        forall|i: int| 0 <= i < entries.len() ==> all_numbers(#[trigger] entries[i]),
    ensures
        all_writes(entries, entries.take(n)) == Seq::<LightWrite>::empty(),
    decreases n,
{
    if n > 0 {
        lemma_untouched_prefix(entries, n - 1);
        assert(entries.take(n).drop_last() =~= entries.take(n - 1));
        lemma_untouched_light_writes_nothing(entries[n - 1]);
        assert(entries.take(n).last() == entries[n - 1]);
    }
}

/// A change of the intensity alone, on a light of a kind and unit that the
/// panel knows, writes back exactly one light of that kind and unit with
/// the new intensity.
pub proof fn lemma_intensity_edit_keeps_kind(before: LightSync, intensity: Scalar)
    requires
        all_numbers(before),
        before.light.kind == KIND_DISK || before.light.kind == KIND_SPHERE || before.light.kind
            == KIND_RECTANGLE,
        before.light.unit_type == UNIT_POWER || before.light.unit_type == UNIT_LUMINANCE,
        !same_number(before.light.intensity, intensity),
    ensures
        ({
            let after = LightSync { light: LightTy { intensity, ..before.light }, ..before };
            let light = made_light(before.light.kind, intensity, before.light.unit_type);
            &&& light is Some
            &&& writes_for(before, after) == seq![LightWrite::Light { entity: before.entity, light: light->0 }]
            &&& shown_light(light->0) == after.light
        }),
{
    let after = LightSync { light: LightTy { intensity, ..before.light }, ..before };
    assert(same_numbers(after.translation@, before.translation@));
    assert(same_numbers(after.rotation@, before.rotation@));
    assert(same_numbers(after.scale@, before.scale@));
    assert(writes_for(before, after) =~= light_write(before, after));
}

/// A change of the unit alone, on a light of a kind that the panel knows,
/// writes back exactly one light of that kind with the same intensity in
/// the new unit, and the next snapshot of that light shows the new unit.
pub proof fn lemma_unit_edit_keeps_kind_and_intensity(before: LightSync, unit_type: usize)
    requires
        all_numbers(before),
        before.light.kind == KIND_DISK || before.light.kind == KIND_SPHERE || before.light.kind
            == KIND_RECTANGLE,
        unit_type == UNIT_POWER || unit_type == UNIT_LUMINANCE,
        unit_type != before.light.unit_type,
    ensures
        ({
            let after = LightSync { light: LightTy { unit_type, ..before.light }, ..before };
            let light = made_light(before.light.kind, before.light.intensity, unit_type);
            &&& light is Some
            &&& writes_for(before, after) == seq![LightWrite::Light { entity: before.entity, light: light->0 }]
            &&& shown_light(light->0) == after.light
            &&& shown_light(light->0).unit_type == unit_type
        }),
{
    let after = LightSync { light: LightTy { unit_type, ..before.light }, ..before };
    assert(same_numbers(after.translation@, before.translation@));
    assert(same_numbers(after.rotation@, before.rotation@));
    assert(same_numbers(after.scale@, before.scale@));
    assert(writes_for(before, after) =~= light_write(before, after));
}

} // verus!
