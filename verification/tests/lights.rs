use lightroom::lights::{
    differ, IntensityLabel, IntensityUnit, LightSync, LightTy, LightWrite, StoredLight, UISystem, INTENSITY_MAX,
    INTENSITY_MIN,
    POSITION_MAX, POSITION_MIN, ROTATION_MAX, ROTATION_MIN, SCALE_MAX, SCALE_MIN,
};
use lightroom::scalar::Scalar;
use lightroom::scene::EntityRef;

fn number(x: f32) -> Scalar {
    Scalar::from_bits(x.to_bits())
}

fn entity(id: u32) -> EntityRef {
    EntityRef { id, generation: 1 }
}

fn disk(id: u32, intensity: f32) -> LightSync {
    UISystem::snapshot(
        entity(id),
        [number(1.0), number(2.0), number(3.0)],
        [number(0.0), number(0.0), number(0.0), number(1.0)],
        [number(1.0), number(1.0)],
        &StoredLight::Disk { intensity: number(intensity), unit: IntensityUnit::Power, two_sided: false },
    )
}

#[test]
fn intensity_edit_round_trip() {
    let before = vec![disk(4, 10.0)];
    assert_eq!(before[0].light.kind, 1);
    assert_eq!(before[0].light.intensity, number(10.0));
    let mut after = before.clone();
    after[0].light.intensity = number(42.0);
    let writes = UISystem::default().run(&before, &after);
    assert_eq!(writes.len(), 1);
    let stored = match writes[0] {
        LightWrite::Light { entity: e, light } => {
            assert_eq!(e, entity(4));
            light
        }
        _ => panic!("a light is written"),
    };
    assert_eq!(stored, StoredLight::Disk { intensity: number(42.0), unit: IntensityUnit::Power, two_sided: true });
    let next = UISystem::shown(&stored);
    assert_eq!(next.kind, 1);
    assert_eq!(f32::from_bits(next.intensity.bits), 42.0);
    assert_eq!(next.unit_type, 0);
}

#[test]
fn untouched_panel_writes_nothing() {
    let before = vec![disk(1, 10.0), disk(2, 20.0)];
    let after = before.clone();
    assert!(UISystem::default().run(&before, &after).is_empty());
}

#[test]
fn every_changed_field_is_written_in_order() {
    let before = vec![disk(1, 10.0), disk(2, 20.0)];
    let mut after = before.clone();
    after[0].translation[1] = number(-7.5);
    after[0].scale[0] = number(4.0);
    after[1].rotation = [number(0.5), number(0.5), number(0.5), number(0.5)];
    after[1].light.kind = 2;
    let writes = UISystem::default().run(&before, &after);
    assert_eq!(
        writes,
        vec![
            LightWrite::Translation { entity: entity(1), x: number(1.0), y: number(-7.5), z: number(3.0) },
            LightWrite::Scale { entity: entity(1), x: number(4.0), y: number(1.0), z: number(1.0) },
            LightWrite::Rotation { entity: entity(2), i: number(0.5), j: number(0.5), k: number(0.5), w: number(0.5) },
            LightWrite::Light {
                entity: entity(2),
                light: StoredLight::Sphere { intensity: number(20.0), unit: IntensityUnit::Power },
            },
        ]
    );
}

#[test]
fn all_four_fields_of_one_light() {
    let before = disk(9, 1.0);
    let mut after = before;
    after.translation = [number(0.0), number(0.0), number(0.0)];
    after.rotation[3] = number(-1.0);
    after.scale[1] = number(10.0);
    after.light.kind = 3;
    after.light.intensity = number(100.0);
    let mut writes = vec![LightWrite::Scale { entity: entity(0), x: number(0.0), y: number(0.0), z: number(0.0) }];
    UISystem::write_back(&before, &after, &mut writes);
    assert_eq!(writes.len(), 5);
    assert_eq!(
        writes[1..],
        [
            LightWrite::Translation { entity: entity(9), x: number(0.0), y: number(0.0), z: number(0.0) },
            LightWrite::Rotation { entity: entity(9), i: number(0.0), j: number(0.0), k: number(0.0), w: number(-1.0) },
            LightWrite::Scale { entity: entity(9), x: number(1.0), y: number(10.0), z: number(1.0) },
            LightWrite::Light {
                entity: entity(9),
                light: StoredLight::Rectangle {
                    intensity: number(100.0),
                    unit: IntensityUnit::Power,
                    two_sided: true,
                },
            },
        ]
    );
}

#[test]
fn unknown_kind_leaves_the_light() {
    let before = vec![disk(1, 10.0)];
    let mut after = before.clone();
    after[0].light.kind = 0;
    assert!(UISystem::default().run(&before, &after).is_empty());
    after[0].light.kind = 9;
    assert!(UISystem::default().run(&before, &after).is_empty());
}

#[test]
fn unit_change_is_written_back() {
    let before = vec![disk(1, 10.0)];
    assert_eq!(before[0].light.unit_type, 0);
    let mut after = before.clone();
    after[0].light.unit_type = 1;
    let writes = UISystem::default().run(&before, &after);
    let stored = StoredLight::Disk { intensity: number(10.0), unit: IntensityUnit::Luminance, two_sided: true };
    assert_eq!(writes, vec![LightWrite::Light { entity: entity(1), light: stored }]);
    let next = UISystem::shown(&stored);
    assert_eq!(next.kind, 1);
    assert_eq!(f32::from_bits(next.intensity.bits), 10.0);
    assert_eq!(next.unit_type, 1);
    let again = UISystem::snapshot(entity(1), before[0].translation, before[0].rotation, before[0].scale, &stored);
    assert!(UISystem::default().run(&vec![again], &vec![again]).is_empty());
}

#[test]
fn unit_change_back_to_power() {
    let stored = StoredLight::Sphere { intensity: number(7.0), unit: IntensityUnit::Luminance };
    let before = UISystem::snapshot(entity(3), [number(0.0); 3], [number(0.0); 4], [number(1.0); 2], &stored);
    assert_eq!(before.light.unit_type, 1);
    let mut after = before;
    after.light.unit_type = 0;
    after.light.intensity = number(8.0);
    let writes = UISystem::default().run(&vec![before], &vec![after]);
    assert_eq!(
        writes,
        vec![LightWrite::Light {
            entity: entity(3),
            light: StoredLight::Sphere { intensity: number(8.0), unit: IntensityUnit::Power },
        }]
    );
}

#[test]
fn unknown_unit_leaves_the_light() {
    let before = vec![disk(1, 10.0)];
    let mut after = before.clone();
    after[0].light.unit_type = 2;
    assert!(UISystem::default().run(&before, &after).is_empty());
    assert_eq!(UISystem::unit(0), Some(IntensityUnit::Power));
    assert_eq!(UISystem::unit(1), Some(IntensityUnit::Luminance));
    assert_eq!(UISystem::unit(2), None);
    assert_eq!(UISystem::unit_type(IntensityUnit::Power), 0);
    assert_eq!(UISystem::unit_type(IntensityUnit::Luminance), 1);
}

#[test]
fn shorter_panel_list_is_compared_from_the_front() {
    let before = vec![disk(1, 10.0), disk(2, 20.0)];
    let mut after = vec![before[0]];
    after[0].scale = [number(2.0), number(2.0)];
    let writes = UISystem::default().run(&before, &after);
    assert_eq!(writes, vec![LightWrite::Scale { entity: entity(1), x: number(2.0), y: number(2.0), z: number(1.0) }]);
}

#[test]
fn zeros_of_either_sign_are_equal() {
    let before = vec![disk(1, 10.0)];
    let mut after = before.clone();
    after[0].rotation[0] = number(-0.0);
    assert!(UISystem::default().run(&before, &after).is_empty());
    assert!(number(0.0).same(&number(-0.0)));
    assert!(!differ(&[number(0.0), number(5.0)], &[number(-0.0), number(5.0)]));
    assert!(differ(&[number(0.0), number(5.0)], &[number(0.0), number(5.5)]));
}

#[test]
fn nan_equals_nothing() {
    let nan = number(f32::NAN);
    assert!(!nan.same(&nan));
    assert!(!nan.same(&number(1.0)));
    assert!(!number(1.0).same(&nan));
    assert!(!Scalar::from_bits(0xffc0_0001).same(&Scalar::from_bits(0xffc0_0001)));
    assert!(number(f32::INFINITY).same(&number(f32::INFINITY)));
    assert!(!number(f32::INFINITY).same(&number(f32::NEG_INFINITY)));
    assert!(number(1.0).same(&number(1.0)));
    assert!(!number(1.0).same(&number(-1.0)));
    assert_eq!(Scalar::one(), number(1.0));
    let mut entry = disk(1, 10.0);
    entry.translation[0] = nan;
    let writes = UISystem::default().run(&vec![entry], &vec![entry]);
    assert_eq!(writes.len(), 1);
}

#[test]
fn scalar_same_agrees_with_float_equality() {
    let samples = [
        0.0f32,
        -0.0,
        1.0,
        -1.0,
        42.0,
        f32::MIN_POSITIVE,
        f32::MAX,
        f32::INFINITY,
        f32::NEG_INFINITY,
        f32::NAN,
        1.0e-40,
    ];
    for a in samples {
        for b in samples {
            assert_eq!(number(a).same(&number(b)), a == b);
        }
    }
}

#[test]
fn shown_light_by_kind() {
    let shown = |light: StoredLight| {
        let ty: LightTy = UISystem::shown(&light);
        (ty.kind, f32::from_bits(ty.intensity.bits), ty.unit_type)
    };
    let power = IntensityUnit::Power;
    let luminance = IntensityUnit::Luminance;
    assert_eq!(shown(StoredLight::Disk { intensity: number(3.0), unit: power, two_sided: true }), (1, 3.0, 0));
    assert_eq!(shown(StoredLight::Disk { intensity: number(3.0), unit: luminance, two_sided: true }), (1, 3.0, 1));
    assert_eq!(shown(StoredLight::Sphere { intensity: number(4.0), unit: power }), (2, 4.0, 0));
    assert_eq!(shown(StoredLight::Sphere { intensity: number(4.0), unit: luminance }), (2, 4.0, 1));
    assert_eq!(shown(StoredLight::Rectangle { intensity: number(5.0), unit: power, two_sided: false }), (3, 5.0, 0));
    assert_eq!(
        shown(StoredLight::Rectangle { intensity: number(5.0), unit: luminance, two_sided: false }),
        (3, 5.0, 1)
    );
    assert_eq!(shown(StoredLight::Other), (0, 0.0, 0));
}

#[test]
fn made_light_by_kind() {
    let power = IntensityUnit::Power;
    let luminance = IntensityUnit::Luminance;
    assert_eq!(UISystem::make_light(0, number(1.0), 0), None);
    assert_eq!(
        UISystem::make_light(1, number(1.0), 0),
        Some(StoredLight::Disk { intensity: number(1.0), unit: power, two_sided: true })
    );
    assert_eq!(
        UISystem::make_light(1, number(1.0), 1),
        Some(StoredLight::Disk { intensity: number(1.0), unit: luminance, two_sided: true })
    );
    assert_eq!(
        UISystem::make_light(2, number(2.0), 1),
        Some(StoredLight::Sphere { intensity: number(2.0), unit: luminance })
    );
    assert_eq!(
        UISystem::make_light(3, number(3.0), 0),
        Some(StoredLight::Rectangle { intensity: number(3.0), unit: power, two_sided: true })
    );
    assert_eq!(UISystem::make_light(4, number(1.0), 0), None);
    assert_eq!(UISystem::make_light(1, number(1.0), 2), None);
}

#[test]
fn panel_layout() {
    assert!(UISystem::lists_lights(0));
    assert!(UISystem::lists_lights(1));
    assert!(!UISystem::lists_lights(2));
    assert_eq!(UISystem::intensity_label(0), Some(IntensityLabel::Power));
    assert_eq!(UISystem::intensity_label(1), Some(IntensityLabel::Luminance));
    assert_eq!(UISystem::intensity_label(2), None);
    assert_eq!((POSITION_MIN, POSITION_MAX), (-20, 20));
    assert_eq!((ROTATION_MIN, ROTATION_MAX), (-1, 1));
    assert_eq!((SCALE_MIN, SCALE_MAX), (0, 10));
    assert_eq!((INTENSITY_MIN, INTENSITY_MAX), (0, 100));
}
