use workout_util::enums::{
    CompoundOrIsolation, DynamicOrStatic, Grip, GripWidth, LeverVariation, PushOrPull,
    SquatOrHinge, StraightOrBentArm, UpperOrLower,
};
use workout_util::exercise::ExerciseLibraryEntity;

#[test]
fn exercise_test_to_valid_struct_upper_body_dynamic_compound() {
    let entity = ExerciseLibraryEntity {
        id: 1,
        name: "Bench Press".to_string(),
        push_or_pull: Some(PushOrPull::Push),
        dynamic_or_static: DynamicOrStatic::Dynamic,
        straight_or_bent: Some(StraightOrBentArm::Bent),
        squat_or_hinge: None,
        upper_or_lower: UpperOrLower::Upper,
        compound_or_isolation: CompoundOrIsolation::Compound,
        lever_variation: None,
        grip: Some(Grip::Pronated),
        grip_width: Some(GripWidth::Shoulder),
        description: None,
    };

    // 1. Success case
    assert!(entity.to_valid_struct().is_ok());

    // 2. Missing Push/Pull
    let mut invalid = entity.clone();
    invalid.push_or_pull = None;
    assert_eq!(
        invalid.to_valid_struct().err().unwrap(),
        "Upper body compound exercises require a push/pull designation"
    );

    // 3. Missing Straight/Bent
    let mut invalid = entity.clone();
    invalid.straight_or_bent = None;
    assert_eq!(
        invalid.to_valid_struct().err().unwrap(),
        "Upper body compound exercises require a straight/bent arm designation"
    );

    // 4. Missing Grip
    let mut invalid = entity.clone();
    invalid.grip = None;
    assert_eq!(
        invalid.to_valid_struct().err().unwrap(),
        "Upper body compound exercises require a grip designation"
    );

    // 5. Missing Grip Width
    let mut invalid = entity.clone();
    invalid.grip_width = None;
    assert_eq!(
        invalid.to_valid_struct().err().unwrap(),
        "Upper body compound exercises require a grip width designation"
    );
}

#[test]
fn exercise_test_to_valid_struct_upper_body_static_compound() {
    let entity = ExerciseLibraryEntity {
        id: 1,
        name: "Planche".to_string(),
        push_or_pull: Some(PushOrPull::Push),
        dynamic_or_static: DynamicOrStatic::Static,
        straight_or_bent: Some(StraightOrBentArm::Straight),
        squat_or_hinge: None,
        upper_or_lower: UpperOrLower::Upper,
        compound_or_isolation: CompoundOrIsolation::Compound,
        lever_variation: Some(LeverVariation::Full),
        grip: Some(Grip::Pronated),
        grip_width: Some(GripWidth::Shoulder),
        description: None,
    };

    // 1. Success case
    assert!(entity.to_valid_struct().is_ok());

    // 2. Missing Lever Variation
    let mut invalid = entity.clone();
    invalid.lever_variation = None;
    assert_eq!(
        invalid.to_valid_struct().err().unwrap(),
        "Straight-arm compound exercises require a lever variation"
    );
}

#[test]
fn exercise_test_to_valid_struct_upper_body_isolation() {
    let entity = ExerciseLibraryEntity {
        id: 2,
        name: "Bicep Curl".to_string(),
        push_or_pull: None,
        dynamic_or_static: DynamicOrStatic::Dynamic,
        straight_or_bent: Some(StraightOrBentArm::Bent),
        squat_or_hinge: None,
        upper_or_lower: UpperOrLower::Upper,
        compound_or_isolation: CompoundOrIsolation::Isolation,
        lever_variation: None,
        grip: None,
        grip_width: None,
        description: None,
    };

    // 1. Success case
    assert!(entity.to_valid_struct().is_ok());

    // 2. Missing Straight/Bent
    let mut invalid = entity.clone();
    invalid.straight_or_bent = None;
    assert_eq!(
        invalid.to_valid_struct().err().unwrap(),
        "Upper body isolation exercises require a straight/bent arm designation"
    );
}

#[test]
fn exercise_test_to_valid_struct_lower_body_compound() {
    let entity = ExerciseLibraryEntity {
        id: 3,
        name: "Squat".to_string(),
        push_or_pull: None,
        dynamic_or_static: DynamicOrStatic::Dynamic,
        straight_or_bent: None,
        squat_or_hinge: Some(SquatOrHinge::Squat),
        upper_or_lower: UpperOrLower::Lower,
        compound_or_isolation: CompoundOrIsolation::Compound,
        lever_variation: None,
        grip: None,
        grip_width: None,
        description: None,
    };

    // 1. Success case
    assert!(entity.to_valid_struct().is_ok());

    // 2. Missing Squat/Hinge
    let mut invalid = entity.clone();
    invalid.squat_or_hinge = None;
    assert_eq!(
        invalid.to_valid_struct().err().unwrap(),
        "Lower body compound exercises require a squat/hinge designation"
    );
}

#[test]
fn exercise_test_to_valid_struct_lower_body_isolation() {
    let entity = ExerciseLibraryEntity {
        id: 4,
        name: "Leg Extension".to_string(),
        push_or_pull: None,
        dynamic_or_static: DynamicOrStatic::Dynamic,
        straight_or_bent: None,
        squat_or_hinge: None,
        upper_or_lower: UpperOrLower::Lower,
        compound_or_isolation: CompoundOrIsolation::Isolation,
        lever_variation: None,
        grip: None,
        grip_width: None,
        description: None,
    };

    // 1. Success case
    assert!(entity.to_valid_struct().is_ok());
}
