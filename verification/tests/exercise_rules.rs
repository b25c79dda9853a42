use workout_util::enums::{
    CompoundOrIsolation, DynamicOrStatic, Grip, GripWidth, LeverVariation, PushOrPull,
    SquatOrHinge, StraightOrBentArm, UpperOrLower,
};
use workout_util::exercise::{
    exercise_library_default_req, exercise_to_req, get_exercise_id, get_exercise_name,
    BentArmCompoundExercise, ExerciseLibraryEntity, ExerciseLibraryReq, InvalidExercise,
    LowerBodyCompoundExercise, LowerBodyIsolationExercise, StraightArmCompoundExercise,
    UpperBodyIsolationExercise, ValidExercise,
};

fn bench_press() -> ExerciseLibraryEntity {
    ExerciseLibraryEntity {
        id: 1,
        name: "Bench Press".to_string(),
        push_or_pull: Some(PushOrPull::Push),
        dynamic_or_static: DynamicOrStatic::Dynamic,
        straight_or_bent: Some(StraightOrBentArm::Bent),
        squat_or_hinge: None,
        upper_or_lower: UpperOrLower::Upper,
        compound_or_isolation: CompoundOrIsolation::Compound,
        lever_variation: None,
        grip: Some(Grip::Pronated),
        grip_width: Some(GripWidth::Shoulder),
        description: Some("flat bench".to_string()),
    }
}

fn leg_extension() -> ExerciseLibraryEntity {
    ExerciseLibraryEntity {
        id: 4,
        name: "Leg Extension".to_string(),
        push_or_pull: None,
        dynamic_or_static: DynamicOrStatic::Dynamic,
        straight_or_bent: None,
        squat_or_hinge: None,
        upper_or_lower: UpperOrLower::Lower,
        compound_or_isolation: CompoundOrIsolation::Isolation,
        lever_variation: None,
        grip: None,
        grip_width: None,
        description: None,
    }
}

fn examples() -> Vec<ValidExercise> {
    vec![
        ValidExercise::StraightArmCompound(StraightArmCompoundExercise {
            id: 7,
            name: "Planche".to_string(),
            push_or_pull: PushOrPull::Push,
            dynamic_or_static: DynamicOrStatic::Static,
            lever_variation: LeverVariation::Full,
            grip: Grip::Floor,
            grip_width: GripWidth::Shoulder,
        }),
        ValidExercise::BentArmCompound(BentArmCompoundExercise {
            id: 1,
            name: "Bench Press".to_string(),
            push_or_pull: PushOrPull::Push,
            dynamic_or_static: DynamicOrStatic::Dynamic,
            lever_variation: None,
            grip: Grip::Pronated,
            grip_width: GripWidth::Shoulder,
        }),
        ValidExercise::BentArmCompound(BentArmCompoundExercise {
            id: 8,
            name: "Tuck Pull-up".to_string(),
            push_or_pull: PushOrPull::Pull,
            dynamic_or_static: DynamicOrStatic::Dynamic,
            lever_variation: Some(LeverVariation::Tuck),
            grip: Grip::Supinated,
            grip_width: GripWidth::Narrow,
        }),
        ValidExercise::UpperBodyIsolation(UpperBodyIsolationExercise {
            id: 2,
            name: "Bicep Curl".to_string(),
            dynamic_or_static: DynamicOrStatic::Dynamic,
            straight_or_bent: StraightOrBentArm::Bent,
        }),
        ValidExercise::LowerBodyCompound(LowerBodyCompoundExercise {
            id: 3,
            name: "Squat".to_string(),
            dynamic_or_static: DynamicOrStatic::Dynamic,
            squat_or_hinge: SquatOrHinge::Squat,
        }),
        ValidExercise::LowerBodyIsolation(LowerBodyIsolationExercise {
            id: 4,
            name: "Leg Extension".to_string(),
            dynamic_or_static: DynamicOrStatic::Static,
        }),
    ]
}

#[test]
fn classification_gives_the_kind_with_its_attributes() {
    assert_eq!(
        bench_press().to_valid_struct(),
        Ok(ValidExercise::BentArmCompound(BentArmCompoundExercise {
            id: 1,
            name: "Bench Press".to_string(),
            push_or_pull: PushOrPull::Push,
            dynamic_or_static: DynamicOrStatic::Dynamic,
            lever_variation: None,
            grip: Grip::Pronated,
            grip_width: GripWidth::Shoulder,
        }))
    );
    assert_eq!(
        leg_extension().to_valid_struct(),
        Ok(ValidExercise::LowerBodyIsolation(LowerBodyIsolationExercise {
            id: 4,
            name: "Leg Extension".to_string(),
            dynamic_or_static: DynamicOrStatic::Dynamic,
        }))
    );
    let mut planche = bench_press();
    planche.id = 9;
    planche.straight_or_bent = Some(StraightOrBentArm::Straight);
    planche.lever_variation = Some(LeverVariation::Straddle);
    assert_eq!(
        planche.to_valid_struct(),
        Ok(ValidExercise::StraightArmCompound(StraightArmCompoundExercise {
            id: 9,
            name: "Bench Press".to_string(),
            push_or_pull: PushOrPull::Push,
            dynamic_or_static: DynamicOrStatic::Dynamic,
            lever_variation: LeverVariation::Straddle,
            grip: Grip::Pronated,
            grip_width: GripWidth::Shoulder,
        }))
    );
}

#[test]
fn contradictions_are_rejected_first() {
    let mut nameless = bench_press();
    nameless.name = String::new();
    nameless.push_or_pull = None;
    assert_eq!(nameless.to_valid_struct().err().unwrap(), "Exercise name cannot be empty");
    assert_eq!(nameless.validate_invariants().err().unwrap(), "Exercise name cannot be empty");

    let mut lower_push = leg_extension();
    lower_push.push_or_pull = Some(PushOrPull::Push);
    assert_eq!(
        lower_push.to_valid_struct().err().unwrap(),
        "Lower body exercises cannot have push/pull designation"
    );

    let mut upper_squat = bench_press();
    upper_squat.squat_or_hinge = Some(SquatOrHinge::Squat);
    upper_squat.grip = None;
    assert_eq!(
        upper_squat.to_valid_struct().err().unwrap(),
        "Upper body exercises cannot have squat/hinge designation"
    );

    for change in 0..4 {
        let mut isolation = bench_press();
        isolation.compound_or_isolation = CompoundOrIsolation::Isolation;
        isolation.push_or_pull = None;
        isolation.grip = None;
        isolation.grip_width = None;
        assert!(isolation.to_valid_struct().is_ok());
        match change {
            0 => isolation.push_or_pull = Some(PushOrPull::Pull),
            1 => isolation.lever_variation = Some(LeverVariation::Tuck),
            2 => isolation.grip = Some(Grip::Mixed),
            _ => isolation.grip_width = Some(GripWidth::Wide),
        }
        assert_eq!(
            isolation.to_valid_struct().err().unwrap(),
            "Isolation exercises cannot have compound-specific attributes"
        );
    }
    assert_eq!(bench_press().validate_invariants(), Ok(()));
}

#[test]
fn every_fault_has_its_sentence() {
    let sentences = [
        (InvalidExercise::EmptyName, "Exercise name cannot be empty"),
        (
            InvalidExercise::LowerWithPushPull,
            "Lower body exercises cannot have push/pull designation",
        ),
        (
            InvalidExercise::UpperWithSquatHinge,
            "Upper body exercises cannot have squat/hinge designation",
        ),
        (
            InvalidExercise::IsolationWithCompoundAttributes,
            "Isolation exercises cannot have compound-specific attributes",
        ),
        (
            InvalidExercise::MissingPushPull,
            "Upper body compound exercises require a push/pull designation",
        ),
        (
            InvalidExercise::MissingStraightBent,
            "Upper body compound exercises require a straight/bent arm designation",
        ),
        (InvalidExercise::MissingGrip, "Upper body compound exercises require a grip designation"),
        (
            InvalidExercise::MissingGripWidth,
            "Upper body compound exercises require a grip width designation",
        ),
        (
            InvalidExercise::MissingLeverVariation,
            "Straight-arm compound exercises require a lever variation",
        ),
        (
            InvalidExercise::IsolationMissingStraightBent,
            "Upper body isolation exercises require a straight/bent arm designation",
        ),
        (
            InvalidExercise::MissingSquatHinge,
            "Lower body compound exercises require a squat/hinge designation",
        ),
    ];
    for (fault, sentence) in sentences {
        assert_eq!(fault.message(), sentence);
    }
}

#[test]
fn request_becomes_a_row_without_identifier() {
    let req = ExerciseLibraryReq {
        name: "Planche".to_string(),
        push_or_pull: Some(PushOrPull::Push),
        dynamic_or_static: DynamicOrStatic::Static,
        straight_or_bent: Some(StraightOrBentArm::Straight),
        squat_or_hinge: None,
        upper_or_lower: UpperOrLower::Upper,
        compound_or_isolation: CompoundOrIsolation::Compound,
        lever_variation: Some(LeverVariation::Full),
        grip: Some(Grip::Pronated),
        grip_width: Some(GripWidth::Shoulder),
        description: Some("hard".to_string()),
    };
    let entity = ExerciseLibraryEntity::from_req(req.clone()).unwrap();
    assert_eq!(entity.id, 0);
    assert_eq!(entity.name, "Planche");
    assert_eq!(entity.lever_variation, Some(LeverVariation::Full));
    assert_eq!(entity.description, Some("hard".to_string()));

    let mut incomplete = req;
    incomplete.lever_variation = None;
    assert_eq!(
        ExerciseLibraryEntity::from_req(incomplete).err().unwrap(),
        "Straight-arm compound exercises require a lever variation"
    );
    assert_eq!(
        ExerciseLibraryEntity::from_req(exercise_library_default_req()).err().unwrap(),
        "Exercise name cannot be empty"
    );
}

#[test]
fn default_request_is_an_empty_form() {
    let req = exercise_library_default_req();
    assert_eq!(
        req,
        ExerciseLibraryReq {
            name: String::new(),
            push_or_pull: None,
            dynamic_or_static: DynamicOrStatic::Dynamic,
            straight_or_bent: None,
            squat_or_hinge: None,
            upper_or_lower: UpperOrLower::Upper,
            compound_or_isolation: CompoundOrIsolation::Compound,
            lever_variation: None,
            grip: None,
            grip_width: None,
            description: None,
        }
    );
}

#[test]
fn row_of_an_exercise_classifies_as_that_exercise() {
    for exercise in examples() {
        let row = exercise.to_entity();
        assert_eq!(row.id, get_exercise_id(&exercise));
        assert_eq!(&row.name, get_exercise_name(&exercise));
        assert_eq!(row.description, None);
        assert_eq!(row.to_valid_struct(), Ok(exercise));
    }
}

#[test]
fn form_of_an_exercise_asks_for_it_again() {
    for exercise in examples() {
        let req = exercise_to_req(&exercise);
        assert_eq!(req.description, None);
        let mut row = ExerciseLibraryEntity::from_req(req).unwrap();
        assert_eq!(row.id, 0);
        row.id = get_exercise_id(&exercise);
        assert_eq!(row.to_valid_struct(), Ok(exercise));
    }
    let planche = exercise_to_req(&examples()[0]);
    assert_eq!(planche.straight_or_bent, Some(StraightOrBentArm::Straight));
    assert_eq!(planche.lever_variation, Some(LeverVariation::Full));
    assert_eq!(planche.upper_or_lower, UpperOrLower::Upper);
    assert_eq!(planche.compound_or_isolation, CompoundOrIsolation::Compound);
    let squat = exercise_to_req(&examples()[4]);
    assert_eq!(squat.squat_or_hinge, Some(SquatOrHinge::Squat));
    assert_eq!(squat.push_or_pull, None);
    assert_eq!(squat.upper_or_lower, UpperOrLower::Lower);
}
