use workout_util::entry::{
    ExerciseLibraryEntryEntity, ExerciseLibraryEntryReq, UpperBodyCompoundExercise, ValidExercise,
};
use workout_util::enums::{
    CompoundOrIsolation, DynamicOrStatic, PushOrPull, SquatOrHinge, StraightOrBentArm,
    UpperOrLower,
};
use workout_util::exercise::{
    LowerBodyCompoundExercise, LowerBodyIsolationExercise, UpperBodyIsolationExercise,
};

fn push_up() -> ExerciseLibraryEntryEntity {
    ExerciseLibraryEntryEntity {
        id: 5,
        name: "Push-up".to_string(),
        push_or_pull: Some(PushOrPull::Push),
        dynamic_or_static: DynamicOrStatic::Dynamic,
        straight_or_bent: Some(StraightOrBentArm::Bent),
        squat_or_hinge: None,
        upper_or_lower: UpperOrLower::Upper,
        compound_or_isolation: CompoundOrIsolation::Compound,
    }
}

#[test]
fn entries_of_each_kind() {
    assert_eq!(
        push_up().to_valid_struct(),
        Ok(ValidExercise::UpperBodyCompound(UpperBodyCompoundExercise {
            id: 5,
            name: "Push-up".to_string(),
            push_or_pull: PushOrPull::Push,
            dynamic_or_static: DynamicOrStatic::Dynamic,
            straight_or_bent: StraightOrBentArm::Bent,
        }))
    );

    let mut curl = push_up();
    curl.compound_or_isolation = CompoundOrIsolation::Isolation;
    assert_eq!(
        curl.to_valid_struct(),
        Ok(ValidExercise::UpperBodyIsolation(UpperBodyIsolationExercise {
            id: 5,
            name: "Push-up".to_string(),
            dynamic_or_static: DynamicOrStatic::Dynamic,
            straight_or_bent: StraightOrBentArm::Bent,
        }))
    );

    let mut squat = push_up();
    squat.upper_or_lower = UpperOrLower::Lower;
    squat.squat_or_hinge = Some(SquatOrHinge::Hinge);
    squat.dynamic_or_static = DynamicOrStatic::Static;
    assert_eq!(
        squat.to_valid_struct(),
        Ok(ValidExercise::LowerBodyCompound(LowerBodyCompoundExercise {
            id: 5,
            name: "Push-up".to_string(),
            dynamic_or_static: DynamicOrStatic::Static,
            squat_or_hinge: SquatOrHinge::Hinge,
        }))
    );

    let mut extension = squat.clone();
    extension.compound_or_isolation = CompoundOrIsolation::Isolation;
    extension.squat_or_hinge = None;
    extension.name = String::new();
    assert_eq!(
        extension.to_valid_struct(),
        Ok(ValidExercise::LowerBodyIsolation(LowerBodyIsolationExercise {
            id: 5,
            name: String::new(),
            dynamic_or_static: DynamicOrStatic::Static,
        }))
    );
}

#[test]
fn entries_that_lack_what_their_kind_calls_for() {
    let mut entry = push_up();
    entry.push_or_pull = None;
    entry.straight_or_bent = None;
    assert_eq!(
        entry.to_valid_struct().err().unwrap(),
        "Upper body compound exercises require a push/pull designation"
    );
    entry.push_or_pull = Some(PushOrPull::Pull);
    assert_eq!(
        entry.to_valid_struct().err().unwrap(),
        "Upper body compound exercises require a straight/bent arm designation"
    );
    entry.compound_or_isolation = CompoundOrIsolation::Isolation;
    assert_eq!(
        entry.to_valid_struct().err().unwrap(),
        "Upper body isolation exercises require a straight/bent arm designation"
    );
    entry.upper_or_lower = UpperOrLower::Lower;
    assert!(entry.to_valid_struct().is_ok());
    entry.compound_or_isolation = CompoundOrIsolation::Compound;
    assert_eq!(
        entry.to_valid_struct().err().unwrap(),
        "Lower body compound exercises require a squat/hinge designation"
    );
}

#[test]
fn request_becomes_an_entry_without_identifier() {
    let req = ExerciseLibraryEntryReq {
        name: "Deadlift".to_string(),
        push_or_pull: Some(PushOrPull::Pull),
        dynamic_or_static: DynamicOrStatic::Dynamic,
        straight_or_bent: None,
        squat_or_hinge: Some(SquatOrHinge::Hinge),
        upper_or_lower: UpperOrLower::Lower,
        compound_or_isolation: CompoundOrIsolation::Compound,
    };
    assert_eq!(
        ExerciseLibraryEntryEntity::from_req(req.clone()),
        Ok(ExerciseLibraryEntryEntity {
            id: 0,
            name: "Deadlift".to_string(),
            push_or_pull: Some(PushOrPull::Pull),
            dynamic_or_static: DynamicOrStatic::Dynamic,
            straight_or_bent: None,
            squat_or_hinge: Some(SquatOrHinge::Hinge),
            upper_or_lower: UpperOrLower::Lower,
            compound_or_isolation: CompoundOrIsolation::Compound,
        })
    );
    let mut upper = req;
    upper.upper_or_lower = UpperOrLower::Upper;
    assert_eq!(
        ExerciseLibraryEntryEntity::from_req(upper).err().unwrap(),
        "Upper body compound exercises require a straight/bent arm designation"
    );
}
