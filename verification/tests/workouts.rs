use chrono::NaiveDate;
use workout_util::enums::{Band, Equipment};
use workout_util::pagination::{PaginationDirection, PaginationParams};
use workout_util::session::{ActiveExercise, ActiveSession, ActiveSet};
use workout_util::workout::{
    assign_workout, copy_exercise_req, default_exercise_req, default_workout_req,
    exercise_res_to_req, workout_to_req, RestMinuteAndSeconds, WorkoutEntity,
    WorkoutExerciseEntity, WorkoutExerciseReq, WorkoutExerciseRes, WorkoutRepo, WorkoutReq,
    WorkoutRes, WorkoutsFilterReq,
};
use workout_util::workout_log::{
    assign_log_group, WorkoutLogEntity, WorkoutLogGroupEntity, WorkoutLogGroupFilterReq,
    WorkoutLogGroupReq, WorkoutLogGroupRes, WorkoutLogReq, WorkoutLogRes,
};

fn exercise_res(id: u32, name: &str, sets: u8, weight: u16) -> WorkoutExerciseRes {
    WorkoutExerciseRes {
        id,
        workout_id: 3,
        name: name.to_string(),
        code: format!("A{}", id),
        sets_target: sets,
        reps_or_seconds_target: 8,
        working_weight: weight,
        rest_period_seconds: 90,
        tempo: "2010".to_string(),
        emom: true,
        equipments: vec![Equipment::Barbell, Equipment::Bench],
        bands: vec![Band::Black],
        description: Some("Standard set".to_string()),
    }
}

#[test]
fn target_and_rest_in_words() {
    let res = exercise_res(1, "Bench", 4, 100);
    assert_eq!(res.target(), "4x8 @ 100");
    assert_eq!(res.rest_minutes_and_seconds(), "1m 30s rest");
    let mut heavy = exercise_res(2, "Squat", 255, 65535);
    heavy.reps_or_seconds_target = 0;
    heavy.rest_period_seconds = 255;
    assert_eq!(heavy.target(), "255x0 @ 65535");
    assert_eq!(heavy.rest_minutes_and_seconds(), "4m 15s rest");
}

#[test]
fn defaults_of_the_forms() {
    assert_eq!(
        default_workout_req(),
        WorkoutReq { name: String::new(), description: None, active: true }
    );
    assert_eq!(
        default_exercise_req(12),
        WorkoutExerciseReq {
            workout_id: 12,
            name: String::new(),
            code: String::new(),
            sets_target: 3,
            reps_or_seconds_target: 10,
            working_weight: 0,
            rest_period_seconds: 60,
            tempo: "0000".to_string(),
            emom: false,
            equipments: vec![],
            bands: vec![],
            description: None,
        }
    );
    let filter = WorkoutsFilterReq::default();
    assert!(filter.name.is_none() && filter.description.is_none() && filter.active.is_none());
    assert!(filter.to_predicate().conditions.is_empty());
    let filter = WorkoutLogGroupFilterReq::default();
    assert!(filter.workout_date_gte.is_none() && filter.workout_date_lte.is_none());
    assert!(filter.notes.is_none());
    assert!(filter.to_predicate().conditions.is_empty());
}

#[test]
fn forms_are_filled_from_what_is_shown() {
    let workout = WorkoutRes {
        id: 5,
        name: "Push day".to_string(),
        description: Some("heavy".to_string()),
        active: false,
    };
    assert_eq!(
        workout_to_req(&workout),
        WorkoutReq { name: "Push day".to_string(), description: Some("heavy".to_string()), active: false }
    );
    let res = exercise_res(9, "Dips", 3, 20);
    let req = exercise_res_to_req(&res);
    assert_eq!(
        req,
        WorkoutExerciseReq {
            workout_id: 3,
            name: "Dips".to_string(),
            code: "A9".to_string(),
            sets_target: 3,
            reps_or_seconds_target: 8,
            working_weight: 20,
            rest_period_seconds: 90,
            tempo: "2010".to_string(),
            emom: false,
            equipments: vec![Equipment::Barbell, Equipment::Bench],
            bands: vec![Band::Black],
            description: Some("Standard set".to_string()),
        }
    );
    assert_eq!(copy_exercise_req(&req), req);
}

#[test]
fn what_is_shown_of_stored_rows() {
    let entity = WorkoutEntity {
        id: 2,
        created_at: 1_700_000_000,
        name: "Pull day".to_string(),
        description: None,
        active: true,
    };
    assert_eq!(
        WorkoutRes::from_entity(entity),
        WorkoutRes { id: 2, name: "Pull day".to_string(), description: None, active: true }
    );
    let entity = WorkoutExerciseEntity {
        id: 9,
        created_at: 1_700_000_000,
        workout_id: 3,
        name: "Dips".to_string(),
        code: "A9".to_string(),
        sets_target: 3,
        reps_or_seconds_target: 8,
        working_weight: 20,
        rest_period_seconds: 90,
        tempo: "2010".to_string(),
        emom: true,
        equipments: vec![Equipment::Barbell, Equipment::Bench],
        bands: vec![Band::Black],
        description: Some("Standard set".to_string()),
    };
    assert_eq!(WorkoutExerciseRes::from_entity(entity), exercise_res(9, "Dips", 3, 20));
    let date = NaiveDate::from_ymd_opt(2024, 5, 6).unwrap();
    let group = WorkoutLogGroupEntity {
        id: 4,
        created_at: 1_700_000_000,
        date,
        notes: Some("tired".to_string()),
    };
    assert_eq!(
        WorkoutLogGroupRes::from_entity(group),
        WorkoutLogGroupRes { id: 4, date, notes: Some("tired".to_string()) }
    );
    assert_eq!(
        WorkoutLogGroupReq::new(date, None),
        WorkoutLogGroupReq { date, notes: None }
    );
    let entry = WorkoutLogEntity {
        id: 8,
        workout_id: 1,
        workout_exercise_id: 2,
        workout_log_group_id: 3,
        exercise_name: "Dips".to_string(),
        set_number: 4,
        rep_number_or_seconds: 5,
        weight: 600,
        description: Some("easy".to_string()),
    };
    assert_eq!(
        WorkoutLogRes::from_entity(entry),
        WorkoutLogRes {
            id: 8,
            workout_id: 1,
            workout_exercise_id: 2,
            workout_log_group_id: 3,
            set_number: 4,
            rep_number_or_seconds: 5,
            weight: 600,
            description: Some("easy".to_string()),
        }
    );
}

#[test]
fn page_of_workouts_from_stored_rows() {
    let rows: Vec<WorkoutEntity> = [9u32, 8, 7]
        .iter()
        .map(|id| WorkoutEntity {
            id: *id,
            created_at: 0,
            name: format!("W{}", id),
            description: None,
            active: true,
        })
        .collect();
    let request = PaginationParams {
        limit: 2,
        cursor: Some(10),
        direction: PaginationDirection::Backward,
    };
    let page = WorkoutRepo::new().page(&request, rows);
    let names: Vec<&str> = page.items.iter().map(|w| w.name.as_str()).collect();
    assert_eq!(names, vec!["W8", "W9"]);
    assert_eq!(page.next_cursor, Some(9));
    assert_eq!(page.prev_cursor, Some(8));
}

#[test]
fn exercises_and_entries_are_put_where_they_belong() {
    let mut exercises = vec![default_exercise_req(0), exercise_res_to_req(&exercise_res(1, "a", 1, 1))];
    assign_workout(&mut exercises, 77);
    assert_eq!(exercises.len(), 2);
    assert_eq!(exercises[0], default_exercise_req(77));
    assert_eq!(exercises[1].workout_id, 77);
    assert_eq!(exercises[1].name, "a");

    let set = ActiveSet::new(1, 10);
    let mut logs = vec![
        set.to_workout_log_req(1, 2, "first".to_string()),
        set.to_workout_log_req(1, 3, "second".to_string()),
        set.to_workout_log_req(1, 4, "third".to_string()),
    ];
    assign_log_group(&mut logs, 15);
    let names: Vec<&str> = logs.iter().map(|l| l.exercise_name.as_str()).collect();
    assert_eq!(names, vec!["first", "second", "third"]);
    assert!(logs.iter().all(|l| l.workout_log_group_id == 15 && l.workout_id == 1));
    let mut none: Vec<WorkoutLogReq> = vec![];
    assign_log_group(&mut none, 15);
    assert!(none.is_empty());
}

#[test]
fn session_plans_the_sets_of_each_exercise() {
    let workout = WorkoutRes { id: 3, name: "Push day".to_string(), description: None, active: true };
    let session = ActiveSession::start(
        &workout,
        vec![exercise_res(1, "Bench", 3, 100), exercise_res(2, "Dips", 0, 0), exercise_res(3, "Fly", 1, 12)],
    );
    assert_eq!(session.name, "Push day");
    assert_eq!(session.description, Some("Workout name: Push day".to_string()));
    assert_eq!(session.exercises.len(), 3);
    let bench = &session.exercises[0];
    assert_eq!(bench.workout_exercise_id, 1);
    assert_eq!(bench.exercise_name, "Bench");
    assert_eq!(bench.reps_or_seconds_target, 8);
    assert_eq!(bench.working_weight, 100);
    assert_eq!(bench.rest_period_seconds, 90);
    assert_eq!(bench.tempo, "2010");
    assert!(bench.emom);
    assert_eq!(bench.rest_minutes_and_seconds(), "1m 30s rest");
    let numbers: Vec<u8> = bench.sets.iter().map(|s| s.set_number).collect();
    assert_eq!(numbers, vec![1, 2, 3]);
    assert!(bench.sets.iter().all(|s| s.weight == 100 && s.reps_or_seconds == 0));
    assert!(bench.sets.iter().all(|s| s.description.is_empty() && !s.completed));
    assert!(session.exercises[1].sets.is_empty());
    assert_eq!(session.exercises[2].sets.len(), 1);
    assert_eq!(ActiveExercise::plan_sets(255, 1).len(), 255);
    assert!(!session.valid_to_save());
    assert!(session.completed_entries(3).is_empty());
}

#[test]
fn session_logs_the_sets_that_are_done() {
    let workout = WorkoutRes { id: 3, name: "Push day".to_string(), description: None, active: true };
    let mut session = ActiveSession::start(
        &workout,
        vec![exercise_res(1, "Bench", 3, 100), exercise_res(2, "Dips", 2, 0), exercise_res(3, "Fly", 1, 12)],
    );
    session.exercises[0].sets[0].completed = true;
    session.exercises[0].sets[0].reps_or_seconds = 8;
    session.exercises[0].sets[2].completed = true;
    session.exercises[0].sets[2].reps_or_seconds = 6;
    session.exercises[0].sets[2].weight = 95;
    session.exercises[0].sets[2].description = "RPE 9".to_string();
    session.exercises[2].sets[0].completed = true;
    assert!(session.valid_to_save());
    assert!(session.exercises[0].has_completed_set());
    assert!(!session.exercises[1].has_completed_set());

    let entries = session.completed_entries(3);
    assert_eq!(
        entries,
        vec![
            WorkoutLogReq {
                workout_id: 3,
                workout_exercise_id: 1,
                workout_log_group_id: 0,
                exercise_name: "Bench".to_string(),
                set_number: 1,
                rep_number_or_seconds: 8,
                weight: 100,
                description: None,
            },
            WorkoutLogReq {
                workout_id: 3,
                workout_exercise_id: 1,
                workout_log_group_id: 0,
                exercise_name: "Bench".to_string(),
                set_number: 3,
                rep_number_or_seconds: 6,
                weight: 95,
                description: Some("RPE 9".to_string()),
            },
            WorkoutLogReq {
                workout_id: 3,
                workout_exercise_id: 3,
                workout_log_group_id: 0,
                exercise_name: "Fly".to_string(),
                set_number: 1,
                rep_number_or_seconds: 0,
                weight: 12,
                description: None,
            },
        ]
    );
    session.set_description(String::new());
    assert_eq!(session.description, None);
    session.set_description("felt strong".to_string());
    assert_eq!(session.description, Some("felt strong".to_string()));
}
