use std::time::{Duration, Instant};
use workout_util::enums::{
    CompoundOrIsolation, DynamicOrStatic, Grip, GripWidth, PushOrPull, StraightOrBentArm,
    UpperOrLower,
};
use workout_util::exercise::{
    BentArmCompoundExercise, ExerciseLibraryReq, ExerciseLibraryRes, ValidExercise,
};
use workout_util::pagination::{PaginationDirection, PaginationParams, PaginationRes};
use workout_util::ui::{
    CommonUiState, ExerciseSave, ExercisesPageModel, ExercisesPageMsg, ExercisesPageState,
    MainPageState, PageAction, StartWorkoutPageModel, StartWorkoutsPageMsg, WorkoutLogsPageModel,
    WorkoutLogsPageMsg, WorkoutLogsPageState, WorkoutSave, WorkoutsPageModel, WorkoutsPageMsg,
    WorkoutsPageState,
};
use workout_util::workout::{default_exercise_req, WorkoutExerciseRes, WorkoutRes};
use workout_util::workout_log::{WorkoutLogGroupPageRes, WorkoutLogGroupRes};

fn text(message: &Option<(String, Instant)>) -> Option<&str> {
    message.as_ref().map(|m| m.0.as_str())
}

#[test]
fn common_state_switches() {
    let mut state = CommonUiState::default();
    assert!(!state.loading && !state.initialized);
    assert!(state.error_message.is_none() && state.success_message.is_none());
    state.set_as_loading();
    assert!(state.loading);
    state.set_as_not_loading();
    assert!(!state.loading);
    state.initialize();
    assert!(state.initialized);
    state.not_initialized();
    assert!(!state.initialized);
    state.show_error("broken");
    state.show_success("done");
    assert_eq!(text(&state.error_message), Some("broken"));
    assert_eq!(text(&state.success_message), Some("done"));
    state.clear_error();
    assert!(state.error_message.is_none());
    assert_eq!(text(&state.success_message), Some("done"));
    state.clear_success();
    assert!(state.success_message.is_none());
}

#[test]
fn messages_expire() {
    let mut state = CommonUiState::default();
    state.show_error("broken");
    state.show_success("done");
    state.expire();
    assert_eq!(text(&state.error_message), Some("broken"));
    assert_eq!(text(&state.success_message), Some("done"));

    let ago = |secs: u64| Instant::now() - Duration::from_secs(secs);
    state.success_message = Some(("done".to_string(), ago(4)));
    state.error_message = Some(("broken".to_string(), ago(4)));
    state.expire();
    assert_eq!(text(&state.error_message), Some("broken"));
    assert!(state.success_message.is_none());

    state.error_message = Some(("broken".to_string(), ago(6)));
    state.expire();
    assert!(state.error_message.is_none());

    state.show_error("a");
    state.show_success("b");
    state.retire(false, true);
    assert_eq!(text(&state.error_message), Some("a"));
    assert!(state.success_message.is_none());
    state.retire(true, false);
    assert!(state.error_message.is_none());
}

#[test]
fn messages_expire_after_their_times() {
    let mut state = CommonUiState::default();
    state.show_error("broken");
    state.show_success("done");
    state.expire_after(5_000_000_000, 3_000_000_000);
    assert_eq!(text(&state.error_message), Some("broken"));
    assert_eq!(text(&state.success_message), Some("done"));
    state.expire_after(5_000_000_000, 3_000_000_001);
    assert_eq!(text(&state.error_message), Some("broken"));
    assert!(state.success_message.is_none());
    state.expire_after(5_000_000_001, 0);
    assert!(state.error_message.is_none());
    state.set_as_loading();
    state.initialize();
    state.expire_after(u128::MAX, u128::MAX);
    assert!(state.error_message.is_none() && state.success_message.is_none());
    assert!(state.loading && state.initialized);
}

#[test]
fn pages_open_with_empty_forms_and_no_filter() {
    let page = ExercisesPageModel::new();
    assert_eq!(page.form_data, workout_util::exercise::exercise_library_default_req());
    assert!(page.pagination_filters.to_predicate().conditions.is_empty());
    assert!(page.pagination_filters.name.is_none());
    assert!(page.common_ui_state.error_message.is_none());
    assert!(page.common_ui_state.success_message.is_none());
    assert_eq!(page.pagination_state.limit, 50);

    let page = WorkoutsPageModel::new();
    assert_eq!(page.form_workout, workout_util::workout::default_workout_req());
    assert_eq!(page.form_exercise, default_exercise_req(0));
    assert!(page.workout_filters.name.is_none());
    assert!(page.workout_filters.description.is_none());
    assert!(page.workout_filters.active.is_none());
    assert!(page.common_ui_state.error_message.is_none());
    assert!(!page.common_ui_state.loading && !page.common_ui_state.initialized);

    let page = WorkoutLogsPageModel::new();
    assert!(page.pagination_filters.workout_date_gte.is_none());
    assert!(page.pagination_filters.workout_date_lte.is_none());
    assert!(page.pagination_filters.notes.is_none());
    assert!(page.common_ui_state.success_message.is_none());

    let page = StartWorkoutPageModel::new();
    assert!(page.common_ui_state.error_message.is_none());
    assert!(page.common_ui_state.success_message.is_none());
    assert!(!page.common_ui_state.loading && !page.common_ui_state.initialized);
}

#[test]
fn actions_lead_to_pages() {
    assert_eq!(MainPageState::Home.navigate(PageAction::Stay), (MainPageState::Home, None));
    assert_eq!(
        MainPageState::Workouts.navigate(PageAction::GoToStartWorkout(4)),
        (MainPageState::StartWorkout, Some(4))
    );
    assert_eq!(
        MainPageState::StartWorkout.navigate(PageAction::GoToWorkoutDetails(9)),
        (MainPageState::Workouts, Some(9))
    );
    assert_eq!(
        MainPageState::WorkoutLogs.navigate(PageAction::Stay),
        (MainPageState::WorkoutLogs, None)
    );
}

fn bench() -> ValidExercise {
    ValidExercise::BentArmCompound(BentArmCompoundExercise {
        id: 11,
        name: "Bench Press".to_string(),
        push_or_pull: PushOrPull::Push,
        dynamic_or_static: DynamicOrStatic::Dynamic,
        lever_variation: None,
        grip: Grip::Pronated,
        grip_width: GripWidth::Shoulder,
    })
}

fn bench_req(name: &str) -> ExerciseLibraryReq {
    ExerciseLibraryReq {
        name: name.to_string(),
        push_or_pull: Some(PushOrPull::Push),
        dynamic_or_static: DynamicOrStatic::Dynamic,
        straight_or_bent: Some(StraightOrBentArm::Bent),
        squat_or_hinge: None,
        upper_or_lower: UpperOrLower::Upper,
        compound_or_isolation: CompoundOrIsolation::Compound,
        lever_variation: None,
        grip: Some(Grip::Pronated),
        grip_width: Some(GripWidth::Shoulder),
        description: None,
    }
}

fn exercise_row(id: u32) -> ExerciseLibraryRes {
    ExerciseLibraryRes {
        id,
        name: format!("Exercise {}", id),
        push_or_pull: None,
        dynamic_or_static: DynamicOrStatic::Dynamic,
        straight_or_bent: None,
        squat_or_hinge: None,
        upper_or_lower: UpperOrLower::Lower,
        compound_or_isolation: CompoundOrIsolation::Isolation,
        lever_variation: None,
        grip: None,
        grip_width: None,
        description: None,
    }
}

#[test]
fn exercises_page_takes_in_messages() {
    let mut page = ExercisesPageModel::new();
    assert_eq!(page.state, ExercisesPageState::DetailsClosed);
    assert_eq!(
        page.begin_fetch(),
        Some(PaginationParams { limit: 50, cursor: None, direction: PaginationDirection::Forward })
    );
    assert!(page.common_ui_state.loading);
    assert_eq!(page.begin_fetch(), None);

    page.handle(ExercisesPageMsg::ListLoaded(PaginationRes {
        items: vec![exercise_row(1), exercise_row(2)],
        next_cursor: Some(2),
        prev_cursor: None,
    }));
    assert!(!page.common_ui_state.loading);
    assert_eq!(page.list_items.len(), 2);
    assert_eq!(page.pagination_state.next_cursor, Some(2));
    assert_eq!(page.pagination_state.prev_cursor, None);
    assert_eq!(page.pagination_state.current_cursor, None);

    page.state = ExercisesPageState::DetailsOpenView;
    page.handle(ExercisesPageMsg::DetailLoaded(bench()));
    assert_eq!(page.current_detail, Some(bench()));
    assert_eq!(page.form_data, bench_req("Bench Press"));

    page.common_ui_state.initialize();
    page.state = ExercisesPageState::DetailsEditView;
    page.handle(ExercisesPageMsg::Saved);
    assert_eq!(page.state, ExercisesPageState::DetailsClosed);
    assert!(!page.common_ui_state.initialized);
    assert_eq!(text(&page.common_ui_state.success_message), Some("Exercise saved successfully"));

    page.common_ui_state.initialize();
    page.state = ExercisesPageState::DetailsOpenView;
    page.handle(ExercisesPageMsg::Deleted);
    assert_eq!(page.state, ExercisesPageState::DetailsClosed);
    assert!(!page.common_ui_state.initialized);
    assert_eq!(text(&page.common_ui_state.success_message), Some("Exercise deleted"));

    page.common_ui_state.set_as_loading();
    page.handle(ExercisesPageMsg::Error("Exercise not found".to_string()));
    assert!(!page.common_ui_state.loading);
    assert_eq!(text(&page.common_ui_state.error_message), Some("Exercise not found"));
    assert_eq!(page.list_items.len(), 2);
    assert_eq!(page.pagination_state.next_cursor, Some(2));
}

#[test]
fn no_fetch_starts_while_one_is_under_way() {
    let mut page = ExercisesPageModel::new();
    page.pagination_filters.name = Some("Press".to_string());
    page.common_ui_state.show_error("broken");
    page.common_ui_state.show_success("done");
    page.pagination_state.limit = 7;
    page.pagination_state.next_cursor = Some(9);
    assert_eq!(
        page.list_request(),
        Some(PaginationParams { limit: 7, cursor: None, direction: PaginationDirection::Forward })
    );
    assert!(page.common_ui_state.loading && page.common_ui_state.initialized);
    for _ in 0..3 {
        assert_eq!(page.begin_fetch(), None);
        assert_eq!(page.list_request(), None);
        assert!(page.common_ui_state.loading && page.common_ui_state.initialized);
        assert_eq!(page.pagination_filters.name, Some("Press".to_string()));
        assert_eq!(text(&page.common_ui_state.error_message), Some("broken"));
        assert_eq!(text(&page.common_ui_state.success_message), Some("done"));
        assert_eq!(page.pagination_state.limit, 7);
        assert_eq!(page.pagination_state.next_cursor, Some(9));
        assert_eq!(page.pagination_state.current_cursor, None);
    }
    page.common_ui_state.not_initialized();
    assert_eq!(page.list_request(), None);
    assert!(page.common_ui_state.initialized);

    let mut page = WorkoutsPageModel::new();
    page.workout_filters.active = Some(true);
    assert!(page.list_request().is_some());
    assert_eq!(page.begin_fetch(), None);
    assert_eq!(page.list_request(), None);
    assert_eq!(page.workout_filters.active, Some(true));
    assert!(page.common_ui_state.loading && page.common_ui_state.initialized);
    page.state = WorkoutsPageState::DetailsOpenView;
    page.common_ui_state.not_initialized();
    page.common_ui_state.set_as_not_loading();
    assert_eq!(page.list_request(), None);
    assert!(!page.common_ui_state.initialized && !page.common_ui_state.loading);
}

#[test]
fn exercises_page_decides_what_to_save() {
    let mut page = ExercisesPageModel::new();
    page.state = ExercisesPageState::CreateNew;
    page.form_data = bench_req("Incline Press");
    match page.save_plan() {
        Ok(ExerciseSave::Create(req)) => assert_eq!(req, bench_req("Incline Press")),
        _ => panic!("a new exercise is created"),
    }

    page.state = ExercisesPageState::DetailsEditView;
    assert_eq!(page.save_plan().err().unwrap(), "No ID found for edit");

    page.current_detail = Some(bench());
    match page.save_plan() {
        Ok(ExerciseSave::Update(ValidExercise::BentArmCompound(e))) => {
            assert_eq!(e.id, 11);
            assert_eq!(e.name, "Incline Press");
            assert_eq!(e.grip_width, GripWidth::Shoulder);
        },
        _ => panic!("the stored exercise is updated"),
    }

    page.form_data.grip = None;
    assert_eq!(
        page.save_plan().err().unwrap(),
        "Upper body compound exercises require a grip designation"
    );
}

fn workout(id: u32) -> WorkoutRes {
    WorkoutRes { id, name: format!("Workout {}", id), description: None, active: true }
}

fn planned(id: u32) -> WorkoutExerciseRes {
    WorkoutExerciseRes {
        id,
        workout_id: 1,
        name: format!("Exercise {}", id),
        code: "A1".to_string(),
        sets_target: 2,
        reps_or_seconds_target: 5,
        working_weight: 50,
        rest_period_seconds: 60,
        tempo: String::new(),
        emom: false,
        equipments: vec![],
        bands: vec![],
        description: None,
    }
}

#[test]
fn workouts_page_takes_in_messages() {
    let mut page = WorkoutsPageModel::new();
    assert!(page.begin_fetch().is_some());
    assert_eq!(page.begin_fetch(), None);
    let reload = page.handle(WorkoutsPageMsg::ListLoaded(PaginationRes {
        items: vec![workout(1), workout(2)],
        next_cursor: Some(2),
        prev_cursor: None,
    }));
    assert_eq!(reload, None);
    assert!(!page.common_ui_state.loading);
    assert_eq!(page.list_items, vec![workout(1), workout(2)]);
    assert_eq!(page.workout_pagination_state.next_cursor, Some(2));

    page.new_workout_exercises.push(default_exercise_req(0));
    let reload = page.handle(WorkoutsPageMsg::DetailLoaded(workout(2), vec![planned(1)]));
    assert_eq!(reload, None);
    assert_eq!(page.current_workout, Some(workout(2)));
    assert_eq!(page.current_exercises, vec![planned(1)]);
    assert_eq!(page.form_workout.name, "Workout 2");
    assert!(page.new_workout_exercises.is_empty());

    page.state = WorkoutsPageState::DetailsEditView;
    page.common_ui_state.initialize();
    assert_eq!(page.handle(WorkoutsPageMsg::Saved), Some(2));
    assert!(page.common_ui_state.loading);
    assert!(page.common_ui_state.initialized);
    assert_eq!(page.state, WorkoutsPageState::DetailsEditView);
    assert_eq!(text(&page.common_ui_state.success_message), Some("Saved successfully"));

    page.state = WorkoutsPageState::CreateNew;
    assert_eq!(page.handle(WorkoutsPageMsg::Saved), None);
    assert_eq!(page.state, WorkoutsPageState::DetailsClosed);
    assert!(!page.common_ui_state.initialized);
    assert!(!page.common_ui_state.loading);

    page.state = WorkoutsPageState::DetailsOpenView;
    page.common_ui_state.initialize();
    assert_eq!(page.handle(WorkoutsPageMsg::Saved), None);
    assert_eq!(page.state, WorkoutsPageState::DetailsOpenView);
    assert!(page.common_ui_state.initialized);

    assert_eq!(page.handle(WorkoutsPageMsg::Deleted), None);
    assert_eq!(page.state, WorkoutsPageState::DetailsClosed);
    assert!(!page.common_ui_state.initialized);
    assert_eq!(text(&page.common_ui_state.success_message), Some("Deleted successfully"));

    assert_eq!(page.handle(WorkoutsPageMsg::Error("no".to_string())), None);
    assert_eq!(text(&page.common_ui_state.error_message), Some("no"));
}

#[test]
fn workouts_page_keeps_the_exercises_of_a_new_workout() {
    let mut page = WorkoutsPageModel::new();
    page.state = WorkoutsPageState::CreateNew;
    page.show_exercise_form = true;
    page.form_exercise.name = "first".to_string();
    assert!(page.save_exercise().is_none());
    assert!(!page.show_exercise_form);
    page.form_exercise.name = "second".to_string();
    assert!(page.save_exercise().is_none());
    let names =
        |p: &WorkoutsPageModel| p.new_workout_exercises.iter().map(|e| e.name.clone()).collect::<Vec<_>>();
    assert_eq!(names(&page), vec!["first", "second"]);

    page.editing_exercise_id = Some(0);
    page.form_exercise.name = "changed".to_string();
    assert!(page.save_exercise().is_none());
    assert_eq!(names(&page), vec!["changed", "second"]);
    page.editing_exercise_id = Some(5);
    assert!(page.save_exercise().is_none());
    assert_eq!(names(&page), vec!["changed", "second"]);

    assert_eq!(page.delete_exercise(7), None);
    assert_eq!(names(&page), vec!["changed", "second"]);
    assert_eq!(page.delete_exercise(0), None);
    assert_eq!(names(&page), vec!["second"]);
    assert!(!page.common_ui_state.loading);

    page.state = WorkoutsPageState::DetailsEditView;
    assert_eq!(page.delete_exercise(0), Some(0));
    assert_eq!(names(&page), vec!["second"]);
    assert!(page.common_ui_state.loading);
}

#[test]
fn workouts_page_asks_to_store_an_exercise() {
    let mut page = WorkoutsPageModel::new();
    page.state = WorkoutsPageState::DetailsEditView;
    page.form_exercise.name = "Dips".to_string();
    page.form_exercise.workout_id = 99;
    page.show_exercise_form = true;
    let (replaces, req) = page.save_exercise().unwrap();
    assert_eq!(replaces, None);
    assert_eq!(req.workout_id, 0);
    assert_eq!(req.name, "Dips");
    assert!(page.common_ui_state.loading);
    assert!(!page.show_exercise_form);

    page.current_workout = Some(workout(6));
    page.editing_exercise_id = Some(31);
    let (replaces, req) = page.save_exercise().unwrap();
    assert_eq!(replaces, Some(31));
    assert_eq!(req.workout_id, 6);
}

#[test]
fn workouts_page_decides_what_to_save() {
    let mut page = WorkoutsPageModel::new();
    page.state = WorkoutsPageState::DetailsEditView;
    page.form_workout.name = "Leg day".to_string();
    assert!(page.workout_request().is_none());
    assert!(page.common_ui_state.loading);

    page.current_workout = Some(workout(4));
    match page.workout_request() {
        Some(WorkoutSave::Update(id, req)) => {
            assert_eq!(id, 4);
            assert_eq!(req.name, "Leg day");
            assert!(req.active);
        },
        _ => panic!("the stored workout is updated"),
    }

    page.state = WorkoutsPageState::CreateNew;
    page.form_exercise.name = "Squat".to_string();
    assert!(page.save_exercise().is_none());
    page.form_exercise.name = "Lunge".to_string();
    assert!(page.save_exercise().is_none());
    match page.workout_request() {
        Some(WorkoutSave::Create(req, exercises)) => {
            assert_eq!(req.name, "Leg day");
            let names: Vec<&str> = exercises.iter().map(|e| e.name.as_str()).collect();
            assert_eq!(names, vec!["Squat", "Lunge"]);
        },
        _ => panic!("a new workout is created"),
    }
    assert_eq!(page.new_workout_exercises.len(), 2);
}

#[test]
fn logs_page_takes_in_messages() {
    let date = chrono::NaiveDate::from_ymd_opt(2024, 1, 2).unwrap();
    let mut page = WorkoutLogsPageModel::new();
    assert!(page.begin_fetch().is_some());
    assert!(page.common_ui_state.loading && page.common_ui_state.initialized);
    assert_eq!(page.begin_fetch(), None);
    page.handle(WorkoutLogsPageMsg::ListLoaded(PaginationRes {
        items: vec![WorkoutLogGroupPageRes { id: 1, date, notes: None }],
        next_cursor: None,
        prev_cursor: Some(1),
    }));
    assert!(!page.common_ui_state.loading);
    assert_eq!(page.begin_fetch(), None);
    assert_eq!(page.list_items.len(), 1);
    assert_eq!(page.pagination_state.prev_cursor, Some(1));

    page.handle(WorkoutLogsPageMsg::DetailLoaded(
        WorkoutLogGroupRes { id: 1, date, notes: None },
        vec![],
    ));
    assert_eq!(page.state, WorkoutLogsPageState::DetailsOpenView);
    assert_eq!(page.current_log_group, Some(WorkoutLogGroupRes { id: 1, date, notes: None }));

    page.handle(WorkoutLogsPageMsg::Error("Database error".to_string()));
    assert_eq!(text(&page.common_ui_state.error_message), Some("Database error"));

    page.pagination_state.go_backwards();
    page.filters_changed();
    assert_eq!(page.pagination_state.current_cursor, None);
    assert_eq!(page.pagination_state.direction, PaginationDirection::Backward);
    assert!(!page.common_ui_state.initialized);
    assert_eq!(
        page.begin_fetch(),
        Some(PaginationParams { limit: 50, cursor: None, direction: PaginationDirection::Backward })
    );
}

#[test]
fn start_page_takes_in_messages() {
    let mut page = StartWorkoutPageModel::new();
    assert!(!page.valid_to_save());
    page.load_workout(6);
    assert_eq!(page.current_workout_id, Some(6));
    assert!(page.common_ui_state.loading);
    page.handle(StartWorkoutsPageMsg::WorkoutLoaded(workout(6), vec![planned(1), planned(2)]));
    assert!(!page.common_ui_state.loading);
    let session = page.active_session.as_ref().unwrap();
    assert_eq!(session.name, "Workout 6");
    assert_eq!(session.exercises.len(), 2);
    assert_eq!(session.exercises[1].sets.len(), 2);
    assert!(!page.valid_to_save());
    page.active_session.as_mut().unwrap().exercises[1].sets[0].completed = true;
    assert!(page.valid_to_save());

    let date = chrono::NaiveDate::from_ymd_opt(2024, 7, 8).unwrap();
    let (group, entries) = page.log_request(date).unwrap();
    assert!(page.common_ui_state.loading);
    assert_eq!(group.date, date);
    assert_eq!(group.notes, Some("Workout name: Workout 6".to_string()));
    assert_eq!(entries.len(), 1);
    assert_eq!(entries[0].workout_id, 6);
    assert_eq!(entries[0].workout_exercise_id, 2);
    assert_eq!(entries[0].exercise_name, "Exercise 2");
    assert_eq!(entries[0].set_number, 1);
    assert_eq!(entries[0].weight, 50);

    page.handle(StartWorkoutsPageMsg::Saved);
    assert_eq!(text(&page.common_ui_state.success_message), Some("Workout logged successfully!"));
    assert!(page.active_session.is_some());
    page.handle(StartWorkoutsPageMsg::Error("no".to_string()));
    assert_eq!(text(&page.common_ui_state.error_message), Some("no"));
    page.handle(StartWorkoutsPageMsg::Deleted);
    assert!(page.active_session.is_some());
    page.cancel();
    assert!(page.active_session.is_none());
    assert_eq!(page.current_workout_id, None);
    assert!(page.log_request(date).is_none());
}
