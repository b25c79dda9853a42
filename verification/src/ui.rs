//! The state of the pages of the application and what each message from
//! the store does to it.  Nothing here draws; a page is redrawn from its
//! state.

use vstd::prelude::*;
use crate::clock::{elapsed_nanos, now};
use crate::exercise::{
    exercise_library_default_req, exercise_to_req, get_exercise_id, ExerciseLibraryEntity,
    ExerciseLibraryFilterReq, ExerciseLibraryReq, ExerciseLibraryRes, InvalidExercise,
    ValidExercise,
};
use crate::pagination::{NextAndPrevCursor, PaginationParams, PaginationRes, PaginationState};
use crate::session::{entries_of, session_entries, ActiveSession};
use crate::workout::{
    copy_exercise_req, default_exercise_req, default_workout_req, same_request, workout_to_req,
    WorkoutExerciseReq, WorkoutExerciseRes, WorkoutReq, WorkoutRes, WorkoutsFilterReq,
};
use crate::workout_log::{
    WorkoutLogDetailRes, WorkoutLogGroupFilterReq, WorkoutLogGroupPageRes, WorkoutLogGroupReq,
    WorkoutLogGroupRes, WorkoutLogReq,
};

verus! {

/// What every page shows of its own condition: the last error and the
/// last success, each with the moment it was raised, whether a request is
/// under way, and whether the list has been asked for.
#[derive(Debug)]
pub struct CommonUiState {
    pub error_message: Option<(String, std::time::Instant)>,
    pub success_message: Option<(String, std::time::Instant)>,
    pub loading: bool,
    pub initialized: bool,
}

/// The text of a message that may be missing.
pub open spec fn message_text(message: Option<(String, std::time::Instant)>) -> Option<Seq<char>> {
    match message {
        Some(m) => Some(m.0@),
        None => None,
    }
}

impl Default for CommonUiState {
    fn default() -> (state: Self)
        ensures
            state.error_message is None,
            state.success_message is None,
            !state.loading,
            !state.initialized,
    {
        CommonUiState {
            error_message: None,
            success_message: None,
            loading: false,
            initialized: false,
        }
    }
}

impl CommonUiState {
    /// The state of a page that has just opened: no message, no request
    /// under way, the list not asked for.
    pub open spec fn fresh() -> CommonUiState {
        CommonUiState {
            error_message: None,
            success_message: None,
            loading: false,
            initialized: false,
        }
    }

    /// Whether the state is `before` with an error of the text `text`
    /// raised in it.
    pub open spec fn tells_error(self, before: CommonUiState, text: Seq<char>) -> bool {
        &&& message_text(self.error_message) == Some(text)
        &&& self.success_message == before.success_message
        &&& self.loading == before.loading
        &&& self.initialized == before.initialized
    }

    /// Whether the state is `before` with a success of the text `text`
    /// raised in it.
    pub open spec fn tells_success(self, before: CommonUiState, text: Seq<char>) -> bool {
        &&& message_text(self.success_message) == Some(text)
        &&& self.error_message == before.error_message
        &&& self.loading == before.loading
        &&& self.initialized == before.initialized
    }

    /// What is left of the error once it has been shown for `age`
    /// nanoseconds: nothing after more than five seconds.
    pub open spec fn error_after(self, age: u128) -> Option<(String, std::time::Instant)> {
        if age > 5_000_000_000 {
            None
        } else {
            self.error_message
        }
    }

    /// What is left of the success once it has been shown for `age`
    /// nanoseconds: nothing after more than three seconds.
    pub open spec fn success_after(self, age: u128) -> Option<(String, std::time::Instant)> {
        if age > 3_000_000_000 {
            None
        } else {
            self.success_message
        }
    }

    /// Marks that a request is under way.
    pub fn set_as_loading(&mut self)
        ensures
            *final(self) == (CommonUiState { loading: true, ..*old(self) }),
    {
        self.loading = true;
    }

    /// Marks that no request is under way.
    pub fn set_as_not_loading(&mut self)
        ensures
            *final(self) == (CommonUiState { loading: false, ..*old(self) }),
    {
        self.loading = false;
    }

    /// Takes the error away.
    pub fn clear_error(&mut self)
        ensures
            *final(self) == (CommonUiState { error_message: None, ..*old(self) }),
    {
        self.error_message = None;
    }

    /// Takes the success away.
    pub fn clear_success(&mut self)
        ensures
            *final(self) == (CommonUiState { success_message: None, ..*old(self) }),
    {
        self.success_message = None;
    }

    /// Marks that the list has been asked for.
    pub fn initialize(&mut self)
        ensures
            *final(self) == (CommonUiState { initialized: true, ..*old(self) }),
    {
        self.initialized = true;
    }

    /// Marks that the list is to be asked for again.
    pub fn not_initialized(&mut self)
        ensures
            *final(self) == (CommonUiState { initialized: false, ..*old(self) }),
    {
        self.initialized = false
    }

    /// Raises an error, marked with the present moment.
    pub fn show_error(&mut self, msg: &str)
        ensures
            final(self).tells_error(*old(self), msg@),
    {
        self.error_message = Some((msg.to_owned(), now()));
    }

    /// Raises a success, marked with the present moment.
    pub fn show_success(&mut self, msg: &str)
        ensures
            final(self).tells_success(*old(self), msg@),
    {
        self.success_message = Some((msg.to_owned(), now()));
    }

    /// Takes the messages away whose time is over.
    pub fn retire(&mut self, error_over: bool, success_over: bool)
        ensures
            final(self).error_message == if error_over {
                None
            } else {
                old(self).error_message
            },
            final(self).success_message == if success_over {
                None
            } else {
                old(self).success_message
            },
            final(self).loading == old(self).loading,
            final(self).initialized == old(self).initialized,
    {
        if error_over {
            self.clear_error();
        }
        if success_over {
            self.clear_success();
        }
    }

    /// Takes the messages away whose time is over, given the nanoseconds
    /// for which each has been shown.
    pub fn expire_after(&mut self, error_age: u128, success_age: u128)
        ensures
            final(self).error_message == old(self).error_after(error_age),
            final(self).success_message == old(self).success_after(success_age),
            final(self).loading == old(self).loading,
            final(self).initialized == old(self).initialized,
    {
        self.retire(error_age > 5_000_000_000, success_age > 3_000_000_000);
    }

    /// Reads the clock and takes away an error that has been shown for
    /// more than five seconds and a success that has been shown for more
    /// than three: the messages are what is left of them after the times
    /// that the clock shows them to have been there.
    pub fn expire(&mut self)
        ensures
            exists|error_age: u128, success_age: u128|
                {
                    &&& final(self).error_message == old(self).error_after(error_age)
                    &&& final(self).success_message == old(self).success_after(success_age)
                },
            final(self).loading == old(self).loading,
            final(self).initialized == old(self).initialized,
    {
        let error_age: u128 = match &self.error_message {
            Some(m) => elapsed_nanos(&m.1),
            None => 0,
        };
        let success_age: u128 = match &self.success_message {
            Some(m) => elapsed_nanos(&m.1),
            None => 0,
        };
        self.expire_after(error_age, success_age);
        assert(self.error_message == old(self).error_after(error_age));
        assert(self.success_message == old(self).success_after(success_age));
    }
}

/// The pages of the application.
#[derive(Debug, Clone, Copy, PartialEq, Eq, Hash, Structural)]
pub enum MainPageState {
    Home,
    Exercises,
    Workouts,
    StartWorkout,
    WorkoutLogs,
}

/// The pages that lead from one to the other: every page but the log.
#[derive(Debug, Clone, Copy, PartialEq, Eq, Hash, Structural)]
pub enum Page {
    Home,
    Exercises,
    Workouts,
    StartWorkout,
}

/// What a page asks the application to do once it is drawn.
#[derive(Debug, Clone, Copy, PartialEq, Eq, Hash, Structural)]
pub enum PageAction {
    Stay,
    GoToStartWorkout(u32),
    GoToWorkoutDetails(u32),
}

impl MainPageState {
    /// The page that is shown once an action is carried out.
    pub open spec fn after(self, action: PageAction) -> MainPageState {
        match action {
            PageAction::Stay => self,
            PageAction::GoToStartWorkout(_) => MainPageState::StartWorkout,
            PageAction::GoToWorkoutDetails(_) => MainPageState::Workouts,
        }
    }

    /// Carries out an action: the page to show, and the workout that the
    /// page has to load, if any.
    pub fn navigate(self, action: PageAction) -> (next: (MainPageState, Option<u32>))
        ensures
            next.0 == self.after(action),
            next.1 == match action {
                PageAction::Stay => None::<u32>,
                PageAction::GoToStartWorkout(id) => Some(id),
                PageAction::GoToWorkoutDetails(id) => Some(id),
            },
    {
        match action {
            PageAction::Stay => (self, None),
            PageAction::GoToStartWorkout(id) => (MainPageState::StartWorkout, Some(id)),
            PageAction::GoToWorkoutDetails(id) => (MainPageState::Workouts, Some(id)),
        }
    }
}

/// What the exercises page shows.
#[derive(Debug, Clone, Copy, PartialEq, Eq, Hash, Structural)]
pub enum ExercisesPageState {
    DetailsClosed,
    DetailsOpenView,
    DetailsEditView,
    CreateNew,
}

/// What the store tells the exercises page.
pub enum ExercisesPageMsg {
    ListLoaded(PaginationRes<ExerciseLibraryRes>),
    DetailLoaded(ValidExercise),
    Saved,
    Deleted,
    Error(String),
}

/// What saving the form of the exercises page asks of the store.
pub enum ExerciseSave {
    Create(ExerciseLibraryReq),
    Update(ValidExercise),
}

/// The exercises page.
pub struct ExercisesPageModel {
    pub state: ExercisesPageState,
    pub list_items: Vec<ExerciseLibraryRes>,
    pub current_detail: Option<ValidExercise>,
    pub form_data: ExerciseLibraryReq,
    pub pagination_filters: ExerciseLibraryFilterReq,
    pub pagination_state: PaginationState,
    pub common_ui_state: CommonUiState,
}

/// The cursors of a page.
pub open spec fn cursors_of_page<T>(page: PaginationRes<T>) -> NextAndPrevCursor {
    NextAndPrevCursor { next_cursor: page.next_cursor, prev_cursor: page.prev_cursor }
}

impl ExercisesPageModel {
    /// The page as it opens: the list, not yet asked for.
    pub fn new() -> (page: Self)
        ensures
            page.state == ExercisesPageState::DetailsClosed,
            page.list_items@.len() == 0,
            page.current_detail is None,
            page.form_data.is_empty_form(),
            page.pagination_filters.is_unset(),
            page.pagination_state == PaginationState::first(50),
            page.common_ui_state == CommonUiState::fresh(),
    {
        ExercisesPageModel {
            state: ExercisesPageState::DetailsClosed,
            list_items: Vec::new(),
            current_detail: None,
            form_data: exercise_library_default_req(),
            pagination_filters: ExerciseLibraryFilterReq::default(),
            pagination_state: PaginationState::default(),
            common_ui_state: CommonUiState::default(),
        }
    }

    /// Takes in a message from the store.  Any message ends the loading.
    /// A list replaces the items and the cursors; a detail fills the form;
    /// a success closes the details and has the list asked for again; an
    /// error is shown and changes nothing else.
    pub fn handle(&mut self, msg: ExercisesPageMsg)
        ensures
            match msg {
                ExercisesPageMsg::ListLoaded(res) => *final(self) == (ExercisesPageModel {
                    list_items: res.items,
                    pagination_state: old(self).pagination_state.with_response(
                        cursors_of_page(res),
                    ),
                    common_ui_state: CommonUiState { loading: false, ..old(self).common_ui_state },
                    ..*old(self)
                }),
                ExercisesPageMsg::DetailLoaded(exercise) => *final(self) == (ExercisesPageModel {
                    current_detail: Some(exercise),
                    form_data: exercise.req(),
                    common_ui_state: CommonUiState { loading: false, ..old(self).common_ui_state },
                    ..*old(self)
                }),
                ExercisesPageMsg::Saved => {
                    &&& *final(self) == (ExercisesPageModel {
                        state: ExercisesPageState::DetailsClosed,
                        common_ui_state: final(self).common_ui_state,
                        ..*old(self)
                    })
                    &&& final(self).common_ui_state.tells_success(
                        (CommonUiState {
                            loading: false,
                            initialized: false,
                            ..old(self).common_ui_state
                        }),
                        "Exercise saved successfully"@,
                    )
                },
                ExercisesPageMsg::Deleted => {
                    &&& *final(self) == (ExercisesPageModel {
                        state: ExercisesPageState::DetailsClosed,
                        common_ui_state: final(self).common_ui_state,
                        ..*old(self)
                    })
                    &&& final(self).common_ui_state.tells_success(
                        (CommonUiState {
                            loading: false,
                            initialized: false,
                            ..old(self).common_ui_state
                        }),
                        "Exercise deleted"@,
                    )
                },
                ExercisesPageMsg::Error(e) => {
                    &&& *final(self) == (ExercisesPageModel {
                        common_ui_state: final(self).common_ui_state,
                        ..*old(self)
                    })
                    &&& final(self).common_ui_state.tells_error(
                        (CommonUiState { loading: false, ..old(self).common_ui_state }),
                        e@,
                    )
                },
            },
    {
        self.common_ui_state.set_as_not_loading();
        match msg {
            ExercisesPageMsg::ListLoaded(res) => {
                self.pagination_state.apply_response(
                    NextAndPrevCursor {
                        next_cursor: res.next_cursor,
                        prev_cursor: res.prev_cursor,
                    },
                );
                self.list_items = res.items;
            },
            ExercisesPageMsg::DetailLoaded(valid_exercise) => {
                self.form_data = exercise_to_req(&valid_exercise);
                self.current_detail = Some(valid_exercise);
            },
            ExercisesPageMsg::Saved => {
                self.common_ui_state.show_success("Exercise saved successfully");
                self.state = ExercisesPageState::DetailsClosed;
                self.common_ui_state.not_initialized();
            },
            ExercisesPageMsg::Deleted => {
                self.common_ui_state.show_success("Exercise deleted");
                self.state = ExercisesPageState::DetailsClosed;
                self.common_ui_state.not_initialized();
            },
            ExercisesPageMsg::Error(e) => {
                self.common_ui_state.show_error(e.as_str());
            },
        }
    }

    /// Decides whether to ask the store for the list: not while a request
    /// is under way.  If so, the loading begins and the request is given.
    pub fn begin_fetch(&mut self) -> (request: Option<PaginationParams>)
        ensures
            request == if old(self).common_ui_state.loading {
                None
            } else {
                Some(old(self).pagination_state.params())
            },
            *final(self) == (ExercisesPageModel {
                common_ui_state: CommonUiState { loading: true, ..old(self).common_ui_state },
                ..*old(self)
            }),
    {
        if self.common_ui_state.loading {
            return None;
        }
        self.common_ui_state.set_as_loading();
        Some(self.pagination_state.to_pagination_params())
    }

    /// Decides, when the page is drawn, whether to ask the store for the
    /// list: if the list is shown and has not been asked for.  It then
    /// counts as asked for, and unless a request is under way already,
    /// the loading begins and the request is given.
    pub fn list_request(&mut self) -> (request: Option<PaginationParams>)
        ensures
            request == if !old(self).common_ui_state.initialized && old(self).state
                == ExercisesPageState::DetailsClosed && !old(self).common_ui_state.loading {
                Some(old(self).pagination_state.params())
            } else {
                None
            },
            *final(self) == (ExercisesPageModel {
                common_ui_state: CommonUiState {
                    loading: old(self).common_ui_state.loading || request is Some,
                    initialized: old(self).common_ui_state.initialized || old(self).state
                        == ExercisesPageState::DetailsClosed,
                    ..old(self).common_ui_state
                },
                ..*old(self)
            }),
    {
        match self.state {
            ExercisesPageState::DetailsClosed => {
                if !self.common_ui_state.initialized {
                    let request = self.begin_fetch();
                    self.common_ui_state.initialize();
                    request
                } else {
                    None
                }
            },
            _ => None,
        }
    }

    /// What the form would save: while a stored exercise is edited, that
    /// exercise with the attributes of the form; else a new exercise.
    pub open spec fn save_outcome(self) -> Result<ExerciseSave, Option<InvalidExercise>> {
        if self.state == ExercisesPageState::DetailsEditView {
            match self.current_detail {
                Some(detail) => {
                    let row = ExerciseLibraryEntity::of_req(self.form_data);
                    match row.classify() {
                        Ok(_) => match (ExerciseLibraryEntity { id: detail.spec_id(), ..row }).classify() {
                            Ok(v) => Ok(ExerciseSave::Update(v)),
                            Err(e) => Err(Some(e)),
                        },
                        Err(e) => Err(Some(e)),
                    }
                },
                None => Err(None),
            }
        } else {
            Ok(ExerciseSave::Create(self.form_data))
        }
    }

    /// Decides what saving the form asks of the store, or says why the
    /// form cannot be saved.
    pub fn save_plan(&self) -> (plan: Result<ExerciseSave, String>)
        ensures
            match self.save_outcome() {
                Ok(save) => plan == Ok::<ExerciseSave, String>(save),
                Err(Some(e)) => plan is Err && plan->Err_0@ == e.text(),
                Err(None) => plan is Err && plan->Err_0@ == "No ID found for edit"@,
            },
    {
        match self.state {
            ExercisesPageState::DetailsEditView => {
                match &self.current_detail {
                    Some(detail) => {
                        let id = get_exercise_id(detail);
                        let req = copy_req(&self.form_data);
                        match ExerciseLibraryEntity::from_req(req) {
                            Ok(entity) => {
                                let mut entity = entity;
                                entity.id = id;
                                match entity.to_valid_struct() {
                                    Ok(valid) => Ok(ExerciseSave::Update(valid)),
                                    Err(e) => Err(e),
                                }
                            },
                            Err(e) => Err(e),
                        }
                    },
                    None => Err("No ID found for edit".to_owned()),
                }
            },
            _ => Ok(ExerciseSave::Create(copy_req(&self.form_data))),
        }
    }
}

/// A copy of a request, text for text.
pub fn copy_req(req: &ExerciseLibraryReq) -> (copy: ExerciseLibraryReq)
    ensures
        copy == *req,
{
    ExerciseLibraryReq {
        name: req.name.clone(),
        push_or_pull: req.push_or_pull,
        dynamic_or_static: req.dynamic_or_static,
        straight_or_bent: req.straight_or_bent,
        squat_or_hinge: req.squat_or_hinge,
        upper_or_lower: req.upper_or_lower,
        compound_or_isolation: req.compound_or_isolation,
        lever_variation: req.lever_variation,
        grip: req.grip,
        grip_width: req.grip_width,
        description: crate::workout::copy_text(&req.description),
    }
}

/// What the workouts page shows.
#[derive(Debug, Clone, Copy, PartialEq, Eq, Hash, Structural)]
pub enum WorkoutsPageState {
    DetailsClosed,
    DetailsOpenView,
    DetailsEditView,
    CreateNew,
}

/// What the store tells the workouts page.
pub enum WorkoutsPageMsg {
    ListLoaded(PaginationRes<WorkoutRes>),
    DetailLoaded(WorkoutRes, Vec<WorkoutExerciseRes>),
    Saved,
    Deleted,
    Error(String),
}

/// What saving the form of the workouts page asks of the store: a new
/// workout with its exercises, or new details for a stored workout.
pub enum WorkoutSave {
    Create(WorkoutReq, Vec<WorkoutExerciseReq>),
    Update(u32, WorkoutReq),
}

/// The workouts page.  While a new workout is put together, its exercises
/// are kept in `new_workout_exercises`, and `editing_exercise_id` is an
/// index into them; else it is the identifier of a stored exercise.
pub struct WorkoutsPageModel {
    pub state: WorkoutsPageState,
    pub list_items: Vec<WorkoutRes>,
    pub current_workout: Option<WorkoutRes>,
    pub current_exercises: Vec<WorkoutExerciseRes>,
    pub form_workout: WorkoutReq,
    pub show_exercise_form: bool,
    pub form_exercise: WorkoutExerciseReq,
    pub editing_exercise_id: Option<u32>,
    pub new_workout_exercises: Vec<WorkoutExerciseReq>,
    pub workout_filters: WorkoutsFilterReq,
    pub workout_pagination_state: PaginationState,
    pub common_ui_state: CommonUiState,
}

impl WorkoutsPageModel {
    /// The page as it opens: the list, not yet asked for.
    pub fn new() -> (page: Self)
        ensures
            page.state == WorkoutsPageState::DetailsClosed,
            page.list_items@.len() == 0,
            page.current_workout is None,
            page.current_exercises@.len() == 0,
            !page.show_exercise_form,
            page.editing_exercise_id is None,
            page.new_workout_exercises@.len() == 0,
            page.form_workout.is_empty_form(),
            page.form_exercise.is_empty_form(0),
            page.workout_filters.is_unset(),
            page.workout_pagination_state == PaginationState::first(50),
            page.common_ui_state == CommonUiState::fresh(),
    {
        WorkoutsPageModel {
            state: WorkoutsPageState::DetailsClosed,
            list_items: Vec::new(),
            current_workout: None,
            current_exercises: Vec::new(),
            form_workout: default_workout_req(),
            show_exercise_form: false,
            form_exercise: default_exercise_req(0),
            editing_exercise_id: None,
            new_workout_exercises: Vec::new(),
            workout_filters: WorkoutsFilterReq::default(),
            workout_pagination_state: PaginationState::default(),
            common_ui_state: CommonUiState::default(),
        }
    }

    /// The workout whose details are to be fetched again after a save:
    /// the current one, while it is edited.
    pub open spec fn reload_after_save(self) -> Option<u32> {
        if self.state == WorkoutsPageState::DetailsEditView && self.current_workout is Some {
            Some(self.current_workout->Some_0.id)
        } else {
            None
        }
    }

    /// Takes in a message from the store, and says which workout to fetch
    /// the details of, if any.  A list replaces the items and the cursors;
    /// details fill the form and empty the exercises of a new workout; a
    /// save closes a new workout and has the list asked for again, or has
    /// the edited workout fetched again; a deletion closes the details
    /// and has the list asked for again; an error is shown.
    pub fn handle(&mut self, msg: WorkoutsPageMsg) -> (reload: Option<u32>)
        ensures
            reload == match msg {
                WorkoutsPageMsg::Saved => old(self).reload_after_save(),
                _ => None::<u32>,
            },
            match msg {
                WorkoutsPageMsg::ListLoaded(res) => *final(self) == (WorkoutsPageModel {
                    list_items: res.items,
                    workout_pagination_state: old(self).workout_pagination_state.with_response(
                        cursors_of_page(res),
                    ),
                    common_ui_state: CommonUiState { loading: false, ..old(self).common_ui_state },
                    ..*old(self)
                }),
                WorkoutsPageMsg::DetailLoaded(workout, exercises) => {
                    &&& *final(self) == (WorkoutsPageModel {
                        current_workout: Some(workout),
                        current_exercises: exercises,
                        form_workout: WorkoutReq {
                            name: workout.name,
                            description: workout.description,
                            active: workout.active,
                        },
                        new_workout_exercises: final(self).new_workout_exercises,
                        common_ui_state: CommonUiState {
                            loading: false,
                            ..old(self).common_ui_state
                        },
                        ..*old(self)
                    })
                    &&& final(self).new_workout_exercises@.len() == 0
                },
                WorkoutsPageMsg::Saved => {
                    &&& *final(self) == (WorkoutsPageModel {
                        state: if old(self).state == WorkoutsPageState::CreateNew {
                            WorkoutsPageState::DetailsClosed
                        } else {
                            old(self).state
                        },
                        common_ui_state: final(self).common_ui_state,
                        ..*old(self)
                    })
                    &&& final(self).common_ui_state.tells_success(
                        (CommonUiState {
                            loading: reload is Some,
                            initialized: old(self).common_ui_state.initialized && old(self).state
                                != WorkoutsPageState::CreateNew,
                            ..old(self).common_ui_state
                        }),
                        "Saved successfully"@,
                    )
                },
                WorkoutsPageMsg::Deleted => {
                    &&& *final(self) == (WorkoutsPageModel {
                        state: WorkoutsPageState::DetailsClosed,
                        common_ui_state: final(self).common_ui_state,
                        ..*old(self)
                    })
                    &&& final(self).common_ui_state.tells_success(
                        (CommonUiState {
                            loading: false,
                            initialized: false,
                            ..old(self).common_ui_state
                        }),
                        "Deleted successfully"@,
                    )
                },
                WorkoutsPageMsg::Error(e) => {
                    &&& *final(self) == (WorkoutsPageModel {
                        common_ui_state: final(self).common_ui_state,
                        ..*old(self)
                    })
                    &&& final(self).common_ui_state.tells_error(
                        (CommonUiState { loading: false, ..old(self).common_ui_state }),
                        e@,
                    )
                },
            },
    {
        self.common_ui_state.set_as_not_loading();
        match msg {
            WorkoutsPageMsg::ListLoaded(res) => {
                self.workout_pagination_state.apply_response(
                    NextAndPrevCursor {
                        next_cursor: res.next_cursor,
                        prev_cursor: res.prev_cursor,
                    },
                );
                self.list_items = res.items;
                None
            },
            WorkoutsPageMsg::DetailLoaded(workout, exercises) => {
                self.form_workout = workout_to_req(&workout);
                self.current_workout = Some(workout);
                self.current_exercises = exercises;
                self.new_workout_exercises = Vec::new();
                None
            },
            WorkoutsPageMsg::Saved => {
                self.common_ui_state.show_success("Saved successfully");
                match self.state {
                    WorkoutsPageState::CreateNew => {
                        self.state = WorkoutsPageState::DetailsClosed;
                        self.common_ui_state.not_initialized();
                        None
                    },
                    WorkoutsPageState::DetailsEditView => {
                        let reload = match &self.current_workout {
                            Some(w) => Some(w.id),
                            None => None,
                        };
                        if reload.is_some() {
                            self.common_ui_state.set_as_loading();
                        }
                        reload
                    },
                    _ => None,
                }
            },
            WorkoutsPageMsg::Deleted => {
                self.common_ui_state.show_success("Deleted successfully");
                self.state = WorkoutsPageState::DetailsClosed;
                self.common_ui_state.not_initialized();
                None
            },
            WorkoutsPageMsg::Error(e) => {
                self.common_ui_state.show_error(e.as_str());
                None
            },
        }
    }

    /// Decides whether to ask the store for the list: not while a request
    /// is under way.  If so, the loading begins and the request is given.
    pub fn begin_fetch(&mut self) -> (request: Option<PaginationParams>)
        ensures
            request == if old(self).common_ui_state.loading {
                None
            } else {
                Some(old(self).workout_pagination_state.params())
            },
            *final(self) == (WorkoutsPageModel {
                common_ui_state: CommonUiState { loading: true, ..old(self).common_ui_state },
                ..*old(self)
            }),
    {
        if self.common_ui_state.loading {
            return None;
        }
        self.common_ui_state.set_as_loading();
        Some(self.workout_pagination_state.to_pagination_params())
    }

    /// Decides, when the page is drawn, whether to ask the store for the
    /// list: if the list is shown and has not been asked for.  It then
    /// counts as asked for, and unless a request is under way already,
    /// the loading begins and the request is given.
    pub fn list_request(&mut self) -> (request: Option<PaginationParams>)
        ensures
            request == if !old(self).common_ui_state.initialized && old(self).state
                == WorkoutsPageState::DetailsClosed && !old(self).common_ui_state.loading {
                Some(old(self).workout_pagination_state.params())
            } else {
                None
            },
            *final(self) == (WorkoutsPageModel {
                common_ui_state: CommonUiState {
                    loading: old(self).common_ui_state.loading || request is Some,
                    initialized: old(self).common_ui_state.initialized || old(self).state
                        == WorkoutsPageState::DetailsClosed,
                    ..old(self).common_ui_state
                },
                ..*old(self)
            }),
    {
        match self.state {
            WorkoutsPageState::DetailsClosed => {
                if !self.common_ui_state.initialized {
                    let request = self.begin_fetch();
                    self.common_ui_state.initialize();
                    request
                } else {
                    None
                }
            },
            _ => None,
        }
    }

    /// Decides what saving the form of the workout asks of the store:
    /// while a new workout is put together, to create it with its
    /// exercises; else to give the current workout the details of the
    /// form; nothing if there is no current workout.  The loading begins.
    pub fn workout_request(&mut self) -> (plan: Option<WorkoutSave>)
        ensures
            *final(self) == (WorkoutsPageModel {
                common_ui_state: CommonUiState { loading: true, ..old(self).common_ui_state },
                ..*old(self)
            }),
            if old(self).state == WorkoutsPageState::CreateNew {
                &&& plan matches Some(WorkoutSave::Create(req, exercises))
                &&& req == old(self).form_workout
                &&& exercises@.len() == old(self).new_workout_exercises@.len()
                &&& forall|i: int|
                    0 <= i < exercises@.len() ==> same_request(
                        #[trigger] exercises@[i],
                        old(self).new_workout_exercises@[i],
                    )
            } else {
                match old(self).current_workout {
                    Some(current) => plan matches Some(WorkoutSave::Update(id, req)) && id
                        == current.id && req == old(self).form_workout,
                    None => plan is None,
                }
            },
    {
        self.common_ui_state.set_as_loading();
        let req = WorkoutReq {
            name: self.form_workout.name.clone(),
            description: crate::workout::copy_text(&self.form_workout.description),
            active: self.form_workout.active,
        };
        match self.state {
            WorkoutsPageState::CreateNew => {
                let mut exercises: Vec<WorkoutExerciseReq> = Vec::new();
                let mut i: usize = 0;
                while i < self.new_workout_exercises.len()
                    invariant
                        i <= self.new_workout_exercises@.len(),
                        exercises@.len() == i,
                        forall|j: int|
                            0 <= j < i ==> same_request(
                                #[trigger] exercises@[j],
                                self.new_workout_exercises@[j],
                            ),
                    decreases self.new_workout_exercises@.len() - i,
                {
                    exercises.push(copy_exercise_req(&self.new_workout_exercises[i]));
                    i = i + 1;
                }
                Some(WorkoutSave::Create(req, exercises))
            },
            _ => match &self.current_workout {
                Some(current) => Some(WorkoutSave::Update(current.id, req)),
                None => None,
            },
        }
    }

    /// Whether the page is `before` with the exercise of its form kept
    /// among the exercises of the new workout: in the place of the one
    /// that is edited, if there is such a place, or as a further one if
    /// none is edited; and with the form closed.
    pub open spec fn kept_exercise(self, before: WorkoutsPageModel) -> bool {
        &&& self == (WorkoutsPageModel {
            new_workout_exercises: self.new_workout_exercises,
            show_exercise_form: false,
            ..before
        })
        &&& match before.editing_exercise_id {
            Some(index) => {
                &&& self.new_workout_exercises@.len() == before.new_workout_exercises@.len()
                &&& forall|i: int|
                    0 <= i < before.new_workout_exercises@.len() ==> if i == index {
                        same_request(#[trigger] self.new_workout_exercises@[i], before.form_exercise)
                    } else {
                        self.new_workout_exercises@[i] == before.new_workout_exercises@[i]
                    }
            },
            None => {
                &&& self.new_workout_exercises@.len() == before.new_workout_exercises@.len() + 1
                &&& self.new_workout_exercises@.drop_last() == before.new_workout_exercises@
                &&& same_request(self.new_workout_exercises@.last(), before.form_exercise)
            },
        }
    }

    /// The request that stores the exercise of the form of `self` in the
    /// current workout, or in workout 0 if there is none.
    pub open spec fn stored_exercise(self, request: WorkoutExerciseReq) -> bool {
        same_request(
            request,
            WorkoutExerciseReq {
                workout_id: match self.current_workout {
                    Some(w) => w.id,
                    None => 0,
                },
                ..self.form_exercise
            },
        )
    }

    /// Saves the exercise of the form.  While a new workout is put
    /// together the exercise is kept among its exercises and nothing is
    /// asked of the store.  Else the store is asked to store the exercise
    /// in the current workout, in the place of the stored exercise that
    /// is edited, if one is; the loading begins.  Either way the form
    /// closes.
    pub fn save_exercise(&mut self) -> (request: Option<(Option<u32>, WorkoutExerciseReq)>)
        ensures
            if old(self).state == WorkoutsPageState::CreateNew {
                &&& request is None
                &&& final(self).kept_exercise(*old(self))
            } else {
                &&& request is Some
                &&& request->Some_0.0 == old(self).editing_exercise_id
                &&& old(self).stored_exercise(request->Some_0.1)
                &&& *final(self) == (WorkoutsPageModel {
                    show_exercise_form: false,
                    common_ui_state: CommonUiState { loading: true, ..old(self).common_ui_state },
                    ..*old(self)
                })
            },
    {
        match self.state {
            WorkoutsPageState::CreateNew => {
                let copy = copy_exercise_req(&self.form_exercise);
                match self.editing_exercise_id {
                    Some(index) => {
                        if (index as usize) < self.new_workout_exercises.len() {
                            self.new_workout_exercises.set(index as usize, copy);
                        }
                    },
                    None => {
                        self.new_workout_exercises.push(copy);
                        assert(self.new_workout_exercises@.drop_last() =~= old(self).new_workout_exercises@);
                    },
                }
                self.show_exercise_form = false;
                None
            },
            _ => {
                self.common_ui_state.set_as_loading();
                let mut req = copy_exercise_req(&self.form_exercise);
                req.workout_id = match &self.current_workout {
                    Some(w) => w.id,
                    None => 0,
                };
                self.show_exercise_form = false;
                Some((self.editing_exercise_id, req))
            },
        }
    }

    /// Deletes an exercise.  While a new workout is put together, `id` is
    /// a place among its exercises: the exercise at that place is dropped,
    /// if there is one, and nothing is asked of the store.  Else the store
    /// is asked to delete the stored exercise `id`, and the loading
    /// begins.
    pub fn delete_exercise(&mut self, id: u32) -> (request: Option<u32>)
        ensures
            if old(self).state == WorkoutsPageState::CreateNew {
                &&& request is None
                &&& *final(self) == (WorkoutsPageModel {
                    new_workout_exercises: final(self).new_workout_exercises,
                    ..*old(self)
                })
                &&& final(self).new_workout_exercises@ == if id < old(self).new_workout_exercises@.len() {
                    old(self).new_workout_exercises@.remove(id as int)
                } else {
                    old(self).new_workout_exercises@
                }
            } else {
                &&& request == Some(id)
                &&& *final(self) == (WorkoutsPageModel {
                    common_ui_state: CommonUiState { loading: true, ..old(self).common_ui_state },
                    ..*old(self)
                })
            },
    {
        match self.state {
            WorkoutsPageState::CreateNew => {
                if (id as usize) < self.new_workout_exercises.len() {
                    self.new_workout_exercises.remove(id as usize);
                }
                None
            },
            _ => {
                self.common_ui_state.set_as_loading();
                Some(id)
            },
        }
    }
}

/// What the page of the log shows.
#[derive(Debug, Clone, Copy, PartialEq, Eq, Hash, Structural)]
pub enum WorkoutLogsPageState {
    DetailsClosed,
    DetailsOpenView,
}

/// What the store tells the page of the log.
pub enum WorkoutLogsPageMsg {
    ListLoaded(PaginationRes<WorkoutLogGroupPageRes>),
    DetailLoaded(WorkoutLogGroupRes, Vec<WorkoutLogDetailRes>),
    Error(String),
}

/// The page of the log.
pub struct WorkoutLogsPageModel {
    pub state: WorkoutLogsPageState,
    pub list_items: Vec<WorkoutLogGroupPageRes>,
    pub current_log_group: Option<WorkoutLogGroupRes>,
    pub current_logs: Vec<WorkoutLogDetailRes>,
    pub pagination_filters: WorkoutLogGroupFilterReq,
    pub pagination_state: PaginationState,
    pub common_ui_state: CommonUiState,
}

impl WorkoutLogsPageModel {
    /// The page as it opens: the list, not yet asked for.
    pub fn new() -> (page: Self)
        ensures
            page.state == WorkoutLogsPageState::DetailsClosed,
            page.list_items@.len() == 0,
            page.current_log_group is None,
            page.current_logs@.len() == 0,
            page.pagination_filters.is_unset(),
            page.pagination_state == PaginationState::first(50),
            page.common_ui_state == CommonUiState::fresh(),
    {
        WorkoutLogsPageModel {
            state: WorkoutLogsPageState::DetailsClosed,
            list_items: Vec::new(),
            current_log_group: None,
            current_logs: Vec::new(),
            pagination_filters: WorkoutLogGroupFilterReq::default(),
            pagination_state: PaginationState::default(),
            common_ui_state: CommonUiState::default(),
        }
    }

    /// Takes in a message from the store.  Any message ends the loading.
    /// A list replaces the items and the cursors; details open the view
    /// of the group; an error is shown.
    pub fn handle(&mut self, msg: WorkoutLogsPageMsg)
        ensures
            match msg {
                WorkoutLogsPageMsg::ListLoaded(res) => *final(self) == (WorkoutLogsPageModel {
                    list_items: res.items,
                    pagination_state: old(self).pagination_state.with_response(
                        cursors_of_page(res),
                    ),
                    common_ui_state: CommonUiState { loading: false, ..old(self).common_ui_state },
                    ..*old(self)
                }),
                WorkoutLogsPageMsg::DetailLoaded(group, logs) => *final(self) == (WorkoutLogsPageModel {
                    current_log_group: Some(group),
                    current_logs: logs,
                    state: WorkoutLogsPageState::DetailsOpenView,
                    common_ui_state: CommonUiState { loading: false, ..old(self).common_ui_state },
                    ..*old(self)
                }),
                WorkoutLogsPageMsg::Error(e) => {
                    &&& *final(self) == (WorkoutLogsPageModel {
                        common_ui_state: final(self).common_ui_state,
                        ..*old(self)
                    })
                    &&& final(self).common_ui_state.tells_error(
                        (CommonUiState { loading: false, ..old(self).common_ui_state }),
                        e@,
                    )
                },
            },
    {
        match msg {
            WorkoutLogsPageMsg::ListLoaded(res) => {
                self.pagination_state.apply_response(
                    NextAndPrevCursor {
                        next_cursor: res.next_cursor,
                        prev_cursor: res.prev_cursor,
                    },
                );
                self.list_items = res.items;
                self.common_ui_state.set_as_not_loading();
            },
            WorkoutLogsPageMsg::DetailLoaded(log_group, logs) => {
                self.current_log_group = Some(log_group);
                self.current_logs = logs;
                self.state = WorkoutLogsPageState::DetailsOpenView;
                self.common_ui_state.set_as_not_loading();
            },
            WorkoutLogsPageMsg::Error(err) => {
                self.common_ui_state.show_error(err.as_str());
                self.common_ui_state.set_as_not_loading();
            },
        }
    }

    /// Decides whether to ask the store for the list: only if it has not
    /// been asked for and no request is under way.  If so, the loading
    /// begins, the list counts as asked for, and the request is given.
    pub fn begin_fetch(&mut self) -> (request: Option<PaginationParams>)
        ensures
            request == if old(self).common_ui_state.initialized
                || old(self).common_ui_state.loading {
                None
            } else {
                Some(old(self).pagination_state.params())
            },
            *final(self) == (WorkoutLogsPageModel {
                common_ui_state: CommonUiState {
                    loading: old(self).common_ui_state.loading || request is Some,
                    initialized: old(self).common_ui_state.initialized || request is Some,
                    ..old(self).common_ui_state
                },
                ..*old(self)
            }),
    {
        if self.common_ui_state.initialized || self.common_ui_state.loading {
            return None;
        }
        self.common_ui_state.set_as_loading();
        self.common_ui_state.initialize();
        Some(self.pagination_state.to_pagination_params())
    }

    /// Takes in a change of the filters: the next request starts without
    /// a cursor, and the list is to be asked for again.
    pub fn filters_changed(&mut self)
        ensures
            *final(self) == (WorkoutLogsPageModel {
                pagination_state: PaginationState {
                    current_cursor: None,
                    ..old(self).pagination_state
                },
                common_ui_state: CommonUiState {
                    initialized: false,
                    ..old(self).common_ui_state
                },
                ..*old(self)
            }),
    {
        self.pagination_state.current_cursor = None;
        self.common_ui_state.not_initialized();
    }
}

/// What the store tells the page on which a workout is done.
pub enum StartWorkoutsPageMsg {
    WorkoutLoaded(WorkoutRes, Vec<WorkoutExerciseRes>),
    Saved,
    Deleted,
    Error(String),
}

/// The page on which a workout is done and logged.
pub struct StartWorkoutPageModel {
    pub current_workout_id: Option<u32>,
    pub active_session: Option<ActiveSession>,
    pub common_ui_state: CommonUiState,
}

impl StartWorkoutPageModel {
    /// The page as it opens: no workout chosen.
    pub fn new() -> (page: Self)
        ensures
            page.current_workout_id is None,
            page.active_session is None,
            page.common_ui_state == CommonUiState::fresh(),
    {
        StartWorkoutPageModel {
            current_workout_id: None,
            active_session: None,
            common_ui_state: CommonUiState::default(),
        }
    }

    /// Chooses the workout to do.  Its session begins when it is loaded.
    pub fn load_workout(&mut self, workout_id: u32)
        ensures
            final(self).current_workout_id == Some(workout_id),
            final(self).active_session is None,
            final(self).common_ui_state == (CommonUiState {
                loading: true,
                ..old(self).common_ui_state
            }),
    {
        self.current_workout_id = Some(workout_id);
        self.active_session = None;
        self.common_ui_state.set_as_loading();
    }

    /// Leaves the workout without logging it.
    pub fn cancel(&mut self)
        ensures
            final(self).current_workout_id is None,
            final(self).active_session is None,
            final(self).common_ui_state == old(self).common_ui_state,
    {
        self.active_session = None;
        self.current_workout_id = None;
    }

    /// Takes in a message from the store.  Any message ends the loading.
    /// A loaded workout begins its session; a save is told; an error is
    /// shown.
    pub fn handle(&mut self, msg: StartWorkoutsPageMsg)
        ensures
            match msg {
                StartWorkoutsPageMsg::WorkoutLoaded(workout, exercises) => {
                    &&& *final(self) == (StartWorkoutPageModel {
                        active_session: final(self).active_session,
                        common_ui_state: CommonUiState {
                            loading: false,
                            ..old(self).common_ui_state
                        },
                        ..*old(self)
                    })
                    &&& final(self).active_session is Some
                    &&& final(self).active_session->Some_0.begins(workout, exercises@)
                },
                StartWorkoutsPageMsg::Saved => {
                    &&& *final(self) == (StartWorkoutPageModel {
                        common_ui_state: final(self).common_ui_state,
                        ..*old(self)
                    })
                    &&& final(self).common_ui_state.tells_success(
                        (CommonUiState { loading: false, ..old(self).common_ui_state }),
                        "Workout logged successfully!"@,
                    )
                },
                StartWorkoutsPageMsg::Deleted => *final(self) == (StartWorkoutPageModel {
                    common_ui_state: CommonUiState { loading: false, ..old(self).common_ui_state },
                    ..*old(self)
                }),
                StartWorkoutsPageMsg::Error(e) => {
                    &&& *final(self) == (StartWorkoutPageModel {
                        common_ui_state: final(self).common_ui_state,
                        ..*old(self)
                    })
                    &&& final(self).common_ui_state.tells_error(
                        (CommonUiState { loading: false, ..old(self).common_ui_state }),
                        e@,
                    )
                },
            },
    {
        self.common_ui_state.set_as_not_loading();
        match msg {
            StartWorkoutsPageMsg::WorkoutLoaded(workout, exercises) => {
                self.active_session = Some(ActiveSession::start(&workout, exercises));
            },
            StartWorkoutsPageMsg::Saved => {
                self.common_ui_state.show_success("Workout logged successfully!");
            },
            StartWorkoutsPageMsg::Error(e) => {
                self.common_ui_state.show_error(e.as_str());
            },
            StartWorkoutsPageMsg::Deleted => {},
        }
    }

    /// The requests that log the session on the day `date`: the group with
    /// the notes of the session, and an entry for each set that is done.
    /// Nothing without a session.  The loading begins if there is one.
    pub fn log_request(&mut self, date: chrono::NaiveDate) -> (request: Option<
        (WorkoutLogGroupReq, Vec<WorkoutLogReq>),
    >)
        requires
            old(self).active_session is Some ==> old(self).current_workout_id is Some,
        ensures
            final(self).current_workout_id == old(self).current_workout_id,
            final(self).active_session == old(self).active_session,
            final(self).common_ui_state == (CommonUiState {
                loading: old(self).common_ui_state.loading || old(self).active_session is Some,
                ..old(self).common_ui_state
            }),
            match old(self).active_session {
                Some(session) => {
                    &&& request is Some
                    &&& request->Some_0.0.date == date
                    &&& request->Some_0.0.notes == session.description
                    &&& entries_of(request->Some_0.1@) == session_entries(
                        session.exercises@,
                        old(self).current_workout_id->Some_0,
                    )
                },
                None => request is None,
            },
    {
        match &self.active_session {
            Some(session) => {
                let workout_id = match self.current_workout_id {
                    Some(id) => id,
                    None => 0,
                };
                let entries = session.completed_entries(workout_id);
                let group = WorkoutLogGroupReq::new(
                    date,
                    crate::workout::copy_text(&session.description),
                );
                self.common_ui_state.set_as_loading();
                Some((group, entries))
            },
            None => None,
        }
    }

    /// Whether the session can be saved: there is one, and a set of it is
    /// done.
    pub fn valid_to_save(&self) -> (b: bool)
        ensures
            b == (self.active_session is Some && self.active_session->Some_0.can_save()),
    {
        match &self.active_session {
            Some(session) => session.valid_to_save(),
            None => false,
        }
    }
}

} // verus!
