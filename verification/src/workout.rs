//! Workouts and the exercises planned in them: what is stored, what is
//! asked for and shown, and the statements and pages of the list of
//! workouts.

use vstd::prelude::*;
use vstd::string::StringExecFns;
use crate::enums::{Band, Equipment};
use crate::pagination::{
    ascending, get_cursors, in_fetch_order, page_cursors, page_items, HasId, InvalidParams,
    PaginationParams, PaginationRes,
};
use crate::predicate::{
    all_well_formed, flag_clause, option_text, text_clause, Cell, CellValue, Clause, Column,
    Predicate, Record,
};
use crate::exercise::{cell_of_text, text_cell};
use crate::query::{
    clauses_binds, clauses_sql, keyset_binds, keyset_sql, page_query, push_predicate, query_binds,
    query_text, SqlBuilder,
};
use crate::text::{decimal_text, push_decimal};

verus! {

/// A stored exercise of a workout.  `created_at` counts seconds since the
/// start of 1970.
#[derive(Debug, Clone, PartialEq, Eq, Hash)]
pub struct WorkoutExerciseEntity {
    pub id: u32,
    pub created_at: i64,
    pub workout_id: u32,
    pub name: String,
    pub code: String,
    pub sets_target: u8,
    pub reps_or_seconds_target: u8,
    pub working_weight: u16,
    pub rest_period_seconds: u8,
    pub tempo: String,
    pub emom: bool,
    pub equipments: Vec<Equipment>,
    pub bands: Vec<Band>,
    pub description: Option<String>,
}

/// A stored workout.  `created_at` counts seconds since the start of 1970.
#[derive(Debug, Clone, PartialEq, Eq, Hash)]
pub struct WorkoutEntity {
    pub id: u32,
    pub created_at: i64,
    pub name: String,
    pub description: Option<String>,
    pub active: bool,
}

impl HasId for WorkoutEntity {
    open spec fn spec_id(&self) -> u32 {
        self.id
    }

    fn id(&self) -> (r: u32) {
        self.id
    }
}

/// What a caller supplies to plan an exercise in a workout.
#[derive(Debug, Clone, PartialEq, Eq, Hash)]
pub struct WorkoutExerciseReq {
    pub workout_id: u32,
    pub name: String,
    pub code: String,
    pub sets_target: u8,
    pub reps_or_seconds_target: u8,
    pub working_weight: u16,
    pub rest_period_seconds: u8,
    pub tempo: String,
    pub emom: bool,
    pub equipments: Vec<Equipment>,
    pub bands: Vec<Band>,
    pub description: Option<String>,
}

/// An exercise of a workout as it is shown.
#[derive(Debug, Clone, PartialEq, Eq, Hash)]
pub struct WorkoutExerciseRes {
    pub id: u32,
    pub workout_id: u32,
    pub name: String,
    pub code: String,
    pub sets_target: u8,
    pub reps_or_seconds_target: u8,
    pub working_weight: u16,
    pub rest_period_seconds: u8,
    pub tempo: String,
    pub emom: bool,
    pub equipments: Vec<Equipment>,
    pub bands: Vec<Band>,
    pub description: Option<String>,
}

/// The sentence that tells a rest of so many seconds in minutes and
/// seconds.
pub open spec fn rest_text(seconds: nat) -> Seq<char> {
    decimal_text(seconds / 60) + "m "@ + decimal_text(seconds % 60) + "s rest"@
}

/// Builds `rest_text`.
pub fn rest_sentence(seconds: u8) -> (text: String)
    ensures
        text@ == rest_text(seconds as nat),
{
    let mut text = String::new();
    push_decimal(&mut text, (seconds / 60) as u32);
    text.append("m ");
    push_decimal(&mut text, (seconds % 60) as u32);
    text.append("s rest");
    assert(text@ =~= rest_text(seconds as nat));
    text
}

/// Something that rests for a number of seconds between sets.
pub trait RestMinuteAndSeconds {
    spec fn rest_seconds(&self) -> nat;

    fn rest_minutes_and_seconds(&self) -> (text: String)
        ensures
            text@ == rest_text(self.rest_seconds()),
    ;
}

impl RestMinuteAndSeconds for WorkoutExerciseRes {
    open spec fn rest_seconds(&self) -> nat {
        self.rest_period_seconds as nat
    }

    fn rest_minutes_and_seconds(&self) -> (text: String) {
        rest_sentence(self.rest_period_seconds)
    }
}

impl WorkoutExerciseRes {
    /// The target in words: sets, then repetitions or seconds, then weight.
    pub open spec fn target_text(&self) -> Seq<char> {
        decimal_text(self.sets_target as nat) + "x"@ + decimal_text(
            self.reps_or_seconds_target as nat,
        ) + " @ "@ + decimal_text(self.working_weight as nat)
    }

    /// Builds `target_text`.
    pub fn target(&self) -> (text: String)
        ensures
            text@ == self.target_text(),
    {
        let mut text = String::new();
        push_decimal(&mut text, self.sets_target as u32);
        text.append("x");
        push_decimal(&mut text, self.reps_or_seconds_target as u32);
        text.append(" @ ");
        push_decimal(&mut text, self.working_weight as u32);
        assert(text@ =~= self.target_text());
        text
    }

    /// What is shown of a stored exercise: everything but its time of
    /// creation.
    pub fn from_entity(entity: WorkoutExerciseEntity) -> (res: WorkoutExerciseRes)
        ensures
            res.id == entity.id,
            res.workout_id == entity.workout_id,
            res.name == entity.name,
            res.code == entity.code,
            res.sets_target == entity.sets_target,
            res.reps_or_seconds_target == entity.reps_or_seconds_target,
            res.working_weight == entity.working_weight,
            res.rest_period_seconds == entity.rest_period_seconds,
            res.tempo == entity.tempo,
            res.emom == entity.emom,
            res.equipments == entity.equipments,
            res.bands == entity.bands,
            res.description == entity.description,
    {
        WorkoutExerciseRes {
            id: entity.id,
            workout_id: entity.workout_id,
            name: entity.name,
            code: entity.code,
            sets_target: entity.sets_target,
            reps_or_seconds_target: entity.reps_or_seconds_target,
            working_weight: entity.working_weight,
            rest_period_seconds: entity.rest_period_seconds,
            tempo: entity.tempo,
            emom: entity.emom,
            equipments: entity.equipments,
            bands: entity.bands,
            description: entity.description,
        }
    }
}

/// What a caller supplies to create or change a workout.
#[derive(Debug, Clone, PartialEq, Eq, Hash)]
pub struct WorkoutReq {
    pub name: String,
    pub description: Option<String>,
    pub active: bool,
}

/// A workout as it is shown.
#[derive(Debug, Clone, PartialEq, Eq, Hash)]
pub struct WorkoutRes {
    pub id: u32,
    pub name: String,
    pub description: Option<String>,
    pub active: bool,
}

impl HasId for WorkoutRes {
    open spec fn spec_id(&self) -> u32 {
        self.id
    }

    fn id(&self) -> (r: u32) {
        self.id
    }
}

impl Record for WorkoutRes {
    open spec fn spec_cell(&self, column: Column) -> CellValue {
        match column {
            Column::Name => CellValue::Text(self.name@),
            Column::Description => text_cell(self.description),
            Column::Active => CellValue::Flag(self.active),
            _ => CellValue::Null,
        }
    }

    fn cell(&self, column: Column) -> (c: Cell<'_>) {
        match column {
            Column::Name => Cell::Text(self.name.as_str()),
            Column::Description => cell_of_text(&self.description),
            Column::Active => Cell::Flag(self.active),
            _ => Cell::Null,
        }
    }
}

impl WorkoutRes {
    /// What is shown of a stored workout: everything but its time of
    /// creation.
    pub open spec fn of_entity(entity: WorkoutEntity) -> WorkoutRes {
        WorkoutRes {
            id: entity.id,
            name: entity.name,
            description: entity.description,
            active: entity.active,
        }
    }

    /// What is shown of a stored workout: everything but its time of
    /// creation.
    pub fn from_entity(workout_entity: WorkoutEntity) -> (res: WorkoutRes)
        ensures
            res == Self::of_entity(workout_entity),
    {
        WorkoutRes {
            id: workout_entity.id,
            name: workout_entity.name,
            description: workout_entity.description,
            active: workout_entity.active,
        }
    }
}

/// What a caller supplies to create or change a plan: a named set of
/// workouts, of which one is in use at a time.
#[derive(Debug, Clone, PartialEq, Eq, Hash)]
pub struct WorkoutPlanReq {
    pub name: String,
    pub description: Option<String>,
    pub currently_using: bool,
}

/// A plan as it is shown.
#[derive(Debug, Clone, PartialEq, Eq, Hash)]
pub struct WorkoutPlanRes {
    pub id: u32,
    pub name: String,
    pub description: Option<String>,
    pub currently_using: bool,
}

/// What a list of workouts is narrowed by.
#[derive(Debug, Clone)]
pub struct WorkoutsFilterReq {
    pub name: Option<String>,
    pub description: Option<String>,
    pub active: Option<bool>,
}

impl Default for WorkoutsFilterReq {
    fn default() -> (filter: Self)
        ensures
            filter.name is None,
            filter.description is None,
            filter.active is None,
            filter.clauses() == Seq::<Clause>::empty(),
    {
        let filter = WorkoutsFilterReq { name: None, description: None, active: None };
        assert(filter.clauses() =~= Seq::<Clause>::empty());
        filter
    }
}

impl WorkoutReq {
    /// Whether the request is the one that an empty form stands for: an
    /// active workout without a name.
    pub open spec fn is_empty_form(self) -> bool {
        &&& self.name@ == Seq::<char>::empty()
        &&& self.description is None
        &&& self.active
    }
}

impl WorkoutExerciseReq {
    /// Whether the request is the one that an empty form for an exercise
    /// of the workout `workout_id` stands for: three sets of ten with a
    /// minute of rest.
    pub open spec fn is_empty_form(self, workout_id: u32) -> bool {
        &&& self.workout_id == workout_id
        &&& self.name@ == Seq::<char>::empty()
        &&& self.code@ == Seq::<char>::empty()
        &&& self.sets_target == 3
        &&& self.reps_or_seconds_target == 10
        &&& self.working_weight == 0
        &&& self.rest_period_seconds == 60
        &&& self.tempo@ == "0000"@
        &&& !self.emom
        &&& self.equipments@ == Seq::<Equipment>::empty()
        &&& self.bands@ == Seq::<Band>::empty()
        &&& self.description is None
    }
}

impl WorkoutsFilterReq {
    /// Whether no field of the filter is set.
    pub open spec fn is_unset(&self) -> bool {
        &&& self.name is None
        &&& self.description is None
        &&& self.active is None
    }

    /// The conjunction that the filter stands for.
    pub open spec fn clauses(&self) -> Seq<Clause> {
        text_clause(Column::Name, option_text(self.name)) + text_clause(
            Column::Description,
            option_text(self.description),
        ) + flag_clause(Column::Active, self.active)
    }

    /// Compiles the filter into its conjunction.
    pub fn to_predicate(&self) -> (predicate: Predicate)
        ensures
            predicate@ == self.clauses(),
            all_well_formed(predicate@),
    {
        let mut predicate = Predicate::new();
        predicate.and_contains(Column::Name, &self.name);
        predicate.and_contains(Column::Description, &self.description);
        predicate.and_is(Column::Active, self.active);
        assert(predicate@ =~= self.clauses());
        predicate
    }
}

/// The conjunction of a filter that may be missing: none narrows nothing.
pub open spec fn filter_clauses(filter_req: Option<WorkoutsFilterReq>) -> Seq<Clause> {
    match filter_req {
        Some(filter) => filter.clauses(),
        None => Seq::empty(),
    }
}

/// The request that an empty form stands for: an active workout without a
/// name.
pub fn default_workout_req() -> (req: WorkoutReq)
    ensures
        req.name@ == Seq::<char>::empty(),
        req.description is None,
        req.active,
{
    WorkoutReq { name: String::new(), description: None, active: true }
}

/// The request that an empty form for an exercise of a workout stands
/// for: three sets of ten with a minute of rest.
pub fn default_exercise_req(workout_id: u32) -> (req: WorkoutExerciseReq)
    ensures
        req.workout_id == workout_id,
        req.name@ == Seq::<char>::empty(),
        req.code@ == Seq::<char>::empty(),
        req.sets_target == 3,
        req.reps_or_seconds_target == 10,
        req.working_weight == 0,
        req.rest_period_seconds == 60,
        req.tempo@ == "0000"@,
        !req.emom,
        req.equipments@ == Seq::<Equipment>::empty(),
        req.bands@ == Seq::<Band>::empty(),
        req.description is None,
{
    WorkoutExerciseReq {
        workout_id,
        name: String::new(),
        code: String::new(),
        sets_target: 3,
        reps_or_seconds_target: 10,
        working_weight: 0,
        rest_period_seconds: 60,
        tempo: "0000".to_owned(),
        emom: false,
        equipments: Vec::new(),
        bands: Vec::new(),
        description: None,
    }
}

/// A copy of a text that may be missing.
pub fn copy_text(text: &Option<String>) -> (copy: Option<String>)
    ensures
        copy == *text,
{
    match text {
        Some(t) => Some(t.clone()),
        None => None,
    }
}

/// A copy of a vector of plain values.
pub fn copy_values<T: Copy>(values: &Vec<T>) -> (copy: Vec<T>)
    ensures
        copy@ == values@,
{
    let mut copy: Vec<T> = Vec::new();
    let mut i: usize = 0;
    while i < values.len()
        invariant
            i <= values@.len(),
            copy@ == values@.take(i as int),
        decreases values@.len() - i,
    {
        copy.push(values[i]);
        i = i + 1;
        assert(copy@ =~= values@.take(i as int));
    }
    assert(values@.take(i as int) =~= values@);
    copy
}

/// The request that fills a form with a workout.
pub fn workout_to_req(res: &WorkoutRes) -> (req: WorkoutReq)
    ensures
        req == (WorkoutReq { name: res.name, description: res.description, active: res.active }),
{
    WorkoutReq {
        name: res.name.clone(),
        description: copy_text(&res.description),
        active: res.active,
    }
}

/// The request that fills a form with an exercise of a workout.  The form
/// starts with the every-minute mode switched off.
pub fn exercise_res_to_req(res: &WorkoutExerciseRes) -> (req: WorkoutExerciseReq)
    ensures
        req.workout_id == res.workout_id,
        req.name == res.name,
        req.code == res.code,
        req.sets_target == res.sets_target,
        req.reps_or_seconds_target == res.reps_or_seconds_target,
        req.working_weight == res.working_weight,
        req.rest_period_seconds == res.rest_period_seconds,
        req.tempo == res.tempo,
        !req.emom,
        req.equipments@ == res.equipments@,
        req.bands@ == res.bands@,
        req.description == res.description,
{
    WorkoutExerciseReq {
        workout_id: res.workout_id,
        name: res.name.clone(),
        code: res.code.clone(),
        sets_target: res.sets_target,
        reps_or_seconds_target: res.reps_or_seconds_target,
        working_weight: res.working_weight,
        rest_period_seconds: res.rest_period_seconds,
        tempo: res.tempo.clone(),
        emom: false,
        equipments: copy_values(&res.equipments),
        bands: copy_values(&res.bands),
        description: copy_text(&res.description),
    }
}

/// Whether two requests ask for the same: field for field, and the lists
/// item for item.
pub open spec fn same_request(left: WorkoutExerciseReq, right: WorkoutExerciseReq) -> bool {
    &&& left.workout_id == right.workout_id
    &&& left.name == right.name
    &&& left.code == right.code
    &&& left.sets_target == right.sets_target
    &&& left.reps_or_seconds_target == right.reps_or_seconds_target
    &&& left.working_weight == right.working_weight
    &&& left.rest_period_seconds == right.rest_period_seconds
    &&& left.tempo == right.tempo
    &&& left.emom == right.emom
    &&& left.equipments@ == right.equipments@
    &&& left.bands@ == right.bands@
    &&& left.description == right.description
}

/// A copy of a request.
pub fn copy_exercise_req(req: &WorkoutExerciseReq) -> (copy: WorkoutExerciseReq)
    ensures
        same_request(copy, *req),
{
    WorkoutExerciseReq {
        workout_id: req.workout_id,
        name: req.name.clone(),
        code: req.code.clone(),
        sets_target: req.sets_target,
        reps_or_seconds_target: req.reps_or_seconds_target,
        working_weight: req.working_weight,
        rest_period_seconds: req.rest_period_seconds,
        tempo: req.tempo.clone(),
        emom: req.emom,
        equipments: copy_values(&req.equipments),
        bands: copy_values(&req.bands),
        description: copy_text(&req.description),
    }
}

/// Puts every exercise into the workout `workout_id`, as when a workout
/// and its exercises are stored together.
pub fn assign_workout(exercises: &mut Vec<WorkoutExerciseReq>, workout_id: u32)
    ensures
        final(exercises)@.len() == old(exercises)@.len(),
        forall|i: int|
            0 <= i < old(exercises)@.len() ==> #[trigger] final(exercises)@[i] == (
            WorkoutExerciseReq { workout_id, ..old(exercises)@[i] }),
{
    let mut assigned: Vec<WorkoutExerciseReq> = Vec::new();
    let ghost before = exercises@;
    let n = exercises.len();
    crate::pagination::reverse_rows(exercises);
    while exercises.len() > 0
        invariant
            n == before.len(),
            assigned@.len() + exercises@.len() == n,
            exercises@ == before.reverse().take(exercises@.len() as int),
            forall|i: int|
                0 <= i < assigned@.len() ==> #[trigger] assigned@[i] == (WorkoutExerciseReq {
                    workout_id,
                    ..before[i]
                }),
        decreases exercises@.len(),
    {
        match exercises.pop() {
            Some(req) => {
                let mut req = req;
                req.workout_id = workout_id;
                assigned.push(req);
            },
            None => {},
        }
    }
    *exercises = assigned;
}

/// The statements and pages of the list of workouts.
#[derive(Debug, Clone, Copy)]
pub struct WorkoutRepo {}

impl WorkoutRepo {
    /// A handle on the statements; it holds nothing.
    pub fn new() -> (repo: Self)
        ensures
            repo == (WorkoutRepo {  }),
    {
        WorkoutRepo {  }
    }

    /// Appends the conjunction of the filter to a statement.
    pub fn pagination_filters(
        &self,
        filter_req: &Option<WorkoutsFilterReq>,
        qb: &mut SqlBuilder<'_>,
    )
        ensures
            query_text(*final(qb)) == query_text(*old(qb)) + clauses_sql(
                filter_clauses(*filter_req),
            ),
            query_binds(*final(qb)) == query_binds(*old(qb)) + clauses_binds(
                filter_clauses(*filter_req),
            ),
    {
        match filter_req {
            Some(filter) => {
                let predicate = filter.to_predicate();
                push_predicate(qb, &predicate);
            },
            None => {
                assert(query_text(*qb) =~= query_text(*old(qb)) + clauses_sql(
                    filter_clauses(*filter_req),
                ));
                assert(query_binds(*qb) =~= query_binds(*old(qb)) + clauses_binds(
                    filter_clauses(*filter_req),
                ));
            },
        }
    }

    /// The statement that fetches the window of workouts for a request, or
    /// the fault of the request.
    pub fn page_query<'a>(
        &self,
        filter_req: &Option<WorkoutsFilterReq>,
        params: &PaginationParams,
    ) -> (res: Result<SqlBuilder<'a>, InvalidParams>)
        ensures
            match params.check_spec() {
                Ok(_) => res is Ok && query_text(res->Ok_0) == "SELECT * FROM workouts WHERE 1=1"@
                    + clauses_sql(filter_clauses(*filter_req)) + keyset_sql(*params)
                    && query_binds(res->Ok_0) == clauses_binds(filter_clauses(*filter_req))
                    + keyset_binds(*params),
                Err(e) => res is Err && res->Err_0 == e,
            },
    {
        let predicate = match filter_req {
            Some(filter) => filter.to_predicate(),
            None => Predicate::new(),
        };
        page_query("SELECT * FROM workouts WHERE 1=1", &predicate, params)
    }

    /// The page of workouts that the fetched window yields.  Its items rise
    /// in identifier if the store returned the window in the order of the
    /// walk.
    pub fn page(&self, params: &PaginationParams, rows: Vec<WorkoutEntity>) -> (page:
        PaginationRes<WorkoutRes>)
        ensures
            page.items@ == page_items(*params, rows@).map_values(
                |e: WorkoutEntity| WorkoutRes::of_entity(e),
            ),
            page.next_cursor == page_cursors(*params, rows@).next_cursor,
            page.prev_cursor == page_cursors(*params, rows@).prev_cursor,
            in_fetch_order(*params, rows@) ==> ascending(page.items@),
    {
        let mut rows = rows;
        let cursors = get_cursors(params, &mut rows);
        let ghost kept = rows@;
        let mut items: Vec<WorkoutRes> = Vec::new();
        crate::pagination::reverse_rows(&mut rows);
        while rows.len() > 0
            invariant
                items@.len() + rows@.len() == kept.len(),
                rows@ == kept.reverse().take(rows@.len() as int),
                forall|i: int|
                    0 <= i < items@.len() ==> #[trigger] items@[i] == WorkoutRes::of_entity(
                        kept[i],
                    ),
            decreases rows@.len(),
        {
            match rows.pop() {
                Some(row) => {
                    items.push(WorkoutRes::from_entity(row));
                },
                None => {},
            }
        }
        assert(items@ =~= kept.map_values(|e: WorkoutEntity| WorkoutRes::of_entity(e)));
        assert(ascending(kept) ==> ascending(items@)) by {
            assert(forall|i: int| 0 <= i < items@.len() ==> items@[i].spec_id() == kept[i].spec_id());
        }
        PaginationRes::new(items, cursors)
    }
}

} // verus!
