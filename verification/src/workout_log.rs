//! The log of what was done: groups of entries, one group for each day of
//! training, and the statements and pages of the list of groups.

use vstd::prelude::*;
use crate::dates::date_number;
use crate::exercise::{cell_of_text, text_cell};
use crate::workout::copy_text;
use crate::pagination::{
    ascending, in_fetch_order, page_cursors, page_from_rows, page_items, HasId, InvalidParams,
    PaginationParams, PaginationRes,
};
use crate::predicate::{
    all_well_formed, from_clause, option_day, option_text, text_clause, until_clause, Cell,
    CellValue, Clause, Column, Predicate, Record,
};
use crate::query::{
    clauses_binds, clauses_sql, keyset_binds, keyset_sql, page_query, push_predicate, query_binds,
    query_text, SqlBuilder,
};

verus! {

/// A stored entry: one set of one exercise.
#[derive(Debug, Clone, PartialEq, Eq, Hash)]
pub struct WorkoutLogEntity {
    pub id: u32,
    pub workout_id: u32,
    pub workout_exercise_id: u32,
    pub workout_log_group_id: u32,
    pub exercise_name: String,
    pub set_number: u8,
    pub rep_number_or_seconds: u8,
    pub weight: u16,
    pub description: Option<String>,
}

/// A stored group.  `created_at` counts seconds since the start of 1970.
#[derive(Debug, PartialEq, Eq, Hash)]
pub struct WorkoutLogGroupEntity {
    pub id: u32,
    pub created_at: i64,
    pub date: chrono::NaiveDate,
    pub notes: Option<String>,
}

impl Clone for WorkoutLogGroupEntity {
    fn clone(&self) -> (copy: Self)
        ensures
            copy == *self,
    {
        WorkoutLogGroupEntity {
            id: self.id,
            created_at: self.created_at,
            date: self.date,
            notes: copy_text(&self.notes),
        }
    }
}

/// What a caller supplies to open the group of a day.
#[derive(Debug, PartialEq, Eq, Hash)]
pub struct WorkoutLogGroupReq {
    pub date: chrono::NaiveDate,
    pub notes: Option<String>,
}

impl Clone for WorkoutLogGroupReq {
    fn clone(&self) -> (copy: Self)
        ensures
            copy == *self,
    {
        WorkoutLogGroupReq {
            date: self.date,
            notes: copy_text(&self.notes),
        }
    }
}

impl WorkoutLogGroupReq {
    /// The request for the group of the day `date`.
    pub fn new(date: chrono::NaiveDate, notes: Option<String>) -> (req: Self)
        ensures
            req.date == date,
            req.notes == notes,
    {
        WorkoutLogGroupReq { date, notes }
    }
}

/// A group as it is shown.
#[derive(Debug, PartialEq, Eq, Hash)]
pub struct WorkoutLogGroupRes {
    pub id: u32,
    pub date: chrono::NaiveDate,
    pub notes: Option<String>,
}

impl Clone for WorkoutLogGroupRes {
    fn clone(&self) -> (copy: Self)
        ensures
            copy == *self,
    {
        WorkoutLogGroupRes {
            id: self.id,
            date: self.date,
            notes: copy_text(&self.notes),
        }
    }
}

impl WorkoutLogGroupRes {
    /// What is shown of a stored group: everything but its time of creation.
    pub fn from_entity(entity: WorkoutLogGroupEntity) -> (res: Self)
        ensures
            res.id == entity.id,
            res.date == entity.date,
            res.notes == entity.notes,
    {
        WorkoutLogGroupRes { id: entity.id, date: entity.date, notes: entity.notes }
    }
}

/// A group as a list shows it.
#[derive(Debug, PartialEq, Eq, Hash)]
pub struct WorkoutLogGroupPageRes {
    pub id: u32,
    pub date: chrono::NaiveDate,
    pub notes: Option<String>,
}

impl Clone for WorkoutLogGroupPageRes {
    fn clone(&self) -> (copy: Self)
        ensures
            copy == *self,
    {
        WorkoutLogGroupPageRes {
            id: self.id,
            date: self.date,
            notes: copy_text(&self.notes),
        }
    }
}

impl HasId for WorkoutLogGroupPageRes {
    open spec fn spec_id(&self) -> u32 {
        self.id
    }

    fn id(&self) -> (r: u32) {
        self.id
    }
}

impl Record for WorkoutLogGroupPageRes {
    open spec fn spec_cell(&self, column: Column) -> CellValue {
        match column {
            Column::Date => CellValue::Day(date_number(self.date)),
            Column::Notes => text_cell(self.notes),
            _ => CellValue::Null,
        }
    }

    fn cell(&self, column: Column) -> (c: Cell<'_>) {
        match column {
            Column::Date => Cell::Day(self.date),
            Column::Notes => cell_of_text(&self.notes),
            _ => Cell::Null,
        }
    }
}

/// What a caller supplies to log one set.
#[derive(Debug, Clone, PartialEq, Eq, Hash)]
pub struct WorkoutLogReq {
    pub workout_id: u32,
    pub workout_exercise_id: u32,
    pub workout_log_group_id: u32,
    pub exercise_name: String,
    pub set_number: u8,
    pub rep_number_or_seconds: u8,
    pub weight: u16,
    pub description: Option<String>,
}

/// An entry as it is shown.
#[derive(Debug, Clone, PartialEq, Eq, Hash)]
pub struct WorkoutLogRes {
    pub id: u32,
    pub workout_id: u32,
    pub workout_exercise_id: u32,
    pub workout_log_group_id: u32,
    pub set_number: u8,
    pub rep_number_or_seconds: u8,
    pub weight: u16,
    pub description: Option<String>,
}

impl WorkoutLogRes {
    /// What is shown of a stored entry: everything but the name of its
    /// exercise.
    pub fn from_entity(entity: WorkoutLogEntity) -> (res: Self)
        ensures
            res == (WorkoutLogRes {
                id: entity.id,
                workout_id: entity.workout_id,
                workout_exercise_id: entity.workout_exercise_id,
                workout_log_group_id: entity.workout_log_group_id,
                set_number: entity.set_number,
                rep_number_or_seconds: entity.rep_number_or_seconds,
                weight: entity.weight,
                description: entity.description,
            }),
    {
        WorkoutLogRes {
            id: entity.id,
            workout_id: entity.workout_id,
            workout_exercise_id: entity.workout_exercise_id,
            workout_log_group_id: entity.workout_log_group_id,
            set_number: entity.set_number,
            rep_number_or_seconds: entity.rep_number_or_seconds,
            weight: entity.weight,
            description: entity.description,
        }
    }
}

/// What a list of entries is narrowed by.
#[derive(Debug)]
pub struct WorkoutLogFilterReq {
    pub workout_date_gte: Option<chrono::NaiveDate>,
    pub workout_date_lte: Option<chrono::NaiveDate>,
    pub workout_name: Option<String>,
    pub workout_exercise_name: Option<String>,
}

impl Clone for WorkoutLogFilterReq {
    fn clone(&self) -> (copy: Self)
        ensures
            copy == *self,
    {
        WorkoutLogFilterReq {
            workout_date_gte: self.workout_date_gte,
            workout_date_lte: self.workout_date_lte,
            workout_name: copy_text(&self.workout_name),
            workout_exercise_name: copy_text(&self.workout_exercise_name),
        }
    }
}

/// An entry with the day and the names that it belongs to.
#[derive(Debug, PartialEq, Eq, Hash)]
pub struct WorkoutLogDetailRes {
    pub id: u32,
    pub workout_log_group_id: u32,
    pub workout_date: chrono::NaiveDate,
    pub workout_id: u32,
    pub workout_name: String,
    pub workout_exercise_id: u32,
    pub workout_exercise_name: String,
    pub set_number: u8,
    pub rep_number_or_seconds: u8,
    pub weight: u16,
    pub description: Option<String>,
}

impl Clone for WorkoutLogDetailRes {
    fn clone(&self) -> (copy: Self)
        ensures
            copy == *self,
    {
        WorkoutLogDetailRes {
            id: self.id,
            workout_log_group_id: self.workout_log_group_id,
            workout_date: self.workout_date,
            workout_id: self.workout_id,
            workout_name: self.workout_name.clone(),
            workout_exercise_id: self.workout_exercise_id,
            workout_exercise_name: self.workout_exercise_name.clone(),
            set_number: self.set_number,
            rep_number_or_seconds: self.rep_number_or_seconds,
            weight: self.weight,
            description: copy_text(&self.description),
        }
    }
}

impl HasId for WorkoutLogDetailRes {
    open spec fn spec_id(&self) -> u32 {
        self.id
    }

    fn id(&self) -> (r: u32) {
        self.id
    }
}

/// What a list of groups is narrowed by: a first day, a last day, a text
/// in the notes.
#[derive(Debug)]
pub struct WorkoutLogGroupFilterReq {
    pub workout_date_gte: Option<chrono::NaiveDate>,
    pub workout_date_lte: Option<chrono::NaiveDate>,
    pub notes: Option<String>,
}

impl Clone for WorkoutLogGroupFilterReq {
    fn clone(&self) -> (copy: Self)
        ensures
            copy == *self,
    {
        WorkoutLogGroupFilterReq {
            workout_date_gte: self.workout_date_gte,
            workout_date_lte: self.workout_date_lte,
            notes: copy_text(&self.notes),
        }
    }
}

impl Default for WorkoutLogGroupFilterReq {
    fn default() -> (filter: Self)
        ensures
            filter.workout_date_gte is None,
            filter.workout_date_lte is None,
            filter.notes is None,
            filter.clauses() == Seq::<Clause>::empty(),
    {
        let filter = WorkoutLogGroupFilterReq {
            workout_date_gte: None,
            workout_date_lte: None,
            notes: None,
        };
        assert(filter.clauses() =~= Seq::<Clause>::empty());
        filter
    }
}

impl WorkoutLogGroupFilterReq {
    /// Whether no field of the filter is set.
    pub open spec fn is_unset(&self) -> bool {
        &&& self.workout_date_gte is None
        &&& self.workout_date_lte is None
        &&& self.notes is None
    }

    /// The conjunction that the filter stands for.
    pub open spec fn clauses(&self) -> Seq<Clause> {
        from_clause(Column::Date, option_day(self.workout_date_gte)) + until_clause(
            Column::Date,
            option_day(self.workout_date_lte),
        ) + text_clause(Column::Notes, option_text(self.notes))
    }

    /// Compiles the filter into its conjunction.
    pub fn to_predicate(&self) -> (predicate: Predicate)
        ensures
            predicate@ == self.clauses(),
            all_well_formed(predicate@),
    {
        let mut predicate = Predicate::new();
        predicate.and_not_before(Column::Date, self.workout_date_gte);
        predicate.and_not_after(Column::Date, self.workout_date_lte);
        predicate.and_contains(Column::Notes, &self.notes);
        assert(predicate@ =~= self.clauses());
        predicate
    }
}

/// The conjunction of a filter that may be missing: none narrows nothing.
pub open spec fn filter_clauses(filter_req: Option<WorkoutLogGroupFilterReq>) -> Seq<Clause> {
    match filter_req {
        Some(filter) => filter.clauses(),
        None => Seq::empty(),
    }
}

/// Puts every entry into the group `group_id`, as when a group and its
/// entries are stored together.
pub fn assign_log_group(logs: &mut Vec<WorkoutLogReq>, group_id: u32)
    ensures
        final(logs)@.len() == old(logs)@.len(),
        forall|i: int|
            0 <= i < old(logs)@.len() ==> #[trigger] final(logs)@[i] == (WorkoutLogReq {
                workout_log_group_id: group_id,
                ..old(logs)@[i]
            }),
{
    let mut assigned: Vec<WorkoutLogReq> = Vec::new();
    let ghost before = logs@;
    crate::pagination::reverse_rows(logs);
    while logs.len() > 0
        invariant
            assigned@.len() + logs@.len() == before.len(),
            logs@ == before.reverse().take(logs@.len() as int),
            forall|i: int|
                0 <= i < assigned@.len() ==> #[trigger] assigned@[i] == (WorkoutLogReq {
                    workout_log_group_id: group_id,
                    ..before[i]
                }),
        decreases logs@.len(),
    {
        match logs.pop() {
            Some(log) => {
                let mut log = log;
                log.workout_log_group_id = group_id;
                assigned.push(log);
            },
            None => {},
        }
    }
    *logs = assigned;
}

/// The statements and pages of the list of groups.
#[derive(Debug, Clone, Copy)]
pub struct WorkoutLogRepo {}

impl WorkoutLogRepo {
    /// A handle on the statements; it holds nothing.
    pub fn new() -> (repo: Self)
        ensures
            repo == (WorkoutLogRepo {  }),
    {
        WorkoutLogRepo {  }
    }

    /// Appends the conjunction of the filter to a statement.
    pub fn log_group_pagination_filters(
        &self,
        filter_req: &Option<WorkoutLogGroupFilterReq>,
        qb: &mut SqlBuilder<'_>,
    )
        ensures
            query_text(*final(qb)) == query_text(*old(qb)) + clauses_sql(
                filter_clauses(*filter_req),
            ),
            query_binds(*final(qb)) == query_binds(*old(qb)) + clauses_binds(
                filter_clauses(*filter_req),
            ),
    {
        match filter_req {
            Some(filter) => {
                let predicate = filter.to_predicate();
                push_predicate(qb, &predicate);
            },
            None => {
                assert(query_text(*qb) =~= query_text(*old(qb)) + clauses_sql(
                    filter_clauses(*filter_req),
                ));
                assert(query_binds(*qb) =~= query_binds(*old(qb)) + clauses_binds(
                    filter_clauses(*filter_req),
                ));
            },
        }
    }

    /// The statement that fetches the window of groups for a request, or
    /// the fault of the request.
    pub fn page_query<'a>(
        &self,
        filter_req: &Option<WorkoutLogGroupFilterReq>,
        params: &PaginationParams,
    ) -> (res: Result<SqlBuilder<'a>, InvalidParams>)
        ensures
            match params.check_spec() {
                Ok(_) => res is Ok && query_text(res->Ok_0)
                    == "SELECT * FROM workout_log_groups WHERE 1=1"@ + clauses_sql(
                    filter_clauses(*filter_req),
                ) + keyset_sql(*params) && query_binds(res->Ok_0) == clauses_binds(
                    filter_clauses(*filter_req),
                ) + keyset_binds(*params),
                Err(e) => res is Err && res->Err_0 == e,
            },
    {
        let predicate = match filter_req {
            Some(filter) => filter.to_predicate(),
            None => Predicate::new(),
        };
        page_query("SELECT * FROM workout_log_groups WHERE 1=1", &predicate, params)
    }

    /// The page of groups that the fetched window yields.  Its items rise
    /// in identifier if the store returned the window in the order of the
    /// walk.
    pub fn page(&self, params: &PaginationParams, rows: Vec<WorkoutLogGroupPageRes>) -> (page:
        PaginationRes<WorkoutLogGroupPageRes>)
        ensures
            page.items@ == page_items(*params, rows@),
            page.next_cursor == page_cursors(*params, rows@).next_cursor,
            page.prev_cursor == page_cursors(*params, rows@).prev_cursor,
            in_fetch_order(*params, rows@) ==> ascending(page.items@),
    {
        page_from_rows(params, rows)
    }
}

} // verus!
