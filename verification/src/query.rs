//! The statement that asks a SQLite store for one window of rows.
//!
//! The statement is put together in a `sqlx::QueryBuilder`, which keeps the
//! SQL text apart from the values bound to its placeholders.  Of the builder
//! this module states what `sqlx` documents: a pushed fragment is appended to
//! the text as it is, and a bound value is appended to the values while the
//! text receives one `?`.

use vstd::prelude::*;
use sqlx::Execute;
use crate::dates::{date_number, day_text};
use crate::pagination::{InvalidParams, PaginationDirection, PaginationParams};
use crate::predicate::{Clause, Condition, Predicate};
use crate::text::{like_pattern, like_pattern_of};

verus! {

/// `sqlx::sqlite::SqliteArguments`, taken as it is: the values bound to a
/// statement, handed on to `sqlx` unread.
#[verifier::external_type_specification]
#[verifier::external_body]
pub struct ExSqliteArguments<'q>(sqlx::sqlite::SqliteArguments<'q>);

/// A value bound to a placeholder, as SQLite receives it.  A date is bound
/// as the text of its day.
pub enum BoundValue {
    Integer(int),
    Text(Seq<char>),
    Flag(bool),
}

/// A statement under construction.  It holds a `sqlx::QueryBuilder` for
/// SQLite that has not been built yet.
#[verifier::external_body]
pub struct SqlBuilder<'a> {
    inner: sqlx::QueryBuilder<'a, sqlx::Sqlite>,
}

/// The SQL text that the builder holds.
pub uninterp spec fn query_text(builder: SqlBuilder<'_>) -> Seq<char>;

/// The values that the builder holds, in the order of their placeholders.
pub uninterp spec fn query_binds(builder: SqlBuilder<'_>) -> Seq<BoundValue>;

/// The values that a set of arguments holds, in the order of their
/// placeholders.
pub uninterp spec fn bound_values(arguments: sqlx::sqlite::SqliteArguments<'_>) -> Seq<
    BoundValue,
>;

/// `QueryBuilder::new`: a builder whose text is `init` and which holds no
/// value.
#[verifier::external_body]
fn builder_new<'a>(init: &str) -> (builder: SqlBuilder<'a>)
    ensures
        query_text(builder) == init@,
        query_binds(builder) == Seq::<BoundValue>::empty(),
{
    SqlBuilder { inner: sqlx::QueryBuilder::new(init) }
}

/// `QueryBuilder::push` with a string: the string is appended to the text,
/// the values stay.
#[verifier::external_body]
fn push_sql(builder: &mut SqlBuilder<'_>, sql: &str)
    ensures
        query_text(*final(builder)) == query_text(*old(builder)) + sql@,
        query_binds(*final(builder)) == query_binds(*old(builder)),
{
    builder.inner.push(sql);
}

/// `QueryBuilder::push_bind` with a `u32`: the number is appended to the
/// values, and `?` to the text.
#[verifier::external_body]
fn bind_number(builder: &mut SqlBuilder<'_>, value: u32)
    ensures
        query_text(*final(builder)) == query_text(*old(builder)) + "?"@,
        query_binds(*final(builder)) == query_binds(*old(builder)).push(
            BoundValue::Integer(value as int),
        ),
{
    builder.inner.push_bind(value);
}

/// `QueryBuilder::push_bind` with a `String`: the text is appended to the
/// values, and `?` to the text of the statement.
#[verifier::external_body]
fn bind_text(builder: &mut SqlBuilder<'_>, value: String)
    ensures
        query_text(*final(builder)) == query_text(*old(builder)) + "?"@,
        query_binds(*final(builder)) == query_binds(*old(builder)).push(BoundValue::Text(value@)),
{
    builder.inner.push_bind(value);
}

/// `QueryBuilder::push_bind` with a `bool`: the flag is appended to the
/// values, and `?` to the text.
#[verifier::external_body]
fn bind_flag(builder: &mut SqlBuilder<'_>, value: bool)
    ensures
        query_text(*final(builder)) == query_text(*old(builder)) + "?"@,
        query_binds(*final(builder)) == query_binds(*old(builder)).push(BoundValue::Flag(value)),
{
    builder.inner.push_bind(value);
}

/// `QueryBuilder::push_bind` with a `NaiveDate`: the text of the date in
/// the form `%F`, which is how `sqlx` encodes a date for SQLite, is
/// appended to the values, and `?` to the text of the statement.
#[verifier::external_body]
fn bind_day(builder: &mut SqlBuilder<'_>, value: chrono::NaiveDate)
    ensures
        query_text(*final(builder)) == query_text(*old(builder)) + "?"@,
        query_binds(*final(builder)) == query_binds(*old(builder)).push(
            BoundValue::Text(day_text(date_number(value))),
        ),
{
    builder.inner.push_bind(value);
}

/// `QueryBuilder::sql`: the text as it stands.
#[verifier::external_body]
fn builder_sql(builder: &SqlBuilder<'_>) -> (sql: String)
    ensures
        sql@ == query_text(*builder),
{
    builder.inner.sql().to_string()
}

/// `QueryBuilder::build`, then `Execute::take_arguments` of the query: the
/// values that were bound, in their order.  A builder that has not been
/// built hands them out, and no builder here has been: the borrow that
/// this call takes lasts as long as the builder.  The builder is spent by
/// it.
#[verifier::external_body]
fn builder_arguments<'a>(builder: &'a mut SqlBuilder<'a>) -> (arguments: Option<
    sqlx::sqlite::SqliteArguments<'a>,
>)
    ensures
        arguments is Some,
        bound_values(arguments->Some_0) == query_binds(*old(builder)),
{
    builder.inner.build().take_arguments().ok().flatten()
}

/// A finished statement: its text and the values for its placeholders, to
/// be handed to `sqlx::query_as_with`.
pub struct Statement<'a> {
    pub sql: String,
    pub arguments: sqlx::sqlite::SqliteArguments<'a>,
}

impl<'a> SqlBuilder<'a> {
    /// A statement that begins with `init`.
    pub fn new(init: &str) -> (builder: SqlBuilder<'a>)
        ensures
            query_text(builder) == init@,
            query_binds(builder) == Seq::<BoundValue>::empty(),
    {
        builder_new(init)
    }

    /// The statement as it stands.  The builder is spent by it.
    pub fn finish(&'a mut self) -> (statement: Statement<'a>)
        ensures
            statement.sql@ == query_text(*old(self)),
            bound_values(statement.arguments) == query_binds(*old(self)),
    {
        let sql = builder_sql(self);
        let arguments = builder_arguments(self).unwrap();
        Statement { sql, arguments }
    }
}

/// `n` placeholders with a comma and a blank between them.
pub open spec fn placeholders(n: nat) -> Seq<char>
    decreases n,
{
    if n == 0 {
        Seq::empty()
    } else if n == 1 {
        "?"@
    } else {
        placeholders((n - 1) as nat) + ", "@ + "?"@
    }
}

/// The texts as values to bind.
pub open spec fn text_values(values: Seq<Seq<char>>) -> Seq<BoundValue> {
    values.map_values(|v: Seq<char>| BoundValue::Text(v))
}

/// The SQL of one clause.  A search text goes into a `LIKE` pattern with
/// `\` as the escape character, so that the store reads every character of
/// it literally.
pub open spec fn clause_sql(clause: Clause) -> Seq<char> {
    match clause {
        Clause::Contains { column, .. } => " AND "@ + column.spec_sql_name() + " LIKE "@ + "?"@
            + " ESCAPE '\\'"@,
        Clause::OneOf { column, values } => " AND "@ + column.spec_sql_name() + " IN ("@
            + placeholders(values.len()) + ")"@,
        Clause::Is { column, .. } => " AND "@ + column.spec_sql_name() + " = "@ + "?"@,
        Clause::NotBefore { column, .. } => " AND "@ + column.spec_sql_name() + " >= "@ + "?"@,
        Clause::NotAfter { column, .. } => " AND "@ + column.spec_sql_name() + " <= "@ + "?"@,
    }
}

/// The values that the SQL of one clause needs, in the order of its
/// placeholders.
pub open spec fn clause_binds(clause: Clause) -> Seq<BoundValue> {
    match clause {
        Clause::Contains { text, .. } => seq![BoundValue::Text(like_pattern(text))],
        Clause::OneOf { values, .. } => text_values(values),
        Clause::Is { flag, .. } => seq![BoundValue::Flag(flag)],
        Clause::NotBefore { day, .. } => seq![BoundValue::Text(day_text(day))],
        Clause::NotAfter { day, .. } => seq![BoundValue::Text(day_text(day))],
    }
}

/// The SQL of a conjunction: the SQL of its clauses, one after the other.
pub open spec fn clauses_sql(clauses: Seq<Clause>) -> Seq<char>
    decreases clauses.len(),
{
    if clauses.len() == 0 {
        Seq::empty()
    } else {
        clauses_sql(clauses.drop_last()) + clause_sql(clauses.last())
    }
}

/// The values of a conjunction: the values of its clauses, one after the
/// other.
pub open spec fn clauses_binds(clauses: Seq<Clause>) -> Seq<BoundValue>
    decreases clauses.len(),
{
    if clauses.len() == 0 {
        Seq::empty()
    } else {
        clauses_binds(clauses.drop_last()) + clause_binds(clauses.last())
    }
}

/// The SQL that bounds, orders and limits a window.
pub open spec fn keyset_sql(params: PaginationParams) -> Seq<char> {
    match params.direction {
        PaginationDirection::Forward => (if params.cursor is Some {
            " AND id > "@ + "?"@
        } else {
            Seq::empty()
        }) + " ORDER BY id ASC LIMIT "@ + "?"@,
        PaginationDirection::Backward => (if params.cursor is Some {
            " AND id < "@ + "?"@
        } else {
            Seq::empty()
        }) + " ORDER BY id DESC LIMIT "@ + "?"@,
    }
}

/// The values for `keyset_sql`: the cursor, if there is one, and the size of
/// the window, which is one more than the limit.
pub open spec fn keyset_binds(params: PaginationParams) -> Seq<BoundValue> {
    (match params.cursor {
        Some(c) => seq![BoundValue::Integer(c as int)],
        None => Seq::empty(),
    }).push(BoundValue::Integer(params.window_size() as int))
}

fn push_placeholders(builder: &mut SqlBuilder<'_>, values: &Vec<String>)
    ensures
        query_text(*final(builder)) == query_text(*old(builder)) + placeholders(values@.len()),
        query_binds(*final(builder)) == query_binds(*old(builder)) + text_values(
            crate::predicate::texts(values@),
        ),
{
    let ghost text0 = query_text(*builder);
    let ghost binds0 = query_binds(*builder);
    let ghost all = crate::predicate::texts(values@);
    let mut i: usize = 0;
    assert(query_text(*builder) =~= text0 + placeholders(0));
    assert(query_binds(*builder) =~= binds0 + text_values(all.take(0)));
    while i < values.len()
        invariant
            i <= values@.len(),
            all == crate::predicate::texts(values@),
            query_text(*builder) == text0 + placeholders(i as nat),
            query_binds(*builder) == binds0 + text_values(all.take(i as int)),
        decreases values@.len() - i,
    {
        if i > 0 {
            push_sql(builder, ", ");
        }
        bind_text(builder, values[i].clone());
        proof {
            let j = (i + 1) as nat;
            if i == 0 {
                assert(text0 + placeholders(0) + "?"@ =~= text0 + placeholders(1));
            } else {
                assert(text0 + placeholders(i as nat) + ", "@ + "?"@ =~= text0 + placeholders(j));
            }
            assert(all.take(i + 1) =~= all.take(i as int).push(all[i as int]));
            assert(text_values(all.take(i + 1)) =~= text_values(all.take(i as int)).push(
                BoundValue::Text(all[i as int]),
            ));
            assert((binds0 + text_values(all.take(i as int))).push(BoundValue::Text(all[i as int]))
                =~= binds0 + text_values(all.take(i + 1)));
        }
        i = i + 1;
    }
    assert(all.take(i as int) =~= all);
}

/// Appends one condition to the statement.
pub fn push_condition(builder: &mut SqlBuilder<'_>, condition: &Condition)
    ensures
        query_text(*final(builder)) == query_text(*old(builder)) + clause_sql(condition@),
        query_binds(*final(builder)) == query_binds(*old(builder)) + clause_binds(condition@),
{
    let ghost text0 = query_text(*builder);
    let ghost binds0 = query_binds(*builder);
    push_sql(builder, " AND ");
    push_sql(builder, condition.column().sql_name());
    let ghost head = " AND "@ + condition@.column().spec_sql_name();
    assert(query_text(*builder) =~= text0 + head);
    match condition {
        Condition::Contains { text, .. } => {
            push_sql(builder, " LIKE ");
            bind_text(builder, like_pattern_of(text.as_str()));
            push_sql(builder, " ESCAPE '\\'");
            assert(query_text(*builder) =~= text0 + clause_sql(condition@));
            assert(query_binds(*builder) =~= binds0 + clause_binds(condition@));
        },
        Condition::OneOf { values, .. } => {
            push_sql(builder, " IN (");
            push_placeholders(builder, values);
            push_sql(builder, ")");
            assert(query_text(*builder) =~= text0 + clause_sql(condition@));
            assert(query_binds(*builder) =~= binds0 + clause_binds(condition@));
        },
        Condition::Is { flag, .. } => {
            push_sql(builder, " = ");
            bind_flag(builder, *flag);
            assert(query_text(*builder) =~= text0 + clause_sql(condition@));
            assert(query_binds(*builder) =~= binds0 + clause_binds(condition@));
        },
        Condition::NotBefore { date, .. } => {
            push_sql(builder, " >= ");
            bind_day(builder, *date);
            assert(query_text(*builder) =~= text0 + clause_sql(condition@));
            assert(query_binds(*builder) =~= binds0 + clause_binds(condition@));
        },
        Condition::NotAfter { date, .. } => {
            push_sql(builder, " <= ");
            bind_day(builder, *date);
            assert(query_text(*builder) =~= text0 + clause_sql(condition@));
            assert(query_binds(*builder) =~= binds0 + clause_binds(condition@));
        },
    }
}

/// Appends a conjunction to the statement, clause by clause.
pub fn push_predicate(builder: &mut SqlBuilder<'_>, predicate: &Predicate)
    ensures
        query_text(*final(builder)) == query_text(*old(builder)) + clauses_sql(predicate@),
        query_binds(*final(builder)) == query_binds(*old(builder)) + clauses_binds(predicate@),
{
    let ghost text0 = query_text(*builder);
    let ghost binds0 = query_binds(*builder);
    let mut i: usize = 0;
    assert(query_text(*builder) =~= text0 + clauses_sql(predicate@.take(0)));
    assert(query_binds(*builder) =~= binds0 + clauses_binds(predicate@.take(0)));
    while i < predicate.conditions.len()
        invariant
            i <= predicate.conditions@.len(),
            query_text(*builder) == text0 + clauses_sql(predicate@.take(i as int)),
            query_binds(*builder) == binds0 + clauses_binds(predicate@.take(i as int)),
        decreases predicate.conditions@.len() - i,
    {
        push_condition(builder, &predicate.conditions[i]);
        proof {
            let next = predicate@.take(i + 1);
            assert(next.drop_last() =~= predicate@.take(i as int));
            assert(next.last() == predicate.conditions@[i as int]@);
            assert(text0 + clauses_sql(predicate@.take(i as int)) + clause_sql(next.last())
                =~= text0 + clauses_sql(next));
            assert(binds0 + clauses_binds(predicate@.take(i as int)) + clause_binds(next.last())
                =~= binds0 + clauses_binds(next));
        }
        i = i + 1;
    }
    assert(predicate@.take(i as int) =~= predicate@);
}

/// Appends to the statement the bound, the order and the limit of the
/// window that `params` asks for.  A request that is not well formed is
/// refused, and the statement stays as it was.
pub fn keyset_paginate(params: &PaginationParams, builder: &mut SqlBuilder<'_>) -> (res: Result<
    (),
    InvalidParams,
>)
    ensures
        res == params.check_spec(),
        res is Ok ==> query_text(*final(builder)) == query_text(*old(builder)) + keyset_sql(
            *params,
        ),
        res is Ok ==> query_binds(*final(builder)) == query_binds(*old(builder)) + keyset_binds(
            *params,
        ),
        res is Err ==> *final(builder) == *old(builder),
{
    match params.check() {
        Err(e) => {
            return Err(e);
        },
        Ok(_) => {},
    }
    let ghost text0 = query_text(*builder);
    let ghost binds0 = query_binds(*builder);
    match params.direction {
        PaginationDirection::Forward => {
            match params.cursor {
                Some(last_id) => {
                    push_sql(builder, " AND id > ");
                    bind_number(builder, last_id);
                },
                None => {},
            }
            push_sql(builder, " ORDER BY id ASC LIMIT ");
        },
        PaginationDirection::Backward => {
            match params.cursor {
                Some(first_id) => {
                    push_sql(builder, " AND id < ");
                    bind_number(builder, first_id);
                },
                None => {},
            }
            push_sql(builder, " ORDER BY id DESC LIMIT ");
        },
    }
    bind_number(builder, params.limit + 1);
    assert(query_text(*builder) =~= text0 + keyset_sql(*params));
    assert(query_binds(*builder) =~= binds0 + keyset_binds(*params));
    Ok(())
}

/// The statement that fetches one window, ready to be finished: `select`,
/// which ends in a `WHERE` clause, then the conjunction, then the bound,
/// order and limit.  A request that is not well formed gives no statement.
pub fn page_query<'a>(select: &str, predicate: &Predicate, params: &PaginationParams) -> (res:
    Result<SqlBuilder<'a>, InvalidParams>)
    ensures
        match params.check_spec() {
            Ok(_) => res is Ok && query_text(res->Ok_0) == select@ + clauses_sql(predicate@)
                + keyset_sql(*params) && query_binds(res->Ok_0) == clauses_binds(predicate@)
                + keyset_binds(*params),
            Err(e) => res is Err && res->Err_0 == e,
        },
{
    let mut builder = SqlBuilder::new(select);
    push_predicate(&mut builder, predicate);
    match keyset_paginate(params, &mut builder) {
        Err(e) => Err(e),
        Ok(_) => {
            assert(query_text(builder) =~= select@ + clauses_sql(predicate@) + keyset_sql(*params));
            assert(query_binds(builder) =~= clauses_binds(predicate@) + keyset_binds(*params));
            Ok(builder)
        },
    }
}

} // verus!
