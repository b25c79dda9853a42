//! What a store is asked to select: a conjunction of clauses, each on one
//! column of a record.
//!
//! A clause is a mathematical value; a `Condition` is the same clause held in
//! memory.  `Clause::holds` says how the store in memory reads a clause, of
//! the value that a record has in the clause's column.  A store of its own
//! reads a clause with its own operators: a search text stands in a text
//! character for character here, while SQLite's `LIKE` takes no account of
//! the case of ASCII letters.

use vstd::prelude::*;
use crate::dates::{date_number, not_after, not_before};
use crate::enums::{
    CompoundOrIsolation, DynamicOrStatic, Grip, GripWidth, LeverVariation, PushOrPull,
    SquatOrHinge, Stored, StraightOrBentArm, UpperOrLower,
};
use crate::pagination::HasId;
use crate::text::{contains_text, text_contains, text_equals};

verus! {

/// The columns that a clause can speak of.
#[derive(Debug, Clone, Copy, PartialEq, Eq, Hash, Structural)]
pub enum Column {
    Name,
    Description,
    Notes,
    Active,
    Date,
    PushOrPull,
    DynamicOrStatic,
    StraightOrBent,
    SquatOrHinge,
    UpperOrLower,
    CompoundOrIsolation,
    LeverVariation,
    Grip,
    GripWidth,
}

impl Column {
    /// The name of the column in the tables of the store.
    pub open spec fn spec_sql_name(self) -> Seq<char> {
        match self {
            Column::Name => "name"@,
            Column::Description => "description"@,
            Column::Notes => "notes"@,
            Column::Active => "active"@,
            Column::Date => "date"@,
            Column::PushOrPull => "push_or_pull"@,
            Column::DynamicOrStatic => "dynamic_or_static"@,
            Column::StraightOrBent => "straight_or_bent"@,
            Column::SquatOrHinge => "squat_or_hinge"@,
            Column::UpperOrLower => "upper_or_lower"@,
            Column::CompoundOrIsolation => "compound_or_isolation"@,
            Column::LeverVariation => "lever_variation"@,
            Column::Grip => "grip"@,
            Column::GripWidth => "grip_width"@,
        }
    }

    /// The name of the column in the tables of the store.
    pub fn sql_name(&self) -> (r: &'static str)
        ensures
            r@ == self.spec_sql_name(),
    {
        match self {
            Column::Name => "name",
            Column::Description => "description",
            Column::Notes => "notes",
            Column::Active => "active",
            Column::Date => "date",
            Column::PushOrPull => "push_or_pull",
            Column::DynamicOrStatic => "dynamic_or_static",
            Column::StraightOrBent => "straight_or_bent",
            Column::SquatOrHinge => "squat_or_hinge",
            Column::UpperOrLower => "upper_or_lower",
            Column::CompoundOrIsolation => "compound_or_isolation",
            Column::LeverVariation => "lever_variation",
            Column::Grip => "grip",
            Column::GripWidth => "grip_width",
        }
    }
}

/// A vocabulary that has a column of its own, so that records can be
/// chosen by its values.
pub trait Filterable: Stored {
    spec fn spec_column() -> Column;

    fn column() -> (c: Column)
        ensures
            c == Self::spec_column(),
    ;
}

impl Filterable for PushOrPull {
    open spec fn spec_column() -> Column {
        Column::PushOrPull
    }

    fn column() -> (c: Column) {
        Column::PushOrPull
    }
}

impl Filterable for DynamicOrStatic {
    open spec fn spec_column() -> Column {
        Column::DynamicOrStatic
    }

    fn column() -> (c: Column) {
        Column::DynamicOrStatic
    }
}

impl Filterable for StraightOrBentArm {
    open spec fn spec_column() -> Column {
        Column::StraightOrBent
    }

    fn column() -> (c: Column) {
        Column::StraightOrBent
    }
}

impl Filterable for SquatOrHinge {
    open spec fn spec_column() -> Column {
        Column::SquatOrHinge
    }

    fn column() -> (c: Column) {
        Column::SquatOrHinge
    }
}

impl Filterable for UpperOrLower {
    open spec fn spec_column() -> Column {
        Column::UpperOrLower
    }

    fn column() -> (c: Column) {
        Column::UpperOrLower
    }
}

impl Filterable for CompoundOrIsolation {
    open spec fn spec_column() -> Column {
        Column::CompoundOrIsolation
    }

    fn column() -> (c: Column) {
        Column::CompoundOrIsolation
    }
}

impl Filterable for LeverVariation {
    open spec fn spec_column() -> Column {
        Column::LeverVariation
    }

    fn column() -> (c: Column) {
        Column::LeverVariation
    }
}

impl Filterable for Grip {
    open spec fn spec_column() -> Column {
        Column::Grip
    }

    fn column() -> (c: Column) {
        Column::Grip
    }
}

impl Filterable for GripWidth {
    open spec fn spec_column() -> Column {
        Column::GripWidth
    }

    fn column() -> (c: Column) {
        Column::GripWidth
    }
}

/// What a record has in a column, as a mathematical value.  A date is the
/// number of its day.
pub enum CellValue {
    Null,
    Text(Seq<char>),
    Flag(bool),
    Day(int),
}

/// What a record has in a column, borrowed from the record.
#[derive(Debug, Clone, Copy)]
pub enum Cell<'a> {
    Null,
    Text(&'a str),
    Flag(bool),
    Day(chrono::NaiveDate),
}

impl<'a> View for Cell<'a> {
    type V = CellValue;

    open spec fn view(&self) -> CellValue {
        match *self {
            Cell::Null => CellValue::Null,
            Cell::Text(t) => CellValue::Text(t@),
            Cell::Flag(b) => CellValue::Flag(b),
            Cell::Day(d) => CellValue::Day(date_number(d)),
        }
    }
}

/// One condition on one column.
pub enum Clause {
    /// The column holds a text in which `text` stands, character for character.
    Contains { column: Column, text: Seq<char> },
    /// The column holds one of the `values`.
    OneOf { column: Column, values: Seq<Seq<char>> },
    /// The column holds the flag.
    Is { column: Column, flag: bool },
    /// The column holds the day numbered `day` or a later one.
    NotBefore { column: Column, day: int },
    /// The column holds the day numbered `day` or an earlier one.
    NotAfter { column: Column, day: int },
}

impl Clause {
    /// The column that the clause speaks of.
    pub open spec fn column(self) -> Column {
        match self {
            Clause::Contains { column, .. } => column,
            Clause::OneOf { column, .. } => column,
            Clause::Is { column, .. } => column,
            Clause::NotBefore { column, .. } => column,
            Clause::NotAfter { column, .. } => column,
        }
    }

    /// A clause that chooses among values names at least one.
    pub open spec fn well_formed(self) -> bool {
        self matches Clause::OneOf { values, .. } ==> values.len() > 0
    }

    /// Whether the value of the clause's column meets the clause.  A column
    /// without a value meets none.
    pub open spec fn holds(self, cell: CellValue) -> bool {
        match self {
            Clause::Contains { text, .. } => cell matches CellValue::Text(t) && contains_text(
                t,
                text,
            ),
            Clause::OneOf { values, .. } => cell matches CellValue::Text(t) && values.contains(t),
            Clause::Is { flag, .. } => cell == CellValue::Flag(flag),
            Clause::NotBefore { day, .. } => cell matches CellValue::Day(d) && d >= day,
            Clause::NotAfter { day, .. } => cell matches CellValue::Day(d) && d <= day,
        }
    }
}

/// The texts of a vector of strings.
pub open spec fn texts(values: Seq<String>) -> Seq<Seq<char>> {
    values.map_values(|s: String| s@)
}

/// A clause held in memory.
#[derive(Debug)]
pub enum Condition {
    Contains { column: Column, text: String },
    OneOf { column: Column, values: Vec<String> },
    Is { column: Column, flag: bool },
    NotBefore { column: Column, date: chrono::NaiveDate },
    NotAfter { column: Column, date: chrono::NaiveDate },
}

impl View for Condition {
    type V = Clause;

    open spec fn view(&self) -> Clause {
        match *self {
            Condition::Contains { column, text } => Clause::Contains { column, text: text@ },
            Condition::OneOf { column, values } => Clause::OneOf {
                column,
                values: texts(values@),
            },
            Condition::Is { column, flag } => Clause::Is { column, flag },
            Condition::NotBefore { column, date } => Clause::NotBefore {
                column,
                day: date_number(date),
            },
            Condition::NotAfter { column, date } => Clause::NotAfter {
                column,
                day: date_number(date),
            },
        }
    }
}

/// A copy of a vector of strings.
pub fn copy_strings(values: &Vec<String>) -> (copy: Vec<String>)
    ensures
        copy@ == values@,
{
    let mut copy: Vec<String> = Vec::new();
    let mut i: usize = 0;
    while i < values.len()
        invariant
            i <= values@.len(),
            copy@ == values@.take(i as int),
        decreases values@.len() - i,
    {
        copy.push(values[i].clone());
        i = i + 1;
        assert(copy@ =~= values@.take(i as int));
    }
    assert(values@.take(i as int) =~= values@);
    copy
}

impl Clone for Condition {
    fn clone(&self) -> (copy: Self)
        ensures
            copy@ == self@,
    {
        match self {
            Condition::Contains { column, text } => Condition::Contains {
                column: *column,
                text: text.clone(),
            },
            Condition::OneOf { column, values } => Condition::OneOf {
                column: *column,
                values: copy_strings(values),
            },
            Condition::Is { column, flag } => Condition::Is { column: *column, flag: *flag },
            Condition::NotBefore { column, date } => Condition::NotBefore {
                column: *column,
                date: *date,
            },
            Condition::NotAfter { column, date } => Condition::NotAfter {
                column: *column,
                date: *date,
            },
        }
    }
}

/// Whether `text` is among the `values`.
fn holds_text(values: &Vec<String>, text: &str) -> (b: bool)
    ensures
        b == texts(values@).contains(text@),
{
    let mut i: usize = 0;
    while i < values.len()
        invariant
            i <= values@.len(),
            forall|j: int| 0 <= j < i ==> texts(values@)[j] != text@,
        decreases values@.len() - i,
    {
        if text_equals(values[i].as_str(), text) {
            assert(texts(values@)[i as int] == text@);
            return true;
        }
        i = i + 1;
    }
    false
}

impl Condition {
    /// The column that the condition speaks of.
    pub fn column(&self) -> (c: Column)
        ensures
            c == self@.column(),
    {
        match self {
            Condition::Contains { column, .. } => *column,
            Condition::OneOf { column, .. } => *column,
            Condition::Is { column, .. } => *column,
            Condition::NotBefore { column, .. } => *column,
            Condition::NotAfter { column, .. } => *column,
        }
    }

    /// Decides `Clause::holds`.
    pub fn test(&self, cell: &Cell) -> (b: bool)
        ensures
            b == self@.holds(cell@),
    {
        match self {
            Condition::Contains { text, .. } => match cell {
                Cell::Text(t) => text_contains(t, text.as_str()),
                _ => false,
            },
            Condition::OneOf { values, .. } => match cell {
                Cell::Text(t) => holds_text(values, t),
                _ => false,
            },
            Condition::Is { flag, .. } => match cell {
                Cell::Flag(b) => *b == *flag,
                _ => false,
            },
            Condition::NotBefore { date, .. } => match cell {
                Cell::Day(d) => not_before(d, date),
                _ => false,
            },
            Condition::NotAfter { date, .. } => match cell {
                Cell::Day(d) => not_after(d, date),
                _ => false,
            },
        }
    }
}

/// A record that can say what it has in each column.
pub trait Record: HasId {
    spec fn spec_cell(&self, column: Column) -> CellValue;

    fn cell(&self, column: Column) -> (c: Cell<'_>)
        ensures
            c@ == self.spec_cell(column),
    ;
}

/// Whether a record meets every clause.  It meets the empty conjunction.
pub open spec fn accepts<R: Record>(clauses: Seq<Clause>, record: R) -> bool {
    forall|i: int|
        0 <= i < clauses.len() ==> (#[trigger] clauses[i]).holds(
            record.spec_cell(clauses[i].column()),
        )
}

/// Whether every clause is well formed, as every conjunction is that the
/// methods of `Predicate` put together.
pub open spec fn all_well_formed(clauses: Seq<Clause>) -> bool {
    forall|i: int| 0 <= i < clauses.len() ==> (#[trigger] clauses[i]).well_formed()
}

/// A conjunction of conditions.
#[derive(Debug, Clone)]
pub struct Predicate {
    pub conditions: Vec<Condition>,
}

impl View for Predicate {
    type V = Seq<Clause>;

    open spec fn view(&self) -> Seq<Clause> {
        self.conditions@.map_values(|c: Condition| c@)
    }
}

impl Predicate {
    /// The predicate that every record meets.
    pub fn new() -> (p: Predicate)
        ensures
            p@ == Seq::<Clause>::empty(),
            all_well_formed(p@),
    {
        let p = Predicate { conditions: Vec::new() };
        assert(p@ =~= Seq::<Clause>::empty());
        p
    }

    /// Adds the clause that `column` holds a text in which `text` stands.
    /// No text asks for nothing.
    pub fn and_contains(&mut self, column: Column, text: &Option<String>)
        ensures
            final(self)@ == old(self)@ + text_clause(column, option_text(*text)),
            all_well_formed(old(self)@) ==> all_well_formed(final(self)@),
    {
        match text {
            Some(t) => {
                self.conditions.push(Condition::Contains { column, text: t.clone() });
                assert(final(self)@ =~= old(self)@ + text_clause(column, option_text(*text)));
            },
            None => {
                assert(final(self)@ =~= old(self)@ + text_clause(column, option_text(*text)));
            },
        }
    }

    /// Adds the clause that `column` holds one of `values`.  No values ask
    /// for nothing.
    fn and_one_of(&mut self, column: Column, values: Vec<String>)
        ensures
            final(self)@ == old(self)@ + set_clause(column, Some(texts(values@))),
            all_well_formed(old(self)@) ==> all_well_formed(final(self)@),
    {
        if values.len() > 0 {
            self.conditions.push(Condition::OneOf { column, values });
        }
        assert(final(self)@ =~= old(self)@ + set_clause(column, Some(texts(values@))));
    }

    /// Adds the clause that the column of a vocabulary holds one of the
    /// chosen values.  No choice asks for nothing, and so does the choice
    /// among no values.
    pub fn and_among<E: Filterable>(&mut self, choice: &Option<Vec<E>>)
        ensures
            final(self)@ == old(self)@ + choice_clause(*choice),
            all_well_formed(old(self)@) ==> all_well_formed(final(self)@),
    {
        match choice {
            Some(values) => {
                self.and_one_of(E::column(), names_of(values));
            },
            None => {
                assert(final(self)@ =~= old(self)@ + choice_clause(*choice));
            },
        }
    }

    /// Adds the clause that `column` holds `flag`.  No flag asks for nothing.
    pub fn and_is(&mut self, column: Column, flag: Option<bool>)
        ensures
            final(self)@ == old(self)@ + flag_clause(column, flag),
            all_well_formed(old(self)@) ==> all_well_formed(final(self)@),
    {
        match flag {
            Some(b) => {
                self.conditions.push(Condition::Is { column, flag: b });
            },
            None => {},
        }
        assert(final(self)@ =~= old(self)@ + flag_clause(column, flag));
    }

    /// Adds the clause that `column` holds `date` or a later day.  No date
    /// asks for nothing.
    pub fn and_not_before(&mut self, column: Column, date: Option<chrono::NaiveDate>)
        ensures
            final(self)@ == old(self)@ + from_clause(column, option_day(date)),
            all_well_formed(old(self)@) ==> all_well_formed(final(self)@),
    {
        match date {
            Some(d) => {
                self.conditions.push(Condition::NotBefore { column, date: d });
            },
            None => {},
        }
        assert(final(self)@ =~= old(self)@ + from_clause(column, option_day(date)));
    }

    /// Adds the clause that `column` holds `date` or an earlier day.  No
    /// date asks for nothing.
    pub fn and_not_after(&mut self, column: Column, date: Option<chrono::NaiveDate>)
        ensures
            final(self)@ == old(self)@ + until_clause(column, option_day(date)),
            all_well_formed(old(self)@) ==> all_well_formed(final(self)@),
    {
        match date {
            Some(d) => {
                self.conditions.push(Condition::NotAfter { column, date: d });
            },
            None => {},
        }
        assert(final(self)@ =~= old(self)@ + until_clause(column, option_day(date)));
    }

    /// Decides `accepts`.
    pub fn matches<R: Record>(&self, record: &R) -> (b: bool)
        ensures
            b == accepts(self@, *record),
    {
        let mut i: usize = 0;
        while i < self.conditions.len()
            invariant
                i <= self.conditions@.len(),
                forall|j: int|
                    0 <= j < i ==> (#[trigger] self@[j]).holds(
                        record.spec_cell(self@[j].column()),
                    ),
            decreases self.conditions@.len() - i,
        {
            let condition = &self.conditions[i];
            let cell = record.cell(condition.column());
            if !condition.test(&cell) {
                assert(!self@[i as int].holds(record.spec_cell(self@[i as int].column())));
                return false;
            }
            i = i + 1;
        }
        true
    }
}

/// The stored texts of values of a vocabulary.
pub open spec fn names<E: Stored>(values: Seq<E>) -> Seq<Seq<char>> {
    values.map_values(|e: E| e.spec_name())
}

/// The stored texts of an optional choice of values.
pub open spec fn option_names<E: Stored>(choice: Option<Vec<E>>) -> Option<Seq<Seq<char>>> {
    match choice {
        Some(values) => Some(names(values@)),
        None => None,
    }
}

/// Whether a choice constrains nothing: there is none, or it is the choice
/// among no values.
pub open spec fn unconstrained<E: Stored>(choice: Option<Vec<E>>) -> bool {
    match choice {
        Some(values) => values@.len() == 0,
        None => true,
    }
}

/// Whether two choices constrain alike: both nothing, or both to the same
/// values.
pub open spec fn same_choice<E: Stored>(left: Option<Vec<E>>, right: Option<Vec<E>>) -> bool {
    (unconstrained(left) && unconstrained(right)) || option_names(left) == option_names(right)
}

/// Builds `names`.
pub fn names_of<E: Stored>(values: &Vec<E>) -> (stored: Vec<String>)
    ensures
        texts(stored@) == names(values@),
{
    let mut stored: Vec<String> = Vec::new();
    let mut i: usize = 0;
    assert(texts(stored@) =~= names(values@.take(0)));
    while i < values.len()
        invariant
            i <= values@.len(),
            stored@.len() == i,
            texts(stored@) == names(values@.take(i as int)),
        decreases values@.len() - i,
    {
        let name = values[i].name().to_owned();
        let ghost before = stored@;
        stored.push(name);
        proof {
            let next = values@.take(i + 1);
            assert(texts(stored@).len() == next.len());
            assert forall|j: int| 0 <= j < next.len() implies texts(stored@)[j] == names(next)[j] by {
                if j < i {
                    assert(texts(before)[j] == names(values@.take(i as int))[j]);
                    assert(stored@[j] == before[j]);
                    assert(values@.take(i as int)[j] == next[j]);
                } else {
                    assert(next[j] == values@[i as int]);
                }
            }
        }
        i = i + 1;
        assert(texts(stored@) =~= names(values@.take(i as int)));
    }
    assert(values@.take(i as int) =~= values@);
    stored
}

/// The text of an optional string.
pub open spec fn option_text(text: Option<String>) -> Option<Seq<char>> {
    match text {
        Some(t) => Some(t@),
        None => None,
    }
}

/// The day number of an optional date.
pub open spec fn option_day(date: Option<chrono::NaiveDate>) -> Option<int> {
    match date {
        Some(d) => Some(date_number(d)),
        None => None,
    }
}

/// The clause for a text to search: none without a text.
pub open spec fn text_clause(column: Column, text: Option<Seq<char>>) -> Seq<Clause> {
    match text {
        Some(t) => seq![Clause::Contains { column, text: t }],
        None => Seq::empty(),
    }
}

/// The clause for a choice of values: none without a choice, and none for
/// the choice among no values.
pub open spec fn set_clause(column: Column, values: Option<Seq<Seq<char>>>) -> Seq<Clause> {
    match values {
        Some(v) => if v.len() == 0 {
            Seq::empty()
        } else {
            seq![Clause::OneOf { column, values: v }]
        },
        None => Seq::empty(),
    }
}

/// The clause for a choice among the values of a vocabulary, on the
/// column of that vocabulary.
pub open spec fn choice_clause<E: Filterable>(choice: Option<Vec<E>>) -> Seq<Clause> {
    set_clause(E::spec_column(), option_names(choice))
}

/// The clause for a flag: none without a flag.
pub open spec fn flag_clause(column: Column, flag: Option<bool>) -> Seq<Clause> {
    match flag {
        Some(b) => seq![Clause::Is { column, flag: b }],
        None => Seq::empty(),
    }
}

/// The clause for a first day: none without a day.
pub open spec fn from_clause(column: Column, day: Option<int>) -> Seq<Clause> {
    match day {
        Some(d) => seq![Clause::NotBefore { column, day: d }],
        None => Seq::empty(),
    }
}

/// The clause for a last day: none without a day.
pub open spec fn until_clause(column: Column, day: Option<int>) -> Seq<Clause> {
    match day {
        Some(d) => seq![Clause::NotAfter { column, day: d }],
        None => Seq::empty(),
    }
}

/// Choices that constrain alike give the same clause.  In particular the
/// choice among no values gives what no choice gives: no clause.
pub proof fn lemma_same_choice_same_clause<E: Filterable>(
    left: Option<Vec<E>>,
    right: Option<Vec<E>>,
)
    requires
        same_choice(left, right),
    ensures
        choice_clause(left) == choice_clause(right),
{
}

} // verus!
