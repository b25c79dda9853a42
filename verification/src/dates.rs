//! Calendar dates, as `chrono` keeps them, and the day count by which the
//! library compares them.

use vstd::prelude::*;
use chrono::Datelike;

verus! {

/// `chrono::NaiveDate`, taken as it is: of a date only its day number is read.
#[verifier::external_type_specification]
#[verifier::external_body]
pub struct ExNaiveDate(chrono::NaiveDate);

/// The number of a date's day in the proleptic Gregorian calendar, where
/// 1 January of the year 1 is day 1.
pub uninterp spec fn date_number(date: chrono::NaiveDate) -> int;

/// The text of the day numbered `day`, as `NaiveDate::format` writes it
/// in the form `%F`: year, month and day of the month with hyphens
/// between them.
pub uninterp spec fn day_text(day: int) -> Seq<char>;

/// `Datelike::num_days_from_ce` of a `NaiveDate`: the count of days that
/// `date_number` names.  Nothing else is claimed of it.
#[verifier::external_body]
fn day_number(date: &chrono::NaiveDate) -> (n: i32)
    ensures
        n == date_number(*date),
{
    date.num_days_from_ce()
}

/// Whether `date` is the same day as `from` or a later one.
pub fn not_before(date: &chrono::NaiveDate, from: &chrono::NaiveDate) -> (b: bool)
    ensures
        b == (date_number(*date) >= date_number(*from)),
{
    day_number(date) >= day_number(from)
}

/// Whether `date` is the same day as `until` or an earlier one.
pub fn not_after(date: &chrono::NaiveDate, until: &chrono::NaiveDate) -> (b: bool)
    ensures
        b == (date_number(*date) <= date_number(*until)),
{
    day_number(date) <= day_number(until)
}

} // verus!
