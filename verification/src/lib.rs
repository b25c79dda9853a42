//! Domain logic of a workout tracker: exercise classification, keyset
//! pagination with filters, workout sessions and interval timers.

pub mod clock;
pub mod dates;
pub mod entry;
pub mod enums;
pub mod exercise;
pub mod pagination;
pub mod predicate;
pub mod query;
pub mod session;
pub mod store;
pub mod text;
pub mod timer;
pub mod ui;
pub mod workout;
pub mod workout_log;
