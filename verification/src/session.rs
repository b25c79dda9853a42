//! A workout in progress: the sets planned for each exercise, what was
//! done of them, and the log entries that a finished session leaves.

use vstd::prelude::*;
use vstd::string::StringExecFns;
use crate::workout::{rest_sentence, RestMinuteAndSeconds, WorkoutExerciseRes, WorkoutRes};
use crate::workout_log::WorkoutLogReq;

verus! {

/// One set of an exercise in progress.
#[derive(Debug, Clone)]
pub struct ActiveSet {
    pub set_number: u8,
    pub weight: u16,
    pub reps_or_seconds: u8,
    pub description: String,
    pub completed: bool,
}

/// A log entry as a mathematical value.
pub struct LogEntry {
    pub workout_id: u32,
    pub workout_exercise_id: u32,
    pub workout_log_group_id: u32,
    pub exercise_name: Seq<char>,
    pub set_number: u8,
    pub rep_number_or_seconds: u8,
    pub weight: u16,
    pub description: Option<Seq<char>>,
}

/// The entry that a request asks to log.
pub open spec fn entry_of(req: WorkoutLogReq) -> LogEntry {
    LogEntry {
        workout_id: req.workout_id,
        workout_exercise_id: req.workout_exercise_id,
        workout_log_group_id: req.workout_log_group_id,
        exercise_name: req.exercise_name@,
        set_number: req.set_number,
        rep_number_or_seconds: req.rep_number_or_seconds,
        weight: req.weight,
        description: match req.description {
            Some(d) => Some(d@),
            None => None,
        },
    }
}

/// The entries that requests ask to log.
pub open spec fn entries_of(reqs: Seq<WorkoutLogReq>) -> Seq<LogEntry> {
    reqs.map_values(|r: WorkoutLogReq| entry_of(r))
}

impl ActiveSet {
    /// A set that is planned and not yet done.
    pub fn new(set_number: u8, weight: u16) -> (set: Self)
        ensures
            set.set_number == set_number,
            set.weight == weight,
            set.reps_or_seconds == 0,
            set.description@ == Seq::<char>::empty(),
            !set.completed,
    {
        ActiveSet {
            set_number,
            weight,
            reps_or_seconds: 0,
            description: String::new(),
            completed: false,
        }
    }

    /// The entry that logs the set.  It belongs to no group yet, and an
    /// empty description is none.
    pub open spec fn entry(
        self,
        workout_id: u32,
        workout_exercise_id: u32,
        exercise_name: Seq<char>,
    ) -> LogEntry {
        LogEntry {
            workout_id,
            workout_exercise_id,
            workout_log_group_id: 0,
            exercise_name,
            set_number: self.set_number,
            rep_number_or_seconds: self.reps_or_seconds,
            weight: self.weight,
            description: if self.description@.len() == 0 {
                None
            } else {
                Some(self.description@)
            },
        }
    }

    /// The request that logs the set.
    pub fn to_workout_log_req(
        &self,
        workout_id: u32,
        workout_exercise_id: u32,
        exercise_name: String,
    ) -> (req: WorkoutLogReq)
        ensures
            entry_of(req) == self.entry(workout_id, workout_exercise_id, exercise_name@),
    {
        WorkoutLogReq {
            workout_id,
            workout_exercise_id,
            workout_log_group_id: 0,
            exercise_name,
            set_number: self.set_number,
            weight: self.weight,
            rep_number_or_seconds: self.reps_or_seconds,
            description: if self.description.as_str().is_empty() {
                None
            } else {
                Some(self.description.clone())
            },
        }
    }
}

/// An exercise in progress, with its sets.
#[derive(Debug, Clone)]
pub struct ActiveExercise {
    pub workout_exercise_id: u32,
    pub exercise_name: String,
    pub reps_or_seconds_target: u8,
    pub working_weight: u16,
    pub rest_period_seconds: u8,
    pub tempo: String,
    pub emom: bool,
    pub sets: Vec<ActiveSet>,
}

impl ActiveExercise {
    /// The exercise `res` in progress with the given sets.
    pub fn new(res: WorkoutExerciseRes, active_sets: Vec<ActiveSet>) -> (exercise: Self)
        ensures
            exercise.workout_exercise_id == res.id,
            exercise.exercise_name == res.name,
            exercise.reps_or_seconds_target == res.reps_or_seconds_target,
            exercise.working_weight == res.working_weight,
            exercise.rest_period_seconds == res.rest_period_seconds,
            exercise.tempo == res.tempo,
            exercise.emom == res.emom,
            exercise.sets == active_sets,
    {
        ActiveExercise {
            workout_exercise_id: res.id,
            exercise_name: res.name,
            reps_or_seconds_target: res.reps_or_seconds_target,
            working_weight: res.working_weight,
            rest_period_seconds: res.rest_period_seconds,
            tempo: res.tempo,
            emom: res.emom,
            sets: active_sets,
        }
    }

    /// Whether the sets are the `count` planned ones: numbered from 1, at
    /// the working weight, none done.
    pub open spec fn planned(sets: Seq<ActiveSet>, count: u8, weight: u16) -> bool {
        &&& sets.len() == count
        &&& forall|i: int|
            0 <= i < sets.len() ==> {
                &&& (#[trigger] sets[i]).set_number == i + 1
                &&& sets[i].weight == weight
                &&& sets[i].reps_or_seconds == 0
                &&& sets[i].description@.len() == 0
                &&& !sets[i].completed
            }
    }

    /// Whether the exercise is `res` in progress with its planned sets.
    pub open spec fn begins(self, res: WorkoutExerciseRes) -> bool {
        &&& self.workout_exercise_id == res.id
        &&& self.exercise_name == res.name
        &&& self.reps_or_seconds_target == res.reps_or_seconds_target
        &&& self.working_weight == res.working_weight
        &&& self.rest_period_seconds == res.rest_period_seconds
        &&& self.tempo == res.tempo
        &&& self.emom == res.emom
        &&& Self::planned(self.sets@, res.sets_target, res.working_weight)
    }

    /// The sets planned for an exercise.
    pub fn plan_sets(count: u8, weight: u16) -> (sets: Vec<ActiveSet>)
        ensures
            Self::planned(sets@, count, weight),
    {
        let mut sets: Vec<ActiveSet> = Vec::new();
        let mut number: u8 = 0;
        while number < count
            invariant
                number <= count,
                Self::planned(sets@, number, weight),
            decreases count - number,
        {
            number = number + 1;
            sets.push(ActiveSet::new(number, weight));
        }
        sets
    }

    /// The exercise `res` in progress with its planned sets.
    pub fn start(res: WorkoutExerciseRes) -> (exercise: Self)
        ensures
            exercise.begins(res),
    {
        let sets = Self::plan_sets(res.sets_target, res.working_weight);
        ActiveExercise::new(res, sets)
    }

    /// The entries of the sets that are done, in the order of the sets.
    pub open spec fn done_entries(self, workout_id: u32) -> Seq<LogEntry> {
        self.sets@.filter(|s: ActiveSet| s.completed).map_values(
            |s: ActiveSet| s.entry(workout_id, self.workout_exercise_id, self.exercise_name@),
        )
    }

    /// Whether a set is done.
    pub open spec fn any_done(self) -> bool {
        exists|i: int| 0 <= i < self.sets@.len() && (#[trigger] self.sets@[i]).completed
    }

    /// Decides `any_done`.
    pub fn has_completed_set(&self) -> (b: bool)
        ensures
            b == self.any_done(),
    {
        let mut i: usize = 0;
        while i < self.sets.len()
            invariant
                i <= self.sets@.len(),
                forall|j: int| 0 <= j < i ==> !(#[trigger] self.sets@[j]).completed,
            decreases self.sets@.len() - i,
        {
            if self.sets[i].completed {
                return true;
            }
            i = i + 1;
        }
        false
    }

    /// Appends the requests that log the sets that are done.
    pub fn push_completed(&self, workout_id: u32, entries: &mut Vec<WorkoutLogReq>)
        ensures
            entries_of(final(entries)@) == entries_of(old(entries)@) + self.done_entries(
                workout_id,
            ),
    {
        let ghost before = entries_of(entries@);
        let ghost done = |s: ActiveSet| s.completed;
        let ghost entry = |s: ActiveSet|
            s.entry(workout_id, self.workout_exercise_id, self.exercise_name@);
        let mut i: usize = 0;
        assert(self.sets@.take(0).filter(done) =~= Seq::<ActiveSet>::empty()) by {
            reveal(Seq::filter);
        }
        assert(entries_of(entries@) =~= before + self.sets@.take(0).filter(done).map_values(entry));
        while i < self.sets.len()
            invariant
                i <= self.sets@.len(),
                done == |s: ActiveSet| s.completed,
                entry == |s: ActiveSet|
                    s.entry(workout_id, self.workout_exercise_id, self.exercise_name@),
                entries_of(entries@) == before + self.sets@.take(i as int).filter(done).map_values(
                    entry,
                ),
            decreases self.sets@.len() - i,
        {
            let set = &self.sets[i];
            proof {
                assert(self.sets@.take(i + 1) =~= self.sets@.take(i as int).push(
                    self.sets@[i as int],
                ));
                self.sets@.take(i as int).lemma_filter_push(self.sets@[i as int], done);
            }
            if set.completed {
                let ghost earlier = entries@;
                let req = set.to_workout_log_req(
                    workout_id,
                    self.workout_exercise_id,
                    self.exercise_name.clone(),
                );
                entries.push(req);
                proof {
                    assert(entries_of(entries@) =~= entries_of(earlier).push(entry_of(req)));
                    let kept = self.sets@.take(i as int).filter(done);
                    assert(kept.push(self.sets@[i as int]).map_values(entry) =~= kept.map_values(
                        entry,
                    ).push(entry(self.sets@[i as int])));
                    assert(entries_of(entries@) =~= before + self.sets@.take(i + 1).filter(
                        done,
                    ).map_values(entry));
                }
            }
            i = i + 1;
        }
        assert(self.sets@.take(i as int) =~= self.sets@);
    }
}

impl RestMinuteAndSeconds for ActiveExercise {
    open spec fn rest_seconds(&self) -> nat {
        self.rest_period_seconds as nat
    }

    fn rest_minutes_and_seconds(&self) -> (text: String) {
        rest_sentence(self.rest_period_seconds)
    }
}

/// A workout in progress.
#[derive(Debug, Clone)]
pub struct ActiveSession {
    pub name: String,
    pub exercises: Vec<ActiveExercise>,
    pub description: Option<String>,
}

/// The entries of the done sets of the exercises, exercise by exercise.
pub open spec fn session_entries(exercises: Seq<ActiveExercise>, workout_id: u32) -> Seq<LogEntry>
    decreases exercises.len(),
{
    if exercises.len() == 0 {
        Seq::empty()
    } else {
        session_entries(exercises.drop_last(), workout_id) + exercises.last().done_entries(
            workout_id,
        )
    }
}

impl ActiveSession {
    /// Whether the session is that of a workout that was just loaded:
    /// every exercise with its planned sets, and a note that names the
    /// workout.
    pub open spec fn begins(self, workout: WorkoutRes, exercises: Seq<WorkoutExerciseRes>) -> bool {
        &&& self.name == workout.name
        &&& self.description is Some
        &&& self.description->Some_0@ == "Workout name: "@ + workout.name@
        &&& self.exercises@.len() == exercises.len()
        &&& forall|i: int|
            0 <= i < exercises.len() ==> (#[trigger] self.exercises@[i]).begins(exercises[i])
    }

    /// The session of a workout that was just loaded.
    pub fn start(workout: &WorkoutRes, exercises: Vec<WorkoutExerciseRes>) -> (session: Self)
        ensures
            session.begins(*workout, exercises@),
    {
        let ghost given = exercises@;
        let mut rest = exercises;
        crate::pagination::reverse_rows(&mut rest);
        let mut active: Vec<ActiveExercise> = Vec::new();
        while rest.len() > 0
            invariant
                active@.len() + rest@.len() == given.len(),
                rest@ == given.reverse().take(rest@.len() as int),
                forall|i: int|
                    0 <= i < active@.len() ==> (#[trigger] active@[i]).begins(given[i]),
            decreases rest@.len(),
        {
            match rest.pop() {
                Some(res) => {
                    active.push(ActiveExercise::start(res));
                },
                None => {},
            }
        }
        let mut note = "Workout name: ".to_owned();
        note.append(workout.name.as_str());
        ActiveSession { name: workout.name.clone(), exercises: active, description: Some(note) }
    }

    /// Whether there is something to log: a set that is done.
    pub open spec fn can_save(self) -> bool {
        exists|i: int| 0 <= i < self.exercises@.len() && (#[trigger] self.exercises@[i]).any_done()
    }

    /// Decides `can_save`.
    pub fn valid_to_save(&self) -> (b: bool)
        ensures
            b == self.can_save(),
    {
        let mut i: usize = 0;
        while i < self.exercises.len()
            invariant
                i <= self.exercises@.len(),
                forall|j: int| 0 <= j < i ==> !(#[trigger] self.exercises@[j]).any_done(),
            decreases self.exercises@.len() - i,
        {
            if self.exercises[i].has_completed_set() {
                return true;
            }
            i = i + 1;
        }
        false
    }

    /// The requests that log the session in the workout `workout_id`: one
    /// for each set that is done, exercise by exercise and set by set.
    pub fn completed_entries(&self, workout_id: u32) -> (entries: Vec<WorkoutLogReq>)
        ensures
            entries_of(entries@) == session_entries(self.exercises@, workout_id),
    {
        let mut entries: Vec<WorkoutLogReq> = Vec::new();
        let mut i: usize = 0;
        assert(entries_of(entries@) =~= session_entries(self.exercises@.take(0), workout_id));
        while i < self.exercises.len()
            invariant
                i <= self.exercises@.len(),
                entries_of(entries@) == session_entries(self.exercises@.take(i as int), workout_id),
            decreases self.exercises@.len() - i,
        {
            self.exercises[i].push_completed(workout_id, &mut entries);
            proof {
                let next = self.exercises@.take(i + 1);
                assert(next.drop_last() =~= self.exercises@.take(i as int));
                assert(next.last() == self.exercises@[i as int]);
            }
            i = i + 1;
        }
        assert(self.exercises@.take(i as int) =~= self.exercises@);
        entries
    }

    /// The notes of the session; empty notes are none.
    pub fn set_description(&mut self, description: String)
        ensures
            final(self).name == old(self).name,
            final(self).exercises == old(self).exercises,
            description@.len() == 0 ==> final(self).description is None,
            description@.len() > 0 ==> final(self).description == Some(description),
    {
        self.description = if description.as_str().is_empty() {
            None
        } else {
            Some(description)
        };
    }
}

} // verus!
