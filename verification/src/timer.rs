//! Interval timers: a countdown, a round timer that alternates work and
//! rest, and a metronome.
//!
//! A timer never sounds by itself.  Each step says whether a sound is due,
//! and the caller plays it.  The steps that read the clock come in pairs:
//! `tick` reads it, and `advance` decides what follows for either reading.

use vstd::prelude::*;
use crate::clock::{elapsed_nanos, now};

verus! {

/// A timer that can be started, stopped and stepped.
pub trait Timer {
    fn toggle(&mut self);

    /// Reads the clock and steps the timer.  Says whether a sound is due.
    fn tick(&mut self) -> bool;
}

/// A countdown without its moments: what it counts and whether it runs.
/// `armed` says that the moment of the last step is known.
pub struct Countdown {
    pub input_minutes: u32,
    pub input_seconds: u32,
    pub current_seconds: u32,
    pub is_running: bool,
    pub armed: bool,
}

impl Countdown {
    /// A countdown of nothing, at rest.
    pub open spec fn idle() -> Countdown {
        Countdown {
            input_minutes: 0,
            input_seconds: 0,
            current_seconds: 0,
            is_running: false,
            armed: false,
        }
    }

    /// The seconds that the inputs ask for.
    pub open spec fn input_total(self) -> int {
        self.input_minutes * 60 + self.input_seconds
    }

    /// The seconds from which a start counts: what is left, or the inputs
    /// if nothing is left.
    pub open spec fn start_seconds(self) -> int {
        if self.current_seconds == 0 {
            self.input_total()
        } else {
            self.current_seconds as int
        }
    }

    /// Whether a start can hold its seconds.
    pub open spec fn fits(self) -> bool {
        self.input_total() <= u32::MAX
    }

    /// A stop if it runs.  Else a start, unless there is nothing to count.
    pub open spec fn toggled(self) -> Countdown {
        if self.is_running {
            Countdown { is_running: false, armed: false, ..self }
        } else if self.start_seconds() > 0 {
            Countdown {
                current_seconds: self.start_seconds() as u32,
                is_running: true,
                armed: true,
                ..self
            }
        } else {
            self
        }
    }

    /// Whether a step can count: the countdown runs and knows the moment
    /// of its last step.
    pub open spec fn ready(self) -> bool {
        self.is_running && self.armed
    }

    /// Whether a second is due when `elapsed` nanoseconds have gone by
    /// since the last step: the countdown is ready, and it has been a
    /// full second.
    pub open spec fn due_after(self, elapsed: u128) -> bool {
        self.ready() && elapsed >= 1_000_000_000
    }

    /// One second less, and a stop at zero.
    pub open spec fn counted(self) -> Countdown {
        let left = if self.current_seconds > 0 {
            (self.current_seconds - 1) as u32
        } else {
            0u32
        };
        if left == 0 {
            Countdown { current_seconds: 0, is_running: false, armed: false, ..self }
        } else {
            Countdown { current_seconds: left, armed: true, ..self }
        }
    }

    /// The state after a step.  It counts if a second is due and the
    /// countdown is ready.
    pub open spec fn advanced(self, due: bool) -> Countdown {
        if due && self.ready() {
            self.counted()
        } else {
            self
        }
    }

    /// Whether a step sounds: it counts, and it reaches zero.
    pub open spec fn sounds(self, due: bool) -> bool {
        due && self.ready() && self.current_seconds <= 1
    }

    /// The state once `seconds` are taken off at a stroke.
    pub open spec fn skipped(self, seconds: u32) -> Countdown {
        if !self.is_running {
            self
        } else if self.current_seconds > seconds {
            Countdown { current_seconds: (self.current_seconds - seconds) as u32, armed: true, ..self }
        } else {
            Countdown { current_seconds: 0, is_running: false, armed: false, ..self }
        }
    }
}

/// A countdown of minutes and seconds.
#[derive(Debug)]
pub struct CountDownTimer {
    pub input_minutes: u32,
    pub input_seconds: u32,
    pub current_seconds: u32,
    pub is_running: bool,
    pub last_tick: Option<std::time::Instant>,
}

impl Clone for CountDownTimer {
    fn clone(&self) -> (copy: Self)
        ensures
            copy == *self,
    {
        CountDownTimer {
            input_minutes: self.input_minutes,
            input_seconds: self.input_seconds,
            current_seconds: self.current_seconds,
            is_running: self.is_running,
            last_tick: self.last_tick,
        }
    }
}

impl View for CountDownTimer {
    type V = Countdown;

    open spec fn view(&self) -> Countdown {
        Countdown {
            input_minutes: self.input_minutes,
            input_seconds: self.input_seconds,
            current_seconds: self.current_seconds,
            is_running: self.is_running,
            armed: self.last_tick is Some,
        }
    }
}

impl CountDownTimer {
    /// A countdown of nothing, at rest.
    pub fn new() -> (timer: Self)
        ensures
            timer@ == Countdown::idle(),
    {
        CountDownTimer {
            input_minutes: 0,
            input_seconds: 0,
            current_seconds: 0,
            is_running: false,
            last_tick: None,
        }
    }

    /// Sets what to count from, and stops.
    pub fn set_duration(&mut self, minutes: u32, seconds: u32)
        ensures
            final(self)@ == (Countdown {
                input_minutes: minutes,
                input_seconds: seconds,
                current_seconds: 0,
                is_running: false,
                armed: false,
            }),
    {
        self.input_minutes = minutes;
        self.input_seconds = seconds;
        self.current_seconds = 0;
        self.is_running = false;
        self.last_tick = None;
    }

    /// What is left, in minutes and seconds.
    pub fn minutes_and_seconds(&self) -> (left: (u32, u32))
        ensures
            left.0 == self.current_seconds / 60,
            left.1 == self.current_seconds % 60,
    {
        (self.current_seconds / 60, self.current_seconds % 60)
    }

    /// Whether the inputs fit a start.
    pub fn fits(&self) -> (b: bool)
        ensures
            b == self@.fits(),
    {
        self.input_minutes <= (u32::MAX - self.input_seconds) / 60
    }

    /// Takes `seconds` off a running countdown at a stroke.  Says whether a
    /// sound is due, which it is when the countdown reaches zero.
    pub fn advance_seconds(&mut self, seconds: u32) -> (sound: bool)
        ensures
            final(self)@ == old(self)@.skipped(seconds),
            sound == (old(self).is_running && old(self).current_seconds <= seconds),
    {
        if self.is_running {
            if self.current_seconds > seconds {
                self.current_seconds -= seconds;
                self.last_tick = Some(now());
                false
            } else {
                self.current_seconds = 0;
                self.is_running = false;
                self.last_tick = None;
                true
            }
        } else {
            false
        }
    }

    /// Stops a running countdown.  Starts one at rest from what is left,
    /// or from the inputs if nothing is left, unless that is nothing too.
    pub fn start_or_stop(&mut self)
        requires
            old(self)@.fits(),
        ensures
            final(self)@ == old(self)@.toggled(),
    {
        if self.is_running {
            self.is_running = false;
            self.last_tick = None;
        } else {
            if self.current_seconds == 0 {
                self.current_seconds = self.input_minutes * 60 + self.input_seconds;
            }
            if self.current_seconds > 0 {
                self.is_running = true;
                self.last_tick = Some(now());
            }
        }
    }

    /// Steps the countdown, given whether a second has passed since its
    /// last step.  Says whether a sound is due.
    pub fn advance(&mut self, due: bool) -> (sound: bool)
        ensures
            final(self)@ == old(self)@.advanced(due),
            sound == old(self)@.sounds(due),
    {
        let mut sound = false;
        if due && self.is_running && self.last_tick.is_some() {
            if self.current_seconds > 0 {
                self.current_seconds -= 1;
                self.last_tick = Some(now());
            }
            if self.current_seconds == 0 {
                self.is_running = false;
                self.last_tick = None;
                sound = true;
            }
        }
        sound
    }

    /// Whether a second is due, given the nanoseconds that have gone by
    /// since the last step.
    pub fn second_due(&self, elapsed: u128) -> (due: bool)
        ensures
            due == self@.due_after(elapsed),
    {
        self.is_running && self.last_tick.is_some() && elapsed >= 1_000_000_000
    }

    /// Reads the clock and says whether a second has passed since the last
    /// step of a running countdown: whether a second is due after the time
    /// that the clock shows to have gone by.  It has not where no such
    /// step is known.
    pub fn second_passed(&self) -> (due: bool)
        ensures
            exists|elapsed: u128| due == self@.due_after(elapsed),
            due ==> self@.ready(),
    {
        if self.is_running {
            match self.last_tick {
                Some(last) => {
                    let elapsed = elapsed_nanos(&last);
                    let due = self.second_due(elapsed);
                    assert(due == self@.due_after(elapsed));
                    due
                },
                None => {
                    assert(false == self@.due_after(0));
                    false
                },
            }
        } else {
            assert(false == self@.due_after(0));
            false
        }
    }

    /// Reads the clock and steps the countdown.  Either a second has
    /// passed and the countdown counts, or nothing changes.
    pub fn step(&mut self) -> (sound: bool)
        ensures
            exists|due: bool|
                final(self)@ == old(self)@.advanced(due) && sound == old(self)@.sounds(due),
    {
        let due = self.second_passed();
        let sound = self.advance(due);
        assert(final(self)@ == old(self)@.advanced(due) && sound == old(self)@.sounds(due));
        sound
    }
}

impl Timer for CountDownTimer {
    /// As `start_or_stop`; inputs that do not fit a start are left alone.
    fn toggle(&mut self)
        ensures
            final(self)@ == if old(self)@.fits() {
                old(self)@.toggled()
            } else {
                old(self)@
            },
    {
        if self.fits() {
            self.start_or_stop();
        }
    }

    /// As `step`.
    fn tick(&mut self) -> (sound: bool)
        ensures
            exists|due: bool|
                final(self)@ == old(self)@.advanced(due) && sound == old(self)@.sounds(due),
    {
        self.step()
    }
}

/// The countdown between sets.
pub type RestTimer = CountDownTimer;

/// Which of the two countdowns of a round timer sounds.
#[derive(Debug, Clone, Copy, PartialEq, Eq, Hash, Structural)]
pub enum Chime {
    Silent,
    Work,
    Rest,
}

/// A round timer without its moments.
pub struct Rounds {
    pub current_round: u32,
    pub rounds: u32,
    pub is_running: bool,
    pub work: Countdown,
    pub rest: Countdown,
    pub is_work: bool,
}

impl Rounds {
    /// Whether both countdowns can start.
    pub open spec fn fits(self) -> bool {
        self.work.fits() && self.rest.fits()
    }

    /// The countdown of the current phase.
    pub open spec fn phase(self) -> Countdown {
        if self.is_work {
            self.work
        } else {
            self.rest
        }
    }

    /// The state once the countdown of the current phase is toggled.
    pub open spec fn phase_toggled(self) -> Rounds {
        if self.is_work {
            Rounds { work: self.work.toggled(), ..self }
        } else {
            Rounds { rest: self.rest.toggled(), ..self }
        }
    }

    /// A pause if it runs.  Else, if there are rounds to do, a start of
    /// the first round or a resumption of the current one.
    pub open spec fn toggled(self) -> Rounds {
        if self.is_running {
            (Rounds { is_running: false, ..self }).phase_toggled()
        } else if self.rounds > 0 {
            if self.current_round == 0 {
                Rounds {
                    is_running: true,
                    current_round: 1,
                    is_work: true,
                    work: self.work.toggled(),
                    ..self
                }
            } else {
                (Rounds { is_running: true, ..self }).phase_toggled()
            }
        } else {
            self
        }
    }

    /// The state once a rest is over: the next round begins with work, or
    /// after the last round the timer stops and forgets its round.
    pub open spec fn rest_finished(self) -> Rounds {
        if self.current_round < self.rounds {
            Rounds {
                current_round: (self.current_round + 1) as u32,
                is_work: true,
                work: self.work.toggled(),
                ..self
            }
        } else {
            Rounds { is_running: false, current_round: 0, is_work: true, ..self }
        }
    }

    /// The state once the countdown of the current phase has been stepped:
    /// work that is over turns into rest, and a rest that is over, or that
    /// has nothing to count, ends the round.
    pub open spec fn settled(self) -> Rounds {
        if self.is_work {
            if !self.work.is_running && self.work.current_seconds == 0 {
                let resting = Rounds { is_work: false, rest: self.rest.toggled(), ..self };
                if !resting.rest.is_running {
                    resting.rest_finished()
                } else {
                    resting
                }
            } else {
                self
            }
        } else {
            if !self.rest.is_running && self.rest.current_seconds == 0 {
                self.rest_finished()
            } else {
                self
            }
        }
    }

    /// The state after a step, given whether a second has passed for the
    /// countdown of the current phase.
    pub open spec fn advanced(self, due: bool) -> Rounds {
        if !self.is_running {
            self
        } else if self.is_work {
            (Rounds { work: self.work.advanced(due), ..self }).settled()
        } else {
            (Rounds { rest: self.rest.advanced(due), ..self }).settled()
        }
    }

    /// Which countdown sounds at a step.
    pub open spec fn chimes(self, due: bool) -> Chime {
        if !self.is_running {
            Chime::Silent
        } else if self.is_work {
            if self.work.sounds(due) {
                Chime::Work
            } else {
                Chime::Silent
            }
        } else {
            if self.rest.sounds(due) {
                Chime::Rest
            } else {
                Chime::Silent
            }
        }
    }
}

/// A timer of rounds: in each round a countdown of work, then one of rest.
#[derive(Debug)]
pub struct EMOMTimer {
    pub current_round: u32,
    pub rounds: u32,
    pub is_running: bool,
    pub work_timer: CountDownTimer,
    pub rest_timer: CountDownTimer,
    pub is_work: bool,
}

impl View for EMOMTimer {
    type V = Rounds;

    open spec fn view(&self) -> Rounds {
        Rounds {
            current_round: self.current_round,
            rounds: self.rounds,
            is_running: self.is_running,
            work: self.work_timer@,
            rest: self.rest_timer@,
            is_work: self.is_work,
        }
    }
}

impl EMOMTimer {
    /// A timer of no rounds, at rest.
    pub fn new() -> (timer: Self)
        ensures
            timer@ == (Rounds {
                current_round: 0,
                rounds: 0,
                is_running: false,
                work: Countdown::idle(),
                rest: Countdown::idle(),
                is_work: true,
            }),
            timer@.fits(),
    {
        EMOMTimer {
            current_round: 0,
            rounds: 0,
            is_running: false,
            work_timer: CountDownTimer::new(),
            rest_timer: CountDownTimer::new(),
            is_work: true,
        }
    }

    /// Whether both countdowns can start.
    pub fn fits(&self) -> (b: bool)
        ensures
            b == self@.fits(),
    {
        self.work_timer.fits() && self.rest_timer.fits()
    }

    fn handle_rest_finished(&mut self)
        requires
            old(self)@.fits(),
        ensures
            final(self)@ == old(self)@.rest_finished(),
    {
        if self.current_round < self.rounds {
            self.current_round += 1;
            self.is_work = true;
            self.work_timer.start_or_stop();
        } else {
            self.is_running = false;
            self.current_round = 0;
            self.is_work = true;
        }
    }

    fn settle(&mut self)
        requires
            old(self)@.fits(),
        ensures
            final(self)@ == old(self)@.settled(),
    {
        if self.is_work {
            if !self.work_timer.is_running && self.work_timer.current_seconds == 0 {
                self.is_work = false;
                self.rest_timer.start_or_stop();
                if !self.rest_timer.is_running {
                    self.handle_rest_finished();
                }
            }
        } else {
            if !self.rest_timer.is_running && self.rest_timer.current_seconds == 0 {
                self.handle_rest_finished();
            }
        }
    }

    /// Pauses a running timer.  Starts one at rest with its first round,
    /// or resumes its current round, if there are rounds to do.
    pub fn start_or_stop(&mut self)
        requires
            old(self)@.fits(),
        ensures
            final(self)@ == old(self)@.toggled(),
    {
        if self.is_running {
            self.is_running = false;
            if self.is_work {
                self.work_timer.start_or_stop();
            } else {
                self.rest_timer.start_or_stop();
            }
        } else {
            if self.rounds > 0 {
                self.is_running = true;
                if self.current_round == 0 {
                    self.current_round = 1;
                    self.is_work = true;
                    self.work_timer.start_or_stop();
                } else {
                    if self.is_work {
                        self.work_timer.start_or_stop();
                    } else {
                        self.rest_timer.start_or_stop();
                    }
                }
            }
        }
    }

    /// Steps the timer, given whether a second has passed for the
    /// countdown of the current phase.  Says which countdown sounds.
    pub fn advance(&mut self, due: bool) -> (chime: Chime)
        requires
            old(self)@.fits(),
        ensures
            final(self)@ == old(self)@.advanced(due),
            chime == old(self)@.chimes(due),
    {
        if !self.is_running {
            return Chime::Silent;
        }
        let chime = if self.is_work {
            if self.work_timer.advance(due) {
                Chime::Work
            } else {
                Chime::Silent
            }
        } else {
            if self.rest_timer.advance(due) {
                Chime::Rest
            } else {
                Chime::Silent
            }
        };
        self.settle();
        chime
    }

    /// Reads the clock and says whether a second has passed for the
    /// countdown of the current phase: whether a second is due for that
    /// countdown after the time that the clock shows to have gone by.  It
    /// has not where that countdown is not ready.
    pub fn second_passed(&self) -> (due: bool)
        ensures
            exists|elapsed: u128| due == self@.phase().due_after(elapsed),
            due ==> self@.phase().ready(),
    {
        if self.is_work {
            let due = self.work_timer.second_passed();
            proof {
                let elapsed = choose|elapsed: u128| due == self.work_timer@.due_after(elapsed);
                assert(due == self@.phase().due_after(elapsed));
            }
            due
        } else {
            let due = self.rest_timer.second_passed();
            proof {
                let elapsed = choose|elapsed: u128| due == self.rest_timer@.due_after(elapsed);
                assert(due == self@.phase().due_after(elapsed));
            }
            due
        }
    }

    /// Reads the clock and steps the timer.  Says which countdown sounds.
    pub fn step(&mut self) -> (chime: Chime)
        requires
            old(self)@.fits(),
        ensures
            exists|due: bool|
                final(self)@ == old(self)@.advanced(due) && chime == old(self)@.chimes(due),
    {
        let due = self.second_passed();
        let chime = self.advance(due);
        assert(final(self)@ == old(self)@.advanced(due) && chime == old(self)@.chimes(due));
        chime
    }
}

impl Timer for EMOMTimer {
    /// As `start_or_stop`; inputs that do not fit a start are left alone.
    fn toggle(&mut self)
        ensures
            final(self)@ == if old(self)@.fits() {
                old(self)@.toggled()
            } else {
                old(self)@
            },
    {
        if self.fits() {
            self.start_or_stop();
        }
    }

    /// As `step`, whichever countdown sounds; inputs that do not fit a
    /// start are left alone.
    fn tick(&mut self) -> (sound: bool)
        ensures
            old(self)@.fits() ==> exists|due: bool|
                final(self)@ == old(self)@.advanced(due) && sound == (old(self)@.chimes(due)
                    != Chime::Silent),
            !old(self)@.fits() ==> final(self)@ == old(self)@ && !sound,
    {
        if self.fits() {
            let ghost before = self@;
            let chime = self.step();
            proof {
                let due = choose|due: bool|
                    self@ == before.advanced(due) && chime == before.chimes(due);
                assert(self@ == before.advanced(due) && chime == before.chimes(due));
            }
            match chime {
                Chime::Silent => false,
                _ => true,
            }
        } else {
            false
        }
    }
}

/// A metronome of so many beats a minute.
#[derive(Debug)]
pub struct Metronome {
    pub bpm: u32,
    pub is_running: bool,
    pub last_tick: Option<std::time::Instant>,
}

impl Metronome {
    /// The nanoseconds from one beat to the next: the `bpm`th part of a
    /// minute, rounded down.
    pub open spec fn beat_nanos(self) -> int
        recommends
            self.bpm > 0,
    {
        60_000_000_000int / (self.bpm as int)
    }

    /// Whether a beat is due when `elapsed` nanoseconds have gone by since
    /// the last one: the metronome runs, knows the moment of its last
    /// beat, beats some time, and the time of a beat has gone by.
    pub open spec fn beat_due(self, elapsed: u128) -> bool {
        self.is_running && self.last_tick is Some && self.bpm > 0 && elapsed >= self.beat_nanos()
    }

    /// A metronome of sixty beats a minute, at rest.
    pub fn new() -> (metronome: Self)
        ensures
            metronome.bpm == 60,
            !metronome.is_running,
            metronome.last_tick is None,
    {
        Metronome { bpm: 60, is_running: false, last_tick: None }
    }

    /// Starts or stops.  A start sounds the first beat.
    pub fn toggle(&mut self) -> (sound: bool)
        ensures
            final(self).bpm == old(self).bpm,
            final(self).is_running == !old(self).is_running,
            sound == final(self).is_running,
            final(self).is_running ==> final(self).last_tick is Some,
            !final(self).is_running ==> final(self).last_tick == old(self).last_tick,
    {
        self.is_running = !self.is_running;
        if self.is_running {
            self.last_tick = Some(now());
        }
        self.is_running
    }

    /// Steps the metronome, given whether the time of a beat has passed
    /// since the last one.  Says whether a beat sounds.
    pub fn advance(&mut self, due: bool) -> (sound: bool)
        ensures
            sound == (due && old(self).is_running && old(self).last_tick is Some),
            final(self).bpm == old(self).bpm,
            final(self).is_running == old(self).is_running,
            sound ==> final(self).last_tick is Some,
            !sound ==> final(self).last_tick == old(self).last_tick,
    {
        if due && self.is_running && self.last_tick.is_some() {
            self.last_tick = Some(now());
            true
        } else {
            false
        }
    }

    /// Whether a beat is due, given the nanoseconds that have gone by since
    /// the last one.
    pub fn beat_is_due(&self, elapsed: u128) -> (due: bool)
        ensures
            due == self.beat_due(elapsed),
    {
        if self.is_running && self.last_tick.is_some() && self.bpm > 0 {
            let interval: u128 = 60_000_000_000u128 / (self.bpm as u128);
            elapsed >= interval
        } else {
            false
        }
    }

    /// Reads the clock and says whether the time of a beat, the `bpm`th
    /// part of a minute, has passed since the last one: whether a beat is
    /// due after the time that the clock shows to have gone by.  It has
    /// not where the metronome beats no time at all.
    pub fn beat_passed(&self) -> (due: bool)
        ensures
            exists|elapsed: u128| due == self.beat_due(elapsed),
            due ==> self.is_running && self.last_tick is Some && self.bpm > 0,
    {
        if self.is_running && self.bpm > 0 {
            match self.last_tick {
                Some(last) => {
                    let elapsed = elapsed_nanos(&last);
                    let due = self.beat_is_due(elapsed);
                    assert(due == self.beat_due(elapsed));
                    due
                },
                None => {
                    assert(false == self.beat_due(0));
                    false
                },
            }
        } else {
            assert(false == self.beat_due(0));
            false
        }
    }

    /// Reads the clock and steps the metronome: a beat sounds if one is
    /// due after the time that the clock shows to have gone by since the
    /// last one, and the moment of that beat is then the last.
    pub fn tick(&mut self) -> (sound: bool)
        ensures
            exists|elapsed: u128| sound == old(self).beat_due(elapsed),
            final(self).bpm == old(self).bpm,
            final(self).is_running == old(self).is_running,
            sound ==> old(self).is_running && final(self).last_tick is Some,
            !sound ==> final(self).last_tick == old(self).last_tick,
    {
        let due = self.beat_passed();
        proof {
            let elapsed = choose|elapsed: u128| due == self.beat_due(elapsed);
            assert(due == self.beat_due(elapsed));
        }
        self.advance(due)
    }
}

} // verus!
