use std::time::{Duration, Instant};
use workout_util::timer::{Chime, CountDownTimer, EMOMTimer, Metronome, RestTimer, Timer};

/// What an audio engine would have been asked to play.
#[derive(Default)]
struct Recorder {
    play_count: u32,
    last_volume: Option<f32>,
}

impl Recorder {
    fn hear(&mut self, sound: bool, volume: f32) {
        if sound {
            self.play_count += 1;
            self.last_volume = Some(volume);
        }
    }
}

const VOLUME: f32 = 10.0;

#[test]
fn test_new_timer_not_running() {
    let timer = CountDownTimer::new();

    assert!(!timer.is_running);
    assert_eq!(timer.current_seconds, 0);
}

#[test]
fn test_toggle_starts_timer_with_duration() {
    let mut timer = CountDownTimer::new();
    timer.set_duration(0, 5);

    timer.toggle();

    assert!(timer.is_running);
    assert_eq!(timer.current_seconds, 5);
}

#[test]
fn test_toggle_stops_timer() {
    let mut timer = CountDownTimer::new();
    timer.set_duration(0, 5);
    timer.toggle(); // Start
    timer.toggle(); // Stop

    assert!(!timer.is_running);
    assert!(timer.last_tick.is_none());
}

#[test]
fn test_toggle_with_zero_duration_does_not_start() {
    let mut timer = CountDownTimer::new();
    timer.set_duration(0, 0);

    timer.toggle();

    assert!(!timer.is_running);
    assert_eq!(timer.current_seconds, 0);
}

#[test]
fn test_tick_decrements_seconds() {
    let mut timer = CountDownTimer::new();
    timer.set_duration(0, 3);
    timer.toggle();
    timer.last_tick = Some(Instant::now() - Duration::from_secs(1));

    timer.tick();

    assert_eq!(timer.current_seconds, 2);
    assert!(timer.is_running);
}

#[test]
fn test_tick_plays_sound_when_timer_completes() {
    let mut recorder = Recorder::default();
    let mut timer = CountDownTimer::new();
    timer.set_duration(0, 1);
    timer.toggle();
    timer.last_tick = Some(Instant::now() - Duration::from_secs(2));

    recorder.hear(timer.tick(), VOLUME);

    assert_eq!(timer.current_seconds, 0);
    assert!(!timer.is_running);
    assert_eq!(recorder.play_count, 1);
    assert_eq!(recorder.last_volume, Some(10.0));
}

#[test]
fn test_tick_does_not_play_sound_before_completion() {
    let mut recorder = Recorder::default();
    let mut timer = CountDownTimer::new();
    timer.set_duration(0, 5);
    timer.toggle();
    timer.last_tick = Some(Instant::now() - Duration::from_secs(1));

    recorder.hear(timer.tick(), VOLUME);

    assert_eq!(timer.current_seconds, 4);
    assert!(timer.is_running);
    assert_eq!(recorder.play_count, 0);
}

#[test]
fn test_tick_respects_one_second_interval() {
    let mut recorder = Recorder::default();
    let mut timer = CountDownTimer::new();
    timer.set_duration(0, 5);
    timer.toggle();
    timer.last_tick = Some(Instant::now()); // Just now, not enough time elapsed

    recorder.hear(timer.tick(), VOLUME);

    assert_eq!(timer.current_seconds, 5); // Should not decrement yet
    assert_eq!(recorder.play_count, 0);
}

#[test]
fn test_set_duration_resets_timer() {
    let mut timer = CountDownTimer::new();
    timer.set_duration(0, 5);
    timer.toggle();
    timer.set_duration(1, 30);

    assert_eq!(timer.input_minutes, 1);
    assert_eq!(timer.input_seconds, 30);
    assert_eq!(timer.current_seconds, 0);
    assert!(!timer.is_running);
}

#[test]
fn test_multiple_ticks_until_completion() {
    let mut recorder = Recorder::default();
    let mut timer = CountDownTimer::new();
    timer.set_duration(0, 3);
    timer.toggle();

    // Tick 3 times to complete
    for _ in 0..3 {
        timer.last_tick = Some(Instant::now() - Duration::from_secs(2));
        recorder.hear(timer.tick(), VOLUME);
    }

    assert_eq!(timer.current_seconds, 0);
    assert!(!timer.is_running);
    assert_eq!(recorder.play_count, 1);
}

fn hear_phase(work: &mut Recorder, rest: &mut Recorder, chime: Chime) {
    work.hear(chime == Chime::Work, VOLUME);
    rest.hear(chime == Chime::Rest, VOLUME);
}

#[test]
fn test_emom_transitions() {
    let mut work_recorder = Recorder::default();
    let mut rest_recorder = Recorder::default();
    let mut timer = EMOMTimer::new();

    timer.rounds = 2;
    timer.work_timer.set_duration(0, 5);
    timer.rest_timer.set_duration(0, 3);

    // Start Round 1 Work
    timer.toggle();
    assert!(timer.is_running);
    assert_eq!(timer.current_round, 1);
    assert!(timer.is_work);
    assert!(timer.work_timer.is_running);

    // Finish Work
    work_recorder.hear(timer.work_timer.advance_seconds(5), VOLUME);
    hear_phase(&mut work_recorder, &mut rest_recorder, timer.step()); // Trigger transition

    // Check Transition to Rest
    assert!(timer.is_running);
    assert!(!timer.is_work);
    assert!(timer.rest_timer.is_running);
    assert_eq!(timer.rest_timer.current_seconds, 3);
    assert_eq!(work_recorder.play_count, 1);

    // Finish Rest
    rest_recorder.hear(timer.rest_timer.advance_seconds(3), VOLUME);
    hear_phase(&mut work_recorder, &mut rest_recorder, timer.step()); // Trigger transition

    // Check Transition to Round 2 Work
    assert!(timer.is_running);
    assert_eq!(timer.current_round, 2);
    assert!(timer.is_work);
    assert!(timer.work_timer.is_running);
    assert_eq!(rest_recorder.play_count, 1);

    // Finish Round 2 Work
    work_recorder.hear(timer.work_timer.advance_seconds(5), VOLUME);
    hear_phase(&mut work_recorder, &mut rest_recorder, timer.step());

    // Round 2 Rest
    assert!(!timer.is_work);
    assert!(timer.rest_timer.is_running);
    assert_eq!(work_recorder.play_count, 2);

    // Finish Round 2 Rest (End of EMOM)
    rest_recorder.hear(timer.rest_timer.advance_seconds(3), VOLUME);
    hear_phase(&mut work_recorder, &mut rest_recorder, timer.step());

    assert!(!timer.is_running);
    assert_eq!(rest_recorder.play_count, 2);
    assert_eq!(timer.current_round, 0);
}

#[test]
fn test_zero_rest_duration() {
    let mut timer = EMOMTimer::new();

    timer.rounds = 2;
    timer.work_timer.set_duration(0, 5);
    timer.rest_timer.set_duration(0, 0);

    timer.toggle();

    // Finish Work
    timer.work_timer.advance_seconds(5);
    timer.tick();

    // Should have skipped rest and gone to round 2 work immediately
    assert!(timer.is_running);
    assert_eq!(timer.current_round, 2);
    assert!(timer.is_work);
    assert!(timer.work_timer.is_running);
}

#[test]
fn test_toggle_plays_sound() {
    let mut recorder = Recorder::default();
    let mut metronome = Metronome::new();

    assert_eq!(recorder.play_count, 0);

    recorder.hear(metronome.toggle(), VOLUME / 100.0);

    assert_eq!(recorder.play_count, 1);
    assert_eq!(recorder.last_volume, Some(0.1)); // 10.0 / 100.0
}

#[test]
fn test_tick_plays_sound_on_interval() {
    let mut recorder = Recorder::default();
    let mut metronome = Metronome::new();

    metronome.is_running = true;
    metronome.last_tick = Some(Instant::now());

    // Tick too soon
    recorder.hear(metronome.tick(), VOLUME);
    assert_eq!(recorder.play_count, 0);

    // Simulate time passed
    metronome.last_tick = Some(Instant::now() - Duration::from_secs(2));
    recorder.hear(metronome.tick(), VOLUME);

    assert_eq!(recorder.play_count, 1);
    assert_eq!(recorder.last_volume, Some(10.0));
}

#[test]
fn countdown_steps_second_by_second() {
    let mut timer = CountDownTimer::new();
    timer.set_duration(1, 2);
    timer.start_or_stop();
    assert_eq!(timer.current_seconds, 62);
    assert_eq!(timer.minutes_and_seconds(), (1, 2));
    assert!(!timer.advance(false));
    assert_eq!(timer.current_seconds, 62);
    for left in (1..62).rev() {
        assert!(!timer.advance(true));
        assert_eq!(timer.current_seconds, left);
        assert!(timer.is_running);
    }
    assert!(timer.advance(true));
    assert_eq!(timer.current_seconds, 0);
    assert!(!timer.is_running);
    assert!(timer.last_tick.is_none());
    assert!(!timer.advance(true));
}

#[test]
fn countdown_resumes_from_what_is_left() {
    let mut timer = CountDownTimer::new();
    timer.set_duration(0, 10);
    timer.toggle();
    assert!(!timer.advance_seconds(4));
    assert_eq!(timer.current_seconds, 6);
    timer.toggle();
    assert!(!timer.is_running);
    assert!(!timer.advance(true));
    assert!(!timer.advance_seconds(1));
    assert_eq!(timer.current_seconds, 6);
    timer.toggle();
    assert!(timer.is_running);
    assert_eq!(timer.current_seconds, 6);
    assert!(timer.advance_seconds(6));
    assert_eq!(timer.current_seconds, 0);
    assert!(!timer.is_running);
}

#[test]
fn countdown_leaves_inputs_alone_that_are_too_large() {
    let mut timer = CountDownTimer::new();
    timer.set_duration(u32::MAX / 60 + 1, 0);
    assert!(!timer.fits());
    timer.toggle();
    assert!(!timer.is_running);
    assert_eq!(timer.current_seconds, 0);
    timer.set_duration(u32::MAX / 60, u32::MAX % 60);
    assert!(timer.fits());
    timer.toggle();
    assert!(timer.is_running);
    assert_eq!(timer.current_seconds, u32::MAX);
}

#[test]
fn rest_timer_is_a_countdown() {
    let mut timer = RestTimer::new();
    timer.set_duration(0, 2);
    timer.toggle();
    assert!(!timer.advance(true));
    assert!(timer.advance(true));
    assert!(!timer.is_running);
}

#[test]
fn rounds_pause_and_resume_the_current_phase() {
    let mut timer = EMOMTimer::new();
    timer.toggle();
    assert!(!timer.is_running);

    timer.rounds = 1;
    timer.work_timer.set_duration(0, 2);
    timer.rest_timer.set_duration(0, 1);
    timer.toggle();
    assert_eq!(timer.advance(true), Chime::Silent);
    assert_eq!(timer.work_timer.current_seconds, 1);

    timer.toggle();
    assert!(!timer.is_running);
    assert!(!timer.work_timer.is_running);
    assert_eq!(timer.advance(true), Chime::Silent);
    assert_eq!(timer.work_timer.current_seconds, 1);

    timer.toggle();
    assert!(timer.is_running);
    assert!(timer.work_timer.is_running);
    assert_eq!(timer.advance(true), Chime::Work);
    assert!(!timer.is_work);
    assert!(timer.rest_timer.is_running);
    assert_eq!(timer.advance(true), Chime::Rest);
    assert!(!timer.is_running);
    assert_eq!(timer.current_round, 0);
    assert!(timer.is_work);
}

#[test]
fn metronome_beats_only_while_it_runs() {
    let mut metronome = Metronome::new();
    assert_eq!(metronome.bpm, 60);
    assert!(!metronome.advance(true));
    assert!(metronome.toggle());
    assert!(metronome.is_running);
    assert!(!metronome.advance(false));
    assert!(metronome.advance(true));
    assert!(!metronome.toggle());
    assert!(!metronome.is_running);
    assert!(!metronome.advance(true));
    metronome.bpm = 0;
    metronome.toggle();
    metronome.last_tick = Some(Instant::now() - Duration::from_secs(2));
    assert!(!metronome.tick());
    metronome.bpm = 120;
    metronome.last_tick = Some(Instant::now() - Duration::from_millis(600));
    assert!(metronome.tick());
}

#[test]
fn a_second_is_due_after_a_full_second() {
    let mut timer = CountDownTimer::new();
    timer.set_duration(0, 5);
    assert!(!timer.second_due(5_000_000_000));
    timer.toggle();
    assert!(!timer.second_due(0));
    assert!(!timer.second_due(999_999_999));
    assert!(timer.second_due(1_000_000_000));
    assert!(timer.second_due(u128::MAX));
    timer.last_tick = None;
    assert!(!timer.second_due(1_000_000_000));
    assert!(!timer.second_passed());
    timer.last_tick = Some(Instant::now() - Duration::from_secs(1));
    assert!(timer.second_passed());
    timer.toggle();
    assert!(!timer.second_due(1_000_000_000));
    assert!(!timer.second_passed());
}

#[test]
fn rounds_read_the_clock_of_the_current_phase() {
    let mut timer = EMOMTimer::new();
    timer.rounds = 1;
    timer.work_timer.set_duration(0, 2);
    timer.rest_timer.set_duration(0, 2);
    timer.toggle();
    assert!(!timer.second_passed());
    timer.work_timer.last_tick = Some(Instant::now() - Duration::from_secs(1));
    assert!(timer.second_passed());
    timer.is_work = false;
    assert!(!timer.second_passed());
    timer.rest_timer.toggle();
    timer.rest_timer.last_tick = Some(Instant::now() - Duration::from_secs(1));
    assert!(timer.second_passed());
}

#[test]
fn a_beat_is_due_after_its_part_of_a_minute() {
    let mut metronome = Metronome::new();
    assert!(!metronome.beat_is_due(u128::MAX));
    metronome.toggle();
    assert!(!metronome.beat_is_due(999_999_999));
    assert!(metronome.beat_is_due(1_000_000_000));
    metronome.bpm = 120;
    assert!(!metronome.beat_is_due(499_999_999));
    assert!(metronome.beat_is_due(500_000_000));
    metronome.bpm = 7;
    assert!(!metronome.beat_is_due(8_571_428_570));
    assert!(metronome.beat_is_due(8_571_428_571));
    metronome.bpm = 0;
    assert!(!metronome.beat_is_due(u128::MAX));
    metronome.bpm = 60;
    metronome.last_tick = None;
    assert!(!metronome.beat_is_due(1_000_000_000));
    assert!(!metronome.beat_passed());
    metronome.last_tick = Some(Instant::now());
    assert!(!metronome.beat_passed());
    metronome.last_tick = Some(Instant::now() - Duration::from_secs(1));
    assert!(metronome.beat_passed());
}
