use std::time::{Duration, Instant};

use pommo::timer::{Timer, TimerState};

/// an arbitrary acceptable error for difference in time
const EPSILON: Duration = Duration::from_millis(1);

const DURATION: Duration = Duration::from_millis(50);

fn wait_for(span: Duration) {
    let start = Instant::now();
    while start.elapsed() < span {
        std::hint::spin_loop();
    }
}

/// pause not long enough to complete the timer
fn short_pause() {
    wait_for(Duration::from_millis(5));
}

/// long enough pause to complete the timer
fn long_pause() {
    wait_for(Duration::from_millis(60));
}


fn left(timer: &mut Timer) -> (Duration, TimerState) {
    let (left, state) = timer.check_time();
    (Duration::from_nanos(left as u64), state)
}

#[test]
fn instantiates_with_correct_values() {
    let timer = Timer::new(DURATION.as_nanos());

    assert_eq!(timer.duration(), DURATION.as_nanos());
    assert!(matches!(timer.get_state(), TimerState::Ready));
    assert!(Duration::from_nanos(timer.time_elapsed_previous_intervals() as u64).is_zero());
    assert!(Instant::now() - timer.last_state_change_at() < EPSILON);
}

#[test]
fn can_start_timer() {
    let mut timer = Timer::new(DURATION.as_nanos());

    timer.start();
    short_pause();

    let (_, timer_state) = left(&mut timer);
    assert!(matches!(timer_state, TimerState::Running));
}

#[test]
fn timer_finishes_when_run_for_duration() {
    let mut timer = Timer::new(DURATION.as_nanos());

    timer.start();
    long_pause();

    let (time_left, timer_state) = left(&mut timer);
    assert!(matches!(timer_state, TimerState::Completed));
    assert!(time_left.is_zero());
}

#[test]
fn can_pause_timer_when_ticking() {
    let mut timer = Timer::new(DURATION.as_nanos());

    timer.start();
    short_pause();
    timer.pause();

    let (_, timer_state) = left(&mut timer);
    assert!(matches!(timer_state, TimerState::Paused));
}

#[test]
fn time_elapsed_is_accurate_when_paused() {
    let mut timer = Timer::new(DURATION.as_nanos());

    let start_time_test = Instant::now();

    timer.start();
    short_pause();
    timer.pause();

    let time_left_test = DURATION.saturating_sub(start_time_test.elapsed());

    let (time_left_timer, _) = left(&mut timer);
    let time_difference = time_left_timer.abs_diff(time_left_test);
    assert!(time_difference <= EPSILON);
}

#[test]
fn time_elapsed_is_accurate_while_ticking() {
    let mut timer = Timer::new(DURATION.as_nanos());

    let start_time_test = Instant::now();

    timer.start();
    short_pause();

    let time_left_test = DURATION.saturating_sub(start_time_test.elapsed());

    let (time_left_timer, _) = left(&mut timer);
    let time_difference = time_left_timer.abs_diff(time_left_test);
    assert!(time_difference <= EPSILON);
}

#[test]
fn time_elapsed_is_accurate_when_paused_and_unpaused_repeatedly() {
    let mut timer = Timer::new(DURATION.as_nanos());

    let mut time_elapsed_test = Duration::ZERO;

    for _ in 0..5 {
        let start_time_test = Instant::now();

        timer.start();
        short_pause();
        timer.pause();

        time_elapsed_test += start_time_test.elapsed();

        short_pause();
    }

    let time_left_test = DURATION.saturating_sub(time_elapsed_test);

    let (time_left_timer, _) = left(&mut timer);
    let time_difference = time_left_timer.abs_diff(time_left_test);
    assert!(time_difference <= EPSILON);
}

#[test]
fn check_time_with_elapsed_gives_time_left() {
    let mut timer = Timer::new(50_000_000);
    timer.start_with_elapsed(0);
    assert_eq!(timer.check_time_with_elapsed(10_000_000), (40_000_000, TimerState::Running));
    assert_eq!(timer.get_state(), TimerState::Running);
    assert_eq!(timer.time_elapsed_previous_intervals(), 0);
}

#[test]
fn check_time_with_elapsed_completes_at_length() {
    let mut timer = Timer::new(50_000_000);
    timer.start_with_elapsed(0);
    assert_eq!(timer.check_time_with_elapsed(50_000_000), (0, TimerState::Completed));
    assert_eq!(timer.time_elapsed_previous_intervals(), 50_000_000);
    // a completed timer stays completed
    timer.start_with_elapsed(0);
    assert_eq!(timer.get_state(), TimerState::Completed);
    timer.pause_with_elapsed(0);
    assert_eq!(timer.get_state(), TimerState::Completed);
    assert_eq!(timer.check_time(), (0, TimerState::Completed));
}

#[test]
fn pause_banks_elapsed_time() {
    let mut timer = Timer::new(50_000_000);
    timer.start_with_elapsed(0);
    timer.pause_with_elapsed(20_000_000);
    assert_eq!(timer.get_state(), TimerState::Paused);
    assert_eq!(timer.time_elapsed_previous_intervals(), 20_000_000);
    // a paused timer does not advance
    assert_eq!(timer.check_time(), (30_000_000, TimerState::Paused));
    assert_eq!(timer.check_time(), (30_000_000, TimerState::Paused));
}

#[test]
fn start_past_length_completes() {
    let mut timer = Timer::new(50_000_000);
    timer.start_with_elapsed(70_000_000);
    assert_eq!(timer.get_state(), TimerState::Completed);
    assert_eq!(timer.time_elapsed_previous_intervals(), 50_000_000);
}

#[test]
fn ready_timer_reports_full_length() {
    let mut timer = Timer::new(50_000_000);
    assert_eq!(timer.check_time(), (50_000_000, TimerState::Ready));
}

#[test]
fn zero_length_timer_completes_on_start() {
    let mut timer = Timer::new(0);
    timer.start();
    assert_eq!(timer.get_state(), TimerState::Completed);
}

#[test]
fn time_left_never_increases_with_later_readings() {
    let mut timer = Timer::new(50_000_000);
    timer.start_with_elapsed(0);
    let (first, _) = timer.check_time_with_elapsed(10_000_000);
    timer.pause_with_elapsed(20_000_000);
    let (second, _) = timer.check_time_with_elapsed(20_000_000);
    timer.start_with_elapsed(20_000_000);
    let (third, _) = timer.check_time_with_elapsed(35_000_000);
    assert!(second <= first && third <= second);
    assert_eq!((first, second, third), (40_000_000, 30_000_000, 15_000_000));
}

#[test]
fn completed_timer_keeps_its_instant() {
    let mut timer = Timer::new(0);
    timer.start();
    assert_eq!(timer.get_state(), TimerState::Completed);
    let stamp = timer.last_state_change_at();
    wait_for(Duration::from_millis(2));
    timer.start();
    timer.pause();
    assert_eq!(timer.last_state_change_at(), stamp);
}

#[test]
fn check_time_keeps_stamp_of_running_timer() {
    let mut timer = Timer::new(DURATION.as_nanos());
    timer.start();
    let stamp = timer.last_state_change_at();
    short_pause();
    let (time_left, state) = left(&mut timer);
    assert_eq!(state, TimerState::Running);
    assert!(time_left < DURATION);
    assert_eq!(timer.last_state_change_at(), stamp);
}

#[test]
fn running_timer_checked_every_frame_completes() {
    let mut timer = Timer::new(DURATION.as_nanos());
    timer.start();
    let begun = Instant::now();
    let mut previous = DURATION;
    while begun.elapsed() < Duration::from_millis(70) {
        let (time_left, _) = left(&mut timer);
        assert!(time_left <= previous);
        previous = time_left;
    }
    let (time_left, state) = left(&mut timer);
    assert_eq!(state, TimerState::Completed);
    assert!(time_left.is_zero());
}
