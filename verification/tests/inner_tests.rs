use pommo::timer::timer_inner::{CommandWait, TickResult, TimerInner};
use pommo::timer::timer_shared::{TimerCommand, TimerCommandType, TimerState};

fn command(command_type: TimerCommandType) -> Option<TimerCommand> {
    Some(TimerCommand::new(command_type))
}

#[test]
fn new_inner_timer_is_paused() {
    let timer = TimerInner::new(1_000);
    assert_eq!(timer.get_state(), TimerState::Paused);
    assert_eq!(timer.get_time_elapsed(), 0);
    assert_eq!(timer.command_wait(), CommandWait::Block);
}

#[test]
fn command_new_keeps_type() {
    let c = TimerCommand::new(TimerCommandType::End);
    assert_eq!(c.command_type, TimerCommandType::End);
}

#[test]
fn start_then_tick_then_finish() {
    let mut timer = TimerInner::new(1_000);
    let start = command(TimerCommandType::Start);
    assert_eq!(timer.tick_with_interval(start, 0), TickResult::Continue);
    assert_eq!(timer.get_state(), TimerState::Ticking { start_time: start.unwrap().invoked_at });
    assert_eq!(timer.command_wait(), CommandWait::Check);
    assert_eq!(timer.tick_with_interval(None, 400), TickResult::Continue);
    assert_eq!(timer.get_time_elapsed(), 400);
    assert_eq!(timer.tick_with_interval(None, 1_000), TickResult::Finished);
    assert_eq!(timer.get_state(), TimerState::Finished);
    assert_eq!(timer.command_wait(), CommandWait::Skip);
    assert_eq!(timer.tick_with_interval(command(TimerCommandType::Start), 0), TickResult::Finished);
}

#[test]
fn pause_banks_the_interval() {
    let mut timer = TimerInner::new(1_000);
    timer.tick_with_interval(command(TimerCommandType::Start), 0);
    assert_eq!(timer.tick_with_interval(command(TimerCommandType::Pause), 300), TickResult::Paused);
    assert_eq!(timer.get_state(), TimerState::Paused);
    assert_eq!(timer.get_time_elapsed(), 300);
    timer.tick_with_interval(command(TimerCommandType::Start), 0);
    assert_eq!(timer.tick_with_interval(None, 200), TickResult::Continue);
    assert_eq!(timer.get_time_elapsed(), 500);
    assert_eq!(timer.tick_with_interval(command(TimerCommandType::Pause), 800), TickResult::Finished);
    assert_eq!(timer.get_state(), TimerState::Finished);
    assert_eq!(timer.get_time_elapsed(), 1_100);
}

#[test]
fn end_finishes_from_either_state() {
    let mut paused = TimerInner::new(1_000);
    assert_eq!(paused.tick_with_interval(command(TimerCommandType::End), 0), TickResult::Finished);
    assert_eq!(paused.get_state(), TimerState::Finished);

    let mut ticking = TimerInner::new(1_000);
    ticking.tick_with_interval(command(TimerCommandType::Start), 0);
    assert_eq!(ticking.tick_with_interval(command(TimerCommandType::End), 250), TickResult::Finished);
    assert_eq!(ticking.get_time_elapsed(), 250);
    assert_eq!(ticking.get_state(), TimerState::Finished);
}

#[test]
fn paused_timer_ignores_pause_and_no_command() {
    let mut timer = TimerInner::new(1_000);
    assert_eq!(timer.tick_with_interval(None, 0), TickResult::Paused);
    assert_eq!(timer.tick_with_interval(command(TimerCommandType::Pause), 0), TickResult::Paused);
    assert_eq!(timer.get_state(), TimerState::Paused);
}

#[test]
fn tick_measures_on_clock() {
    let mut timer = TimerInner::new(1_000_000_000_000);
    assert_eq!(timer.tick(command(TimerCommandType::Start)), TickResult::Continue);
    assert_eq!(timer.tick(None), TickResult::Continue);
    assert_eq!(timer.tick(command(TimerCommandType::Pause)), TickResult::Paused);
    assert_eq!(timer.get_state(), TimerState::Paused);
}

#[test]
fn pause_is_measured_between_time_stamps() {
    let mut timer = TimerInner::new(1_000_000_000_000);
    let start = TimerCommand::new(TimerCommandType::Start);
    assert_eq!(timer.tick(Some(start)), TickResult::Continue);
    let pause = TimerCommand {
        command_type: TimerCommandType::Pause,
        invoked_at: start.invoked_at + std::time::Duration::from_millis(300),
    };
    assert_eq!(timer.tick(Some(pause)), TickResult::Paused);
    assert_eq!(timer.get_time_elapsed(), 300_000_000);
}

#[test]
fn end_is_measured_between_time_stamps() {
    let mut timer = TimerInner::new(1_000_000_000_000);
    let start = TimerCommand::new(TimerCommandType::Start);
    timer.tick(Some(start));
    let end = TimerCommand {
        command_type: TimerCommandType::End,
        invoked_at: start.invoked_at + std::time::Duration::from_millis(40),
    };
    assert_eq!(timer.tick(Some(end)), TickResult::Finished);
    assert_eq!(timer.get_time_elapsed(), 40_000_000);
    assert_eq!(timer.get_state(), TimerState::Finished);
}
