use std::time::Instant;
use vstd::prelude::*;
use crate::clock::{instant_gap, nanos_between, nanos_since, MAX_DURATION_NANOS};
use super::timer_shared::{TimerCommand, TimerCommandType, TimerState};

verus! {

/// What one tick of the timer asks of the loop that drives it.
#[derive(Debug, Clone, Copy, PartialEq, Eq, Structural)]
pub enum TickResult {
    /// The timer is ticking: wait a moment and tick again.
    Continue,
    /// The timer is paused: tick again when a command comes.
    Paused,
    /// The timer is done: stop ticking.
    Finished,
}

/// How the next tick wants its command.
#[derive(Debug, Clone, Copy, PartialEq, Eq, Structural)]
pub enum CommandWait {
    /// Ticking: take a command if one is waiting, without blocking.
    Check,
    /// Paused: block until a command comes.
    Block,
    /// Finished: take no command.
    Skip,
}

/// The abstract state of a [`TimerInner`]: its length, the time banked before
/// the current interval, the total time elapsed as last published, and where
/// it stands. Times are in nanoseconds.
pub struct InnerModel {
    pub duration: nat,
    pub banked: nat,
    pub time_elapsed: nat,
    pub state: TimerState,
}

impl InnerModel {
    /// What every ticking timer keeps: it has banked no more than its length,
    /// and its length fits a `Duration`.
    pub open spec fn wf(self) -> bool {
        self.banked <= self.duration <= MAX_DURATION_NANOS
    }

    /// The timer once `interval` of the current interval is added to the
    /// banked time and published; it finishes once the total reaches its length.
    pub open spec fn added(self, interval: nat) -> InnerModel {
        let total = self.banked + interval;
        InnerModel {
            time_elapsed: total,
            state: if total >= self.duration { TimerState::Finished } else { self.state },
            ..self
        }
    }

    /// Whether the total after adding `interval` reaches the timer's length.
    pub open spec fn reaches_end(self, interval: nat) -> bool {
        self.banked + interval >= self.duration
    }

    /// One tick, given the command it took and the length `interval` of the
    /// current interval up to that command (or up to now, with no pause or end
    /// command): the timer after the tick and what the tick answers.
    pub open spec fn step(self, command: Option<TimerCommand>, interval: nat) -> (InnerModel, TickResult) {
        match self.state {
            TimerState::Finished => (self, TickResult::Finished),
            TimerState::Ticking { .. } => {
                let added = self.added(interval);
                match command {
                    Some(c) if c.command_type == TimerCommandType::Pause => {
                        if self.reaches_end(interval) {
                            (added, TickResult::Finished)
                        } else {
                            (
                                InnerModel { banked: added.time_elapsed, state: TimerState::Paused, ..added },
                                TickResult::Paused,
                            )
                        }
                    },
                    Some(c) if c.command_type == TimerCommandType::End => {
                        (InnerModel { state: TimerState::Finished, ..added }, TickResult::Finished)
                    },
                    _ => {
                        if self.reaches_end(interval) {
                            (added, TickResult::Finished)
                        } else {
                            (added, TickResult::Continue)
                        }
                    },
                }
            },
            TimerState::Paused => {
                match command {
                    Some(c) if c.command_type == TimerCommandType::Start => {
                        (
                            InnerModel { state: TimerState::Ticking { start_time: c.invoked_at }, ..self },
                            TickResult::Continue,
                        )
                    },
                    Some(c) if c.command_type == TimerCommandType::End => {
                        (InnerModel { state: TimerState::Finished, ..self }, TickResult::Finished)
                    },
                    _ => (self, TickResult::Paused),
                }
            },
        }
    }
}

/// The state and decisions of a timer that ticks in a loop of its own and
/// takes its commands one at a time.
pub struct TimerInner {
    duration: u128,
    time_elapsed_previous_intervals: u128,
    time_elapsed: u128,
    timer_state: TimerState,
}

impl View for TimerInner {
    type V = InnerModel;

    closed spec fn view(&self) -> InnerModel {
        InnerModel {
            duration: self.duration as nat,
            banked: self.time_elapsed_previous_intervals as nat,
            time_elapsed: self.time_elapsed as nat,
            state: self.timer_state,
        }
    }
}

impl TimerInner {
    #[verifier::type_invariant]
    spec fn inv(self) -> bool {
        self@.wf()
    }

    /// A paused timer of `duration` nanoseconds with nothing elapsed.
    pub fn new(duration: u128) -> (timer: TimerInner)
        requires
            duration <= MAX_DURATION_NANOS,
        ensures
            timer@ == (InnerModel { duration: duration as nat, banked: 0, time_elapsed: 0, state: TimerState::Paused }),
    {
        TimerInner {
            duration,
            timer_state: TimerState::Paused,
            time_elapsed: 0,
            time_elapsed_previous_intervals: 0,
        }
    }

    /// Where the timer stands.
    pub fn get_state(&self) -> (state: TimerState)
        ensures
            state == self@.state,
    {
        self.timer_state
    }

    /// The total time elapsed as last published, in nanoseconds.
    pub fn get_time_elapsed(&self) -> (time_elapsed: u128)
        ensures
            time_elapsed == self@.time_elapsed,
    {
        self.time_elapsed
    }

    /// How the next tick takes its command: without blocking while ticking,
    /// blocking while paused, and none once finished.
    pub fn command_wait(&self) -> (wait: CommandWait)
        ensures
            wait == (match self@.state {
                TimerState::Ticking { .. } => CommandWait::Check,
                TimerState::Paused => CommandWait::Block,
                TimerState::Finished => CommandWait::Skip,
            }),
    {
        match self.get_state() {
            TimerState::Ticking { .. } => CommandWait::Check,
            TimerState::Paused => CommandWait::Block,
            TimerState::Finished => CommandWait::Skip,
        }
    }

    /// One tick: handles `command`, taken as `command_wait` says, and measures
    /// the current interval: up to the command's time stamp for a pause or an
    /// end, else up to now on the clock.
    pub fn tick(&mut self, command: Option<TimerCommand>) -> (result: TickResult)
        ensures
            (match (old(self)@.state, command) {
                (TimerState::Ticking { start_time }, Some(c)) => (c.command_type == TimerCommandType::Pause
                    || c.command_type == TimerCommandType::End) ==> old(self)@.step(
                    command,
                    instant_gap(start_time, c.invoked_at),
                ) == (final(self)@, result),
                _ => true,
            }),
            (match (old(self)@.state, command) {
                (TimerState::Ticking { start_time }, Some(c)) => c.command_type == TimerCommandType::Start
                    ==> exists|read_at: Instant|
                    #[trigger] old(self)@.step(command, instant_gap(start_time, read_at)) == (
                        final(self)@,
                        result,
                    ),
                (TimerState::Ticking { start_time }, None) => exists|read_at: Instant|
                    #[trigger] old(self)@.step(command, instant_gap(start_time, read_at)) == (
                        final(self)@,
                        result,
                    ),
                _ => true,
            }),
            exists|interval: nat|
                interval <= MAX_DURATION_NANOS && #[trigger] old(self)@.step(command, interval) == (
                final(self)@,
                result,
            ),
    {
        let current_state = self.get_state();
        let interval = match (current_state, command) {
            (TimerState::Ticking { start_time }, Some(c)) => {
                match c.command_type {
                    TimerCommandType::Pause | TimerCommandType::End => nanos_between(&start_time, &c.invoked_at),
                    TimerCommandType::Start => nanos_since(&start_time),
                }
            },
            (TimerState::Ticking { start_time }, None) => nanos_since(&start_time),
            _ => 0,
        };
        self.tick_with_interval(command, interval)
    }

    /// One tick as `tick` does, with `interval` as the length of the current
    /// interval.
    pub fn tick_with_interval(&mut self, command: Option<TimerCommand>, interval: u128) -> (result: TickResult)
        requires
            interval <= MAX_DURATION_NANOS,
        ensures
            old(self)@.step(command, interval as nat) == (final(self)@, result),
    {
        let current_state = self.get_state();
        match current_state {
            TimerState::Finished => TickResult::Finished,
            TimerState::Ticking { .. } => {
                match command {
                    Some(c) => {
                        match c.command_type {
                            TimerCommandType::Pause => self.pause_timer(interval),
                            TimerCommandType::End => self.end_timer(interval),
                            TimerCommandType::Start => self.increment_timer(interval),
                        }
                    },
                    None => self.increment_timer(interval),
                }
            },
            TimerState::Paused => {
                match command {
                    Some(c) => {
                        match c.command_type {
                            TimerCommandType::Start => {
                                self.set_state(TimerState::Ticking { start_time: c.invoked_at });
                                TickResult::Continue
                            },
                            TimerCommandType::End => {
                                self.set_state(TimerState::Finished);
                                TickResult::Finished
                            },
                            TimerCommandType::Pause => TickResult::Paused,
                        }
                    },
                    None => TickResult::Paused,
                }
            },
        }
    }

    fn set_state(&mut self, timer_state: TimerState)
        ensures
            final(self)@ == (InnerModel { state: timer_state, ..old(self)@ }),
    {
        proof {
            use_type_invariant(&*self);
        }
        self.timer_state = timer_state;
    }

    fn increment_timer(&mut self, interval: u128) -> (result: TickResult)
        requires
            interval <= MAX_DURATION_NANOS,
        ensures
            final(self)@ == old(self)@.added(interval as nat),
            result == if old(self)@.reaches_end(interval as nat) {
                TickResult::Finished
            } else {
                TickResult::Continue
            },
    {
        let (_, finished) = self.add_time_elapsed(interval);
        if finished {
            TickResult::Finished
        } else {
            TickResult::Continue
        }
    }

    fn pause_timer(&mut self, interval: u128) -> (result: TickResult)
        requires
            interval <= MAX_DURATION_NANOS,
        ensures
            old(self)@.reaches_end(interval as nat) ==> final(self)@ == old(self)@.added(interval as nat)
                && result == TickResult::Finished,
            !old(self)@.reaches_end(interval as nat) ==> final(self)@ == (InnerModel {
                banked: old(self)@.added(interval as nat).time_elapsed,
                state: TimerState::Paused,
                ..old(self)@.added(interval as nat)
            }) && result == TickResult::Paused,
    {
        let (new_total_time_elapsed, finished) = self.add_time_elapsed(interval);
        proof {
            use_type_invariant(&*self);
        }
        if finished {
            TickResult::Finished
        } else {
            self.time_elapsed_previous_intervals = new_total_time_elapsed;
            self.set_state(TimerState::Paused);
            TickResult::Paused
        }
    }

    fn end_timer(&mut self, interval: u128) -> (result: TickResult)
        requires
            interval <= MAX_DURATION_NANOS,
        ensures
            final(self)@ == (InnerModel { state: TimerState::Finished, ..old(self)@.added(interval as nat) }),
            result == TickResult::Finished,
    {
        self.add_time_elapsed(interval);
        self.set_state(TimerState::Finished);
        TickResult::Finished
    }

    fn add_time_elapsed(&mut self, time_elapsed: u128) -> (result: (u128, bool))
        requires
            time_elapsed <= MAX_DURATION_NANOS,
        ensures
            final(self)@ == old(self)@.added(time_elapsed as nat),
            result.0 == final(self)@.time_elapsed,
            result.1 == old(self)@.reaches_end(time_elapsed as nat),
            result.1 || result.0 < old(self)@.duration,
    {
        proof {
            use_type_invariant(&*self);
        }
        self.time_elapsed = self.time_elapsed_previous_intervals + time_elapsed;
        let total_time_elapsed = self.time_elapsed;
        let mut finished = false;
        if total_time_elapsed >= self.duration {
            self.set_state(TimerState::Finished);
            finished = true;
        }
        (total_time_elapsed, finished)
    }
}

/// A finished timer stays finished: every tick leaves it as it is and answers
/// `Finished`.
pub proof fn lemma_finished_is_final(timer: InnerModel, command: Option<TimerCommand>, interval: nat)
    requires
        timer.state == TimerState::Finished,
    ensures
        timer.step(command, interval) == (timer, TickResult::Finished),
{
}

/// Every tick keeps the timer well formed with its length unchanged, and a
/// tick that answers `Finished` leaves the timer finished.
pub proof fn lemma_tick_keeps_wf(timer: InnerModel, command: Option<TimerCommand>, interval: nat)
    requires
        timer.wf(),
    ensures
        timer.step(command, interval).0.wf(),
        timer.step(command, interval).0.duration == timer.duration,
        timer.step(command, interval).1 == TickResult::Finished ==> timer.step(command, interval).0.state
            == TimerState::Finished,
{
}

/// The banked time never goes down, and while ticking the published total is
/// the banked time plus the interval; a tick that pauses banks that total.
pub proof fn lemma_tick_banks_total(timer: InnerModel, command: Option<TimerCommand>, interval: nat)
    requires
        timer.wf(),
    ensures
        timer.banked <= timer.step(command, interval).0.banked,
        timer.state is Ticking ==> timer.step(command, interval).0.time_elapsed == timer.banked + interval,
        timer.state is Ticking && timer.step(command, interval).1 == TickResult::Paused
            ==> timer.step(command, interval).0.banked == timer.banked + interval,
{
}

/// What one tick does, case by case, given the span `interval` of the current
/// run:
/// - ticking, with no command or a start: it keeps ticking from the same
///   start, publishes its banked time plus `interval` and answers `Continue`,
///   or finishes once that total reaches its length;
/// - ticking, with a pause: it banks that total and pauses, or finishes once
///   the total reaches its length;
/// - ticking, with an end: it publishes that total and finishes;
/// - paused, with a start: it ticks from the command's time stamp, keeping
///   its times; with an end it finishes; with no command or a pause it stays
///   as it is.
pub proof fn lemma_tick_transitions(timer: InnerModel, command: Option<TimerCommand>, interval: nat)
    requires
        timer.wf(),
    ensures
        ({
            let (next, result) = timer.step(command, interval);
            let total = timer.banked + interval;
            match timer.state {
                TimerState::Ticking { start_time } => {
                    &&& next.duration == timer.duration
                    &&& next.time_elapsed == total
                    &&& (command is None || command->0.command_type == TimerCommandType::Start) ==> {
                        &&& next.banked == timer.banked
                        &&& total < timer.duration ==> result == TickResult::Continue && next.state
                            == (TimerState::Ticking { start_time })
                        &&& total >= timer.duration ==> result == TickResult::Finished && next.state
                            == TimerState::Finished
                    }
                    &&& (command is Some && command->0.command_type == TimerCommandType::Pause) ==> {
                        &&& total < timer.duration ==> result == TickResult::Paused && next.state
                            == TimerState::Paused && next.banked == total
                        &&& total >= timer.duration ==> result == TickResult::Finished && next.state
                            == TimerState::Finished
                    }
                    &&& (command is Some && command->0.command_type == TimerCommandType::End) ==> {
                        result == TickResult::Finished && next.state == TimerState::Finished
                    }
                },
                TimerState::Paused => {
                    &&& next.duration == timer.duration
                    &&& next.banked == timer.banked
                    &&& next.time_elapsed == timer.time_elapsed
                    &&& (command is Some && command->0.command_type == TimerCommandType::Start) ==> {
                        result == TickResult::Continue && next.state == (TimerState::Ticking {
                            start_time: command->0.invoked_at,
                        })
                    }
                    &&& (command is Some && command->0.command_type == TimerCommandType::End) ==> {
                        result == TickResult::Finished && next.state == TimerState::Finished
                    }
                    &&& (command is None || command->0.command_type == TimerCommandType::Pause) ==> {
                        result == TickResult::Paused && next == timer
                    }
                },
                TimerState::Finished => next == timer && result == TickResult::Finished,
            }
        }),
{
}

} // verus!
