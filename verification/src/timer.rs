pub mod timer_inner;
pub mod timer_shared;

use std::time::Instant;
use vstd::prelude::*;
use crate::clock::{instant_gap, now, nanos_since, MAX_DURATION_NANOS};

verus! {

/// Where a timer stands.
#[derive(Debug, Clone, Copy, PartialEq, Eq, Structural)]
pub enum TimerState {
    Ready,
    Running,
    Paused,
    Completed,
}

/// What a user may ask of a timer that has not completed.
enum TimerCommand {
    Start,
    Pause,
}

/// The abstract state of a [`Timer`]: its length, where it stands, the
/// time it had run, in nanoseconds, when it was last put in a state, and the
/// instant it was last put in a state.
pub struct TimerModel {
    pub duration: nat,
    pub state: TimerState,
    pub banked: nat,
    pub changed_at: Instant,
}

impl TimerModel {
    /// What every timer keeps: it has not run past its length, its length
    /// fits a `Duration`, and a completed timer has run its whole length.
    pub open spec fn wf(self) -> bool {
        &&& self.banked <= self.duration
        &&& self.duration <= MAX_DURATION_NANOS
        &&& self.state == TimerState::Completed ==> self.banked == self.duration
    }

    /// Whether `elapsed` is a time the timer may have run when it is read:
    /// while it runs, the banked time plus the span from the instant it was
    /// last put in a state to some instant on the clock; while it does not,
    /// the banked time exactly.
    pub open spec fn may_have_elapsed(self, elapsed: nat) -> bool {
        if self.state == TimerState::Running {
            &&& elapsed <= self.banked + MAX_DURATION_NANOS
            &&& exists|read_at: Instant| elapsed == self.banked + #[trigger] instant_gap(self.changed_at, read_at)
        } else {
            elapsed == self.banked
        }
    }

    /// The time left once `elapsed` has run: zero once the length is reached.
    pub open spec fn time_left(self, elapsed: nat) -> nat {
        if elapsed >= self.duration {
            0
        } else {
            (self.duration - elapsed) as nat
        }
    }

    /// The timer after it is checked with `elapsed` run: it completes at
    /// instant `stamp`, with its whole length banked, once `elapsed` reaches
    /// its length; else it is left wholly as it was.
    pub open spec fn settled(self, elapsed: nat, stamp: Instant) -> TimerModel {
        if elapsed >= self.duration {
            TimerModel {
                duration: self.duration,
                state: TimerState::Completed,
                banked: self.duration,
                changed_at: stamp,
            }
        } else {
            self
        }
    }

    /// The timer after it is started (`target` Running) or paused (`target`
    /// Paused) with `elapsed` run, the change made at instant `stamp`: a
    /// completed timer stays wholly as it is; one that has reached its length
    /// completes; any other banks `elapsed` and moves to `target`.
    pub open spec fn commanded(self, target: TimerState, elapsed: nat, stamp: Instant) -> TimerModel {
        if self.state == TimerState::Completed {
            self
        } else if elapsed >= self.duration {
            TimerModel {
                duration: self.duration,
                state: TimerState::Completed,
                banked: self.duration,
                changed_at: stamp,
            }
        } else {
            TimerModel { duration: self.duration, state: target, banked: elapsed, changed_at: stamp }
        }
    }
}

/// A countdown timer that can be started, paused and resumed.
#[derive(Debug)]
pub struct Timer {
    duration: u128,
    state: TimerState,
    last_state_change_at: Instant,
    time_elapsed_previous_intervals: u128,
}

impl View for Timer {
    type V = TimerModel;

    closed spec fn view(&self) -> TimerModel {
        TimerModel {
            duration: self.duration as nat,
            state: self.state,
            banked: self.time_elapsed_previous_intervals as nat,
            changed_at: self.last_state_change_at,
        }
    }
}

impl Timer {
    #[verifier::type_invariant]
    spec fn inv(self) -> bool {
        self@.wf()
    }

    /// A timer of `duration` nanoseconds that has not been started.
    pub fn new(duration: u128) -> (timer: Timer)
        requires
            duration <= MAX_DURATION_NANOS,
        ensures
            timer@.duration == duration,
            timer@.state == TimerState::Ready,
            timer@.banked == 0,
    {
        Timer {
            duration,
            last_state_change_at: now(),
            time_elapsed_previous_intervals: 0,
            state: TimerState::Ready,
        }
    }

    /// The state the timer was last put in.
    pub fn get_state(&self) -> (state: TimerState)
        ensures
            state == self@.state,
    {
        self.state
    }

    /// The timer's length, in nanoseconds.
    pub fn duration(&self) -> (duration: u128)
        ensures
            duration == self@.duration,
    {
        self.duration
    }

    /// The time the timer had run when it last changed state, in nanoseconds.
    pub fn time_elapsed_previous_intervals(&self) -> (banked: u128)
        ensures
            banked == self@.banked,
    {
        self.time_elapsed_previous_intervals
    }

    /// When the timer was last put in a state.
    pub fn last_state_change_at(&self) -> (instant: Instant)
        ensures
            instant == self@.changed_at,
    {
        self.last_state_change_at
    }

    /// Checks the timer against the clock: completes it once it has run its
    /// length, and gives the time left and the state.
    pub fn check_time(&mut self) -> (result: (u128, TimerState))
        ensures
            old(self)@.wf(),
            final(self)@.wf(),
            exists|elapsed: nat|
                #[trigger] old(self)@.may_have_elapsed(elapsed) && final(self)@ == old(self)@.settled(
                    elapsed,
                    final(self)@.changed_at,
                )
                    && result.0 == old(self)@.time_left(elapsed) && result.1 == final(self)@.state,
    {
        proof {
            use_type_invariant(&*self);
        }
        let time_elapsed = self.get_time_elapsed();
        self.check_time_with_elapsed(time_elapsed)
    }

    /// Checks the timer as `check_time` does, with `time_elapsed` as the time
    /// it has run.
    pub fn check_time_with_elapsed(&mut self, time_elapsed: u128) -> (result: (u128, TimerState))
        ensures
            final(self)@ == old(self)@.settled(time_elapsed as nat, final(self)@.changed_at),
            result.0 == old(self)@.time_left(time_elapsed as nat),
            result.1 == final(self)@.state,
    {
        proof {
            use_type_invariant(&*self);
        }
        if time_elapsed >= self.duration {
            self.time_elapsed_previous_intervals = self.duration;
            self.set_state(TimerState::Completed);
            return (0, self.state);
        }
        (self.duration - time_elapsed, self.state)
    }

    /// Pauses the timer, banking the time it has run; completes it instead
    /// once it has run its length. A completed timer is left as it is.
    pub fn pause(&mut self)
        ensures
            exists|elapsed: nat|
                #[trigger] old(self)@.may_have_elapsed(elapsed) && final(self)@ == old(self)@.commanded(
                    TimerState::Paused,
                    elapsed,
                    final(self)@.changed_at,
                ),
    {
        self.send_command(TimerCommand::Pause);
    }

    /// Starts or resumes the timer, banking the time it has run; completes it
    /// instead once it has run its length. A completed timer is left as it is.
    pub fn start(&mut self)
        ensures
            exists|elapsed: nat|
                #[trigger] old(self)@.may_have_elapsed(elapsed) && final(self)@ == old(self)@.commanded(
                    TimerState::Running,
                    elapsed,
                    final(self)@.changed_at,
                ),
    {
        self.send_command(TimerCommand::Start);
    }

    /// Pauses the timer as `pause` does, with `time_elapsed` as the time it
    /// has run.
    pub fn pause_with_elapsed(&mut self, time_elapsed: u128)
        ensures
            final(self)@ == old(self)@.commanded(TimerState::Paused, time_elapsed as nat, final(self)@.changed_at),
    {
        self.apply_command(TimerCommand::Pause, time_elapsed);
    }

    /// Starts the timer as `start` does, with `time_elapsed` as the time it
    /// has run.
    pub fn start_with_elapsed(&mut self, time_elapsed: u128)
        ensures
            final(self)@ == old(self)@.commanded(TimerState::Running, time_elapsed as nat, final(self)@.changed_at),
    {
        self.apply_command(TimerCommand::Start, time_elapsed);
    }

    fn send_command(&mut self, command: TimerCommand)
        ensures
            exists|elapsed: nat|
                #[trigger] old(self)@.may_have_elapsed(elapsed) && final(self)@ == old(self)@.commanded(
                    command_target(command),
                    elapsed,
                    final(self)@.changed_at,
                ),
    {
        proof {
            use_type_invariant(&*self);
        }
        if self.state == TimerState::Completed {
            assert(old(self)@.may_have_elapsed(old(self)@.banked));
            return;
        }
        let time_elapsed = self.get_time_elapsed();
        self.apply_command(command, time_elapsed);
    }

    fn apply_command(&mut self, command: TimerCommand, time_elapsed: u128)
        ensures
            final(self)@ == old(self)@.commanded(command_target(command), time_elapsed as nat, final(self)@.changed_at),
    {
        proof {
            use_type_invariant(&*self);
        }
        if self.state == TimerState::Completed {
            return;
        }
        if time_elapsed >= self.duration {
            self.time_elapsed_previous_intervals = self.duration;
            self.set_state(TimerState::Completed);
            return;
        }
        self.time_elapsed_previous_intervals = time_elapsed;
        match command {
            TimerCommand::Start => self.set_state(TimerState::Running),
            TimerCommand::Pause => self.set_state(TimerState::Paused),
        };
    }

    fn get_time_elapsed(&self) -> (elapsed: u128)
        ensures
            self@.may_have_elapsed(elapsed as nat),
    {
        proof {
            use_type_invariant(self);
        }
        if self.state == TimerState::Running {
            let running_for = nanos_since(&self.last_state_change_at);
            proof {
                let read_at = choose|read_at: Instant|
                    running_for == #[trigger] instant_gap(self.last_state_change_at, read_at);
                assert(self.time_elapsed_previous_intervals + running_for == self@.banked + instant_gap(
                    self@.changed_at,
                    read_at,
                ));
            }
            self.time_elapsed_previous_intervals + running_for
        } else {
            self.time_elapsed_previous_intervals
        }
    }

    fn set_state(&mut self, state: TimerState)
        requires
            state == TimerState::Completed ==> old(self)@.banked == old(self)@.duration,
        ensures
            final(self)@ == (TimerModel { state, changed_at: final(self)@.changed_at, ..old(self)@ }),
    {
        proof {
            use_type_invariant(&*self);
        }
        self.state = state;
        self.last_state_change_at = now();
    }
}

spec fn command_target(command: TimerCommand) -> TimerState {
    match command {
        TimerCommand::Start => TimerState::Running,
        TimerCommand::Pause => TimerState::Paused,
    }
}

/// Once a timer has completed it stays completed, with its whole length
/// banked and nothing left: starting or pausing it changes nothing, and
/// checking it changes nothing but the instant it was last put in a state.
pub proof fn lemma_completed_is_final(timer: TimerModel, elapsed: nat, target: TimerState, stamp: Instant)
    requires
        timer.wf(),
        timer.state == TimerState::Completed,
        timer.may_have_elapsed(elapsed),
    ensures
        timer.settled(elapsed, stamp) == (TimerModel { changed_at: stamp, ..timer }),
        timer.time_left(elapsed) == 0,
        timer.commanded(target, elapsed, stamp) == timer,
{
}

/// The time a timer has run never goes down: checking, starting or pausing
/// it banks at least what it had banked, and no more than its length.
pub proof fn lemma_banked_never_decreases(timer: TimerModel, elapsed: nat, target: TimerState, stamp: Instant)
    requires
        timer.wf(),
        timer.may_have_elapsed(elapsed),
    ensures
        timer.banked <= timer.settled(elapsed, stamp).banked <= timer.duration,
        timer.banked <= timer.commanded(target, elapsed, stamp).banked <= timer.duration,
{
}

/// Every operation keeps a timer well formed, with its length unchanged.
pub proof fn lemma_operations_keep_wf(timer: TimerModel, elapsed: nat, target: TimerState, stamp: Instant)
    requires
        timer.wf(),
        target == TimerState::Running || target == TimerState::Paused,
    ensures
        timer.settled(elapsed, stamp).wf(),
        timer.settled(elapsed, stamp).duration == timer.duration,
        timer.commanded(target, elapsed, stamp).wf(),
        timer.commanded(target, elapsed, stamp).duration == timer.duration,
{
}

/// The time left and the time run add up to the timer's length until it
/// completes; the time left never exceeds the length; a check that does not
/// complete the timer leaves it wholly as it was.
pub proof fn lemma_time_left_accounts(timer: TimerModel, elapsed: nat, stamp: Instant)
    requires
        timer.wf(),
        timer.may_have_elapsed(elapsed),
    ensures
        timer.time_left(elapsed) <= timer.duration,
        elapsed < timer.duration ==> timer.time_left(elapsed) + elapsed == timer.duration,
        elapsed >= timer.duration <==> timer.settled(elapsed, stamp).state == TimerState::Completed,
        elapsed < timer.duration ==> timer.settled(elapsed, stamp) == timer,
{
}

/// A timer that is not running does not advance: every reading of it gives
/// the same outcome, with its banked time as the time run.
pub proof fn lemma_stopped_timer_is_steady(timer: TimerModel, first: nat, second: nat, stamp: Instant)
    requires
        timer.state != TimerState::Running,
        timer.may_have_elapsed(first),
        timer.may_have_elapsed(second),
    ensures
        first == second,
        first == timer.banked,
        timer.time_left(first) == timer.time_left(second),
        timer.settled(first, stamp) == timer.settled(second, stamp),
{
}

/// The time left never goes up while the clock does not go back: from a
/// reading `first` of `timer`, through a check, start or pause made at
/// `stamp` that leads to `next`, to any later reading `second` of `next`, the
/// time left is no more than it was.
pub proof fn lemma_time_left_never_increases(
    timer: TimerModel,
    first: nat,
    stamp: Instant,
    next: TimerModel,
    second: nat,
)
    requires
        timer.wf(),
        timer.may_have_elapsed(first),
        next == timer.settled(first, stamp) || next == timer.commanded(TimerState::Running, first, stamp)
            || next == timer.commanded(TimerState::Paused, first, stamp),
        next.may_have_elapsed(second),
        first <= second,
    ensures
        next.time_left(second) <= timer.time_left(first),
{
}

/// Each run from a start to a pause adds exactly its span to the time run: a
/// ready or paused timer started at `started_at`, read at `read_at` and
/// paused, has banked its earlier time plus the gap from `started_at` to
/// `read_at`, and then shows its length less that as the time left.
pub proof fn lemma_start_then_pause_banks_span(
    timer: TimerModel,
    started_at: Instant,
    read_at: Instant,
    paused_at: Instant,
)
    requires
        timer.wf(),
        timer.state == TimerState::Ready || timer.state == TimerState::Paused,
        timer.banked + instant_gap(started_at, read_at) < timer.duration,
    ensures
        ({
            let started = timer.commanded(TimerState::Running, timer.banked, started_at);
            let elapsed = timer.banked + instant_gap(started_at, read_at);
            let paused = started.commanded(TimerState::Paused, elapsed, paused_at);
            &&& timer.may_have_elapsed(timer.banked)
            &&& started.state == TimerState::Running
            &&& started.may_have_elapsed(elapsed)
            &&& paused.state == TimerState::Paused
            &&& paused.banked == timer.banked + instant_gap(started_at, read_at)
            &&& paused.may_have_elapsed(paused.banked)
            &&& paused.time_left(paused.banked) == timer.duration - timer.banked - instant_gap(
                started_at,
                read_at,
            )
        }),
{
    let started = timer.commanded(TimerState::Running, timer.banked, started_at);
    assert(started.changed_at == started_at);
    assert(started.may_have_elapsed(timer.banked + instant_gap(started_at, read_at)));
}

/// Starting a running timer again loses no time when the clock's spans add
/// up: if the restart reads the clock at `read_at` and stamps the timer at
/// that same instant, a later reading at `later` gives the same time run as
/// it would have without the restart.
pub proof fn lemma_restart_keeps_time(timer: TimerModel, read_at: Instant, later: Instant)
    requires
        timer.wf(),
        timer.state == TimerState::Running,
        timer.banked + instant_gap(timer.changed_at, read_at) < timer.duration,
        instant_gap(timer.changed_at, later) == instant_gap(timer.changed_at, read_at) + instant_gap(
            read_at,
            later,
        ),
    ensures
        ({
            let elapsed = timer.banked + instant_gap(timer.changed_at, read_at);
            let restarted = timer.commanded(TimerState::Running, elapsed, read_at);
            &&& timer.may_have_elapsed(elapsed)
            &&& restarted.state == TimerState::Running
            &&& restarted.banked + instant_gap(restarted.changed_at, later) == timer.banked + instant_gap(
                timer.changed_at,
                later,
            )
        }),
{
}

/// A running timer reads the whole span of its current run: every time run
/// that a check may read is its banked time plus the full span from the
/// instant it was last put in a state to some instant, with nothing cut
/// off; the time left is then its length less that time, and the timer
/// completes, with nothing left, exactly once that time reaches its length.
pub proof fn lemma_running_reading_is_whole_span(timer: TimerModel, elapsed: nat, stamp: Instant)
    requires
        timer.wf(),
        timer.state == TimerState::Running,
        timer.may_have_elapsed(elapsed),
    ensures
        exists|read_at: Instant| elapsed == timer.banked + instant_gap(timer.changed_at, read_at),
        elapsed < timer.duration ==> timer.time_left(elapsed) == timer.duration - elapsed
            && timer.settled(elapsed, stamp) == timer,
        elapsed >= timer.duration ==> timer.time_left(elapsed) == 0 && timer.settled(elapsed, stamp).state
            == TimerState::Completed && timer.settled(elapsed, stamp).banked == timer.duration,
{
}

/// Every span of a running timer's current run, up to any instant the clock
/// may read, is a time a check may read.
pub proof fn lemma_every_span_is_a_reading(timer: TimerModel, read_at: Instant)
    requires
        timer.state == TimerState::Running,
        instant_gap(timer.changed_at, read_at) <= MAX_DURATION_NANOS,
    ensures
        timer.may_have_elapsed(timer.banked + instant_gap(timer.changed_at, read_at)),
{
}

} // verus!
