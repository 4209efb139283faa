use vstd::prelude::*;
use std::time::Instant;
use crate::timer::{Timer, TimerModel, TimerState};

verus! {

/// How many pommos make up one round.
pub const POMMO_COUNT: usize = 8;

/// The length of a work pommo: ten minutes, in nanoseconds.
pub const WORK_NANOS: u128 = 600_000_000_000;

/// The length of a short break: ten minutes, in nanoseconds.
pub const SHORT_BREAK_NANOS: u128 = 600_000_000_000;

/// The length of the long break that ends a round: ten minutes, in nanoseconds.
pub const LONG_BREAK_NANOS: u128 = 600_000_000_000;

/// Whether a pommo is for work or for a break.
#[derive(Debug, Clone, Copy, PartialEq, Eq, Structural)]
pub enum PommoType {
    Break,
    Work,
}

/// The kind of the pommo at `index` in the round: work, short break, work,
/// short break, work, short break, work, long break.
pub open spec fn scheduled_type(index: nat) -> PommoType {
    if index % 2 == 0 {
        PommoType::Work
    } else {
        PommoType::Break
    }
}

/// The length of the pommo at `index` in the round, in nanoseconds.
pub open spec fn scheduled_duration(index: nat) -> nat {
    if index % 2 == 0 {
        WORK_NANOS as nat
    } else if index == POMMO_COUNT - 1 {
        LONG_BREAK_NANOS as nat
    } else {
        SHORT_BREAK_NANOS as nat
    }
}

/// One interval of the round.
#[derive(Debug, Clone, Copy)]
pub struct Pommo {
    duration: u128,
    pommo_type: PommoType,
}

impl Pommo {
    /// The pommo's length, in nanoseconds.
    pub closed spec fn length(&self) -> nat {
        self.duration as nat
    }

    /// Whether the pommo is for work or for a break.
    pub closed spec fn kind(&self) -> PommoType {
        self.pommo_type
    }

    /// The pommo's length, in nanoseconds.
    pub fn duration(&self) -> (duration: u128)
        ensures
            duration == self.length(),
    {
        self.duration
    }

    /// Whether the pommo is for work or for a break.
    pub fn pommo_type(&self) -> (pommo_type: PommoType)
        ensures
            pommo_type == self.kind(),
    {
        self.pommo_type
    }
}

/// The pommo at `index` in the round.
pub fn pommo_at(index: usize) -> (pommo: Pommo)
    requires
        index < POMMO_COUNT,
    ensures
        pommo.length() == scheduled_duration(index as nat),
        pommo.kind() == scheduled_type(index as nat),
        pommo.length() <= crate::clock::MAX_DURATION_NANOS,
        pommo.length() > 0,
{
    if index == POMMO_COUNT - 1 {
        Pommo { pommo_type: PommoType::Break, duration: LONG_BREAK_NANOS }
    } else if index % 2 == 0 {
        Pommo { pommo_type: PommoType::Work, duration: WORK_NANOS }
    } else {
        Pommo { pommo_type: PommoType::Break, duration: SHORT_BREAK_NANOS }
    }
}

/// A position inside the round.
#[derive(Debug, Clone, Copy)]
struct PommoIndex {
    index: usize,
}

impl PommoIndex {
    #[verifier::type_invariant]
    spec fn inv(self) -> bool {
        self.index < POMMO_COUNT
    }

    spec fn value(self) -> nat {
        self.index as nat
    }

    fn first() -> (position: PommoIndex)
        ensures
            position.value() == 0,
    {
        PommoIndex { index: 0 }
    }

    fn get(&self) -> (index: usize)
        ensures
            index == self.value(),
            index < POMMO_COUNT,
    {
        proof {
            use_type_invariant(self);
        }
        self.index
    }

    fn following(&self) -> (position: PommoIndex)
        ensures
            position.value() == next_index(self.value()),
    {
        proof {
            use_type_invariant(self);
        }
        PommoIndex { index: (self.index + 1) % POMMO_COUNT }
    }
}

/// A round of pommos and the timer of the one under way.
#[derive(Debug)]
pub struct PommoSession {
    timer: Timer,
    current_pommo_index: PommoIndex,
}

/// The abstract state of a [`PommoSession`]: the index of the pommo under
/// way and its timer.
pub struct SessionModel {
    pub index: nat,
    pub timer: TimerModel,
}

impl SessionModel {
    /// What every session keeps: its index is inside the round, and its timer
    /// is a well-formed timer with the length of the pommo under way.
    pub open spec fn wf(self) -> bool {
        &&& self.index < POMMO_COUNT
        &&& self.timer.duration == scheduled_duration(self.index)
        &&& self.timer.wf()
    }
}

/// A fresh timer for the pommo at `index`, made at instant `stamp`.
pub open spec fn fresh_timer(index: nat, stamp: Instant) -> TimerModel {
    TimerModel { duration: scheduled_duration(index), state: TimerState::Ready, banked: 0, changed_at: stamp }
}

/// The index of the pommo that follows the one at `index`; the round starts
/// over after its last pommo.
pub open spec fn next_index(index: nat) -> nat {
    (index + 1) % (POMMO_COUNT as nat)
}

/// The session after moving on from `old`: the next pommo, with a fresh timer
/// made at instant `stamp`.
pub open spec fn advanced(old: SessionModel, stamp: Instant) -> SessionModel {
    SessionModel { index: next_index(old.index), timer: fresh_timer(next_index(old.index), stamp) }
}

/// What toggling the timer does to a session, from `old` to `new`: a ready or
/// paused timer is started, a running one is paused, and a completed one
/// moves the session to the next pommo and starts its fresh timer.
pub open spec fn toggled(old: SessionModel, new: SessionModel) -> bool {
    match old.timer.state {
        TimerState::Ready | TimerState::Paused => {
            &&& new.index == old.index
            &&& new.timer == old.timer.commanded(TimerState::Running, old.timer.banked, new.timer.changed_at)
        },
        TimerState::Running => {
            &&& new.index == old.index
            &&& exists|elapsed: nat|
                #[trigger] old.timer.may_have_elapsed(elapsed) && new.timer == old.timer.commanded(
                    TimerState::Paused,
                    elapsed,
                    new.timer.changed_at,
                )
        },
        TimerState::Completed => {
            &&& new.index == next_index(old.index)
            &&& new.timer == (TimerModel {
                duration: scheduled_duration(new.index),
                state: TimerState::Running,
                banked: 0,
                changed_at: new.timer.changed_at,
            })
        },
    }
}

impl View for PommoSession {
    type V = SessionModel;

    closed spec fn view(&self) -> SessionModel {
        SessionModel { index: self.current_pommo_index.value(), timer: self.timer@ }
    }
}

impl PommoSession {
    /// A session at the first pommo of the round, with its timer ready.
    pub fn new() -> (session: PommoSession)
        ensures
            session@ == (SessionModel { index: 0, timer: fresh_timer(0, session@.timer.changed_at) }),
            session@.wf(),
    {
        let first = pommo_at(0);
        PommoSession { current_pommo_index: PommoIndex::first(), timer: Timer::new(first.duration()) }
    }

    /// The index of the pommo under way; it is always inside the round.
    pub fn current_pommo_index(&self) -> (index: usize)
        ensures
            index == self@.index,
            index < POMMO_COUNT,
    {
        self.current_pommo_index.get()
    }

    /// The timer of the pommo under way.
    pub fn timer(&self) -> (timer: &Timer)
        ensures
            timer@ == self@.timer,
    {
        &self.timer
    }

    /// The pommo under way.
    pub fn current_pommo(&self) -> (pommo: Pommo)
        ensures
            self@.index < POMMO_COUNT,
            pommo.length() == scheduled_duration(self@.index),
            pommo.kind() == scheduled_type(self@.index),
    {
        pommo_at(self.current_pommo_index.get())
    }

    /// Moves to the next pommo, starting the round over after its last, with
    /// a fresh timer for it.
    pub fn next_pommo(&mut self)
        ensures
            final(self)@ == advanced(old(self)@, final(self)@.timer.changed_at),
            final(self)@.wf(),
    {
        self.current_pommo_index = self.current_pommo_index.following();
        let pommo = self.current_pommo();
        self.timer = Timer::new(pommo.duration());
    }

    /// Checks the timer of the pommo under way against the clock, as
    /// `Timer::check_time` does.
    pub fn check_time(&mut self) -> (result: (u128, TimerState))
        ensures
            old(self)@.timer.wf(),
            final(self)@.timer.wf(),
            old(self)@.wf() ==> final(self)@.wf(),
            final(self)@.index == old(self)@.index,
            exists|elapsed: nat|
                #[trigger] old(self)@.timer.may_have_elapsed(elapsed) && final(self)@.timer
                    == old(self)@.timer.settled(elapsed, final(self)@.timer.changed_at) && result.0 == old(self)@.timer.time_left(
                    elapsed,
                ) && result.1 == final(self)@.timer.state,
    {
        self.timer.check_time()
    }

    /// Starts a ready or paused timer, pauses a running one, and moves a
    /// completed one on to the next pommo, whose timer it starts.
    pub fn toggle_timer(&mut self)
        ensures
            toggled(old(self)@, final(self)@),
            old(self)@.wf() ==> final(self)@.wf(),
    {
        match self.timer.get_state() {
            TimerState::Ready | TimerState::Paused => self.timer.start(),
            TimerState::Running => self.timer.pause(),
            TimerState::Completed => {
                self.next_pommo();
                self.timer.start();
            },
        }
    }
}


/// How a pommo shows in the round's progress.
#[derive(Debug, Clone, Copy, PartialEq, Eq, Structural)]
pub enum Checkbox {
    /// Before the pommo under way.
    Done,
    /// The pommo under way.
    Current,
    /// After the pommo under way.
    Upcoming,
}

/// How the pommo at `index` shows while the one at `current` is under way.
pub open spec fn checkbox_of(index: nat, current: nat) -> Checkbox {
    if index < current {
        Checkbox::Done
    } else if index == current {
        Checkbox::Current
    } else {
        Checkbox::Upcoming
    }
}

/// The mark that draws a checkbox.
pub open spec fn mark_text(checkbox: Checkbox) -> Seq<char> {
    match checkbox {
        Checkbox::Done => "[x]"@,
        Checkbox::Current => "[o]"@,
        Checkbox::Upcoming => "[ ]"@,
    }
}

impl Checkbox {
    /// The mark that draws this checkbox.
    pub fn mark(&self) -> (mark: &'static str)
        ensures
            mark@ == mark_text(*self),
    {
        match self {
            Checkbox::Done => "[x]",
            Checkbox::Current => "[o]",
            Checkbox::Upcoming => "[ ]",
        }
    }
}

/// How the pommo at `index` shows while the one at `current` is under way.
pub fn checkbox_for(index: usize, current: usize) -> (checkbox: Checkbox)
    ensures
        checkbox == checkbox_of(index as nat, current as nat),
{
    if index < current {
        Checkbox::Done
    } else if index == current {
        Checkbox::Current
    } else {
        Checkbox::Upcoming
    }
}

impl PommoSession {
    /// The round's progress: for each pommo in order, how it shows and its type.
    pub fn progress(&self) -> (rows: Vec<(Checkbox, PommoType)>)
        ensures
            rows.len() == POMMO_COUNT,
            forall|i: int|
                0 <= i < POMMO_COUNT ==> #[trigger] rows@[i] == (
                    checkbox_of(i as nat, self@.index),
                    scheduled_type(i as nat),
                ),
    {
        let current = self.current_pommo_index();
        let mut rows: Vec<(Checkbox, PommoType)> = Vec::new();
        let mut i: usize = 0;
        while i < POMMO_COUNT
            invariant
                i <= POMMO_COUNT,
                current == self@.index,
                rows.len() == i,
                forall|j: int|
                    0 <= j < i ==> #[trigger] rows@[j] == (
                        checkbox_of(j as nat, current as nat),
                        scheduled_type(j as nat),
                    ),
            decreases POMMO_COUNT - i,
        {
            let pommo = pommo_at(i);
            rows.push((checkbox_for(i, current), pommo.pommo_type()));
            i = i + 1;
        }
        rows
    }
}

/// The index reached by moving on `n` times from the pommo at `index`.
pub open spec fn index_after(index: nat, n: nat) -> nat
    decreases n,
{
    if n == 0 {
        index
    } else {
        next_index(index_after(index, (n - 1) as nat))
    }
}

/// Moving on `n` times from a pommo of the round lands `n` places further,
/// counted round the round.
pub proof fn lemma_index_after(index: nat, n: nat)
    requires
        index < POMMO_COUNT,
    ensures
        index_after(index, n) == (index + n) % (POMMO_COUNT as nat),
    decreases n,
{
    if n > 0 {
        lemma_index_after(index, (n - 1) as nat);
    }
}

/// The round is a cycle: moving on once per pommo brings a session back to
/// the pommo it started at, and each move gives the new pommo a fresh timer
/// of its own length.
pub proof fn lemma_round_is_a_cycle(session: SessionModel, stamp: Instant)
    requires
        session.wf(),
    ensures
        index_after(session.index, POMMO_COUNT as nat) == session.index,
        advanced(session, stamp).index == index_after(session.index, 1),
        advanced(session, stamp).wf(),
        advanced(session, stamp).timer.state == TimerState::Ready,
{
    lemma_index_after(session.index, POMMO_COUNT as nat);
    lemma_index_after(session.index, 1);
}

/// Work and breaks alternate, across the end of the round too; the round
/// opens with work and closes with the long break.
pub proof fn lemma_work_and_breaks_alternate(index: nat)
    requires
        index < POMMO_COUNT,
    ensures
        scheduled_type(next_index(index)) != scheduled_type(index),
        scheduled_type(0) == PommoType::Work,
        scheduled_type((POMMO_COUNT - 1) as nat) == PommoType::Break,
        scheduled_duration((POMMO_COUNT - 1) as nat) == LONG_BREAK_NANOS,
{
}

/// The round's pommos and their lengths: work at every even index, a short
/// break at every odd index but the last, and the long break last; each of
/// them lasts ten minutes.
pub proof fn lemma_schedule(index: nat)
    requires
        index < POMMO_COUNT,
    ensures
        POMMO_COUNT == 8,
        WORK_NANOS == 600_000_000_000,
        SHORT_BREAK_NANOS == 600_000_000_000,
        LONG_BREAK_NANOS == 600_000_000_000,
        index % 2 == 0 ==> scheduled_type(index) == PommoType::Work && scheduled_duration(index)
            == WORK_NANOS,
        index % 2 == 1 && index < POMMO_COUNT - 1 ==> scheduled_type(index) == PommoType::Break
            && scheduled_duration(index) == SHORT_BREAK_NANOS,
        index == POMMO_COUNT - 1 ==> scheduled_type(index) == PommoType::Break && scheduled_duration(
            index,
        ) == LONG_BREAK_NANOS,
{
}

/// Moving on goes one pommo further, back to the first after the last, and
/// gives that pommo a ready timer of its length with nothing run.
pub proof fn lemma_advance_is_one_step(session: SessionModel, stamp: Instant)
    ensures
        advanced(session, stamp).index == (session.index + 1) % 8,
        advanced(session, stamp).timer.state == TimerState::Ready,
        advanced(session, stamp).timer.banked == 0,
        advanced(session, stamp).timer.duration == scheduled_duration(advanced(session, stamp).index),
{
}

/// What toggling does, case by case: a completed timer moves the session one
/// pommo further (back to the first after the last) and starts a timer of
/// that pommo's length with nothing run; a ready or paused timer that has
/// time left starts, keeping its pommo and the time it has run; a running
/// timer pauses, or completes, keeping its pommo and never losing time run.
pub proof fn lemma_toggle_behaviour(old: SessionModel, new: SessionModel)
    requires
        old.wf(),
        toggled(old, new),
    ensures
        old.timer.state == TimerState::Completed ==> {
            &&& new.index == (old.index + 1) % 8
            &&& new.timer.state == TimerState::Running
            &&& new.timer.banked == 0
            &&& new.timer.duration == scheduled_duration(new.index)
        },
        (old.timer.state == TimerState::Ready || old.timer.state == TimerState::Paused) && old.timer.banked
            < old.timer.duration ==> {
            &&& new.index == old.index
            &&& new.timer.state == TimerState::Running
            &&& new.timer.banked == old.timer.banked
            &&& new.timer.duration == old.timer.duration
        },
        old.timer.state == TimerState::Running ==> {
            &&& new.index == old.index
            &&& new.timer.state == TimerState::Paused || new.timer.state == TimerState::Completed
            &&& new.timer.banked >= old.timer.banked
            &&& new.timer.duration == old.timer.duration
        },
{
}

/// The progress shows the pommos before the one under way as done, that one
/// alone as current, and the rest as upcoming: marks never go back from
/// upcoming to done along the round.
pub proof fn lemma_progress_marks(index: nat, later: nat, current: nat)
    requires
        index <= later,
    ensures
        checkbox_of(index, current) == Checkbox::Done <==> index < current,
        checkbox_of(index, current) == Checkbox::Current <==> index == current,
        checkbox_of(index, current) == Checkbox::Upcoming <==> index > current,
        checkbox_of(index, current) == Checkbox::Upcoming ==> checkbox_of(later, current) == Checkbox::Upcoming,
        checkbox_of(later, current) == Checkbox::Done ==> checkbox_of(index, current) == Checkbox::Done,
{
}

} // verus!
