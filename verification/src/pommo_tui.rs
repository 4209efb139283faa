use vstd::prelude::*;
use crate::notifications::{notify_outcome, NotificationManger, Notice};
use crate::pommo_core::{
    advanced, fresh_timer, scheduled_type, toggled, PommoSession, PommoType, SessionModel,
};
use crate::timer::TimerState;

verus! {

/// A key the user pressed.
#[derive(Debug, Clone, Copy, PartialEq, Eq, Structural)]
pub enum KeyPress {
    /// A key that types a character.
    Char(char),
    /// Any other key.
    Other,
}

/// Why handling a key failed.
#[derive(Debug, Clone, Copy, PartialEq, Eq, Structural)]
pub enum AppError {
    /// The panic button, `p`, was pressed.
    PanicButton,
}

impl AppError {
    /// What went wrong, in words.
    pub fn message(&self) -> (message: &'static str)
        ensures
            message@ == "panic button pressed!"@,
    {
        match self {
            AppError::PanicButton => "panic button pressed!",
        }
    }
}

/// Everything the application keeps between frames.
#[derive(Debug)]
pub struct PommoAppState {
    session: PommoSession,
    is_running: bool,
    notification_manager: NotificationManger,
}

/// The abstract state of a [`PommoAppState`]: the session, whether the
/// application keeps running, and the type of the last pommo announced.
pub struct AppModel {
    pub session: SessionModel,
    pub is_running: bool,
    pub last_announced: Option<PommoType>,
}

/// Whether `app` is the state the application starts in: at the first pommo
/// with a fresh timer, running, with nothing announced.
pub open spec fn is_initial_app(app: AppModel) -> bool {
    &&& app.session == (SessionModel { index: 0, timer: fresh_timer(0, app.session.timer.changed_at) })
    &&& app.is_running
    &&& app.last_announced == None::<PommoType>
}

impl View for PommoAppState {
    type V = AppModel;

    closed spec fn view(&self) -> AppModel {
        AppModel {
            session: self.session@,
            is_running: self.is_running,
            last_announced: self.notification_manager@,
        }
    }
}

impl Default for PommoAppState {
    fn default() -> (state: PommoAppState)
        ensures
            is_initial_app(state@),
            state@.session.wf(),
    {
        Self::new()
    }
}

/// What the timer pane shows.
#[derive(Debug, Clone, Copy)]
pub struct TimerDisplay {
    /// The type of the pommo under way.
    pub pommo_type: PommoType,
    /// "work" or "break".
    pub label: &'static str,
    /// Whole minutes left.
    pub mins_left: u64,
    /// Whole seconds left beyond the minutes.
    pub secs_left: u64,
    /// The notification to send, if the pommo has just been found complete.
    pub notice: Option<Notice>,
}

/// The word that names a pommo type on screen.
pub open spec fn type_label(kind: PommoType) -> Seq<char> {
    match kind {
        PommoType::Break => "break"@,
        PommoType::Work => "work"@,
    }
}

/// The whole minutes and leftover whole seconds in `nanos` nanoseconds.
pub open spec fn clock_face(nanos: nat) -> (nat, nat) {
    let secs = nanos / 1_000_000_000;
    (secs / 60, secs % 60)
}

/// The whole minutes and leftover whole seconds in `nanos` nanoseconds.
pub fn minutes_and_seconds(nanos: u128) -> (face: (u64, u64))
    requires
        nanos <= crate::clock::MAX_DURATION_NANOS,
    ensures
        (face.0 as nat, face.1 as nat) == clock_face(nanos as nat),
{
    let secs: u128 = nanos / 1_000_000_000;
    assert(secs <= u64::MAX);
    let secs: u64 = secs as u64;
    (secs / 60, secs % 60)
}

/// The word that names a pommo type on screen.
pub fn label_for(kind: PommoType) -> (label: &'static str)
    ensures
        label@ == type_label(kind),
{
    match kind {
        PommoType::Break => "break",
        PommoType::Work => "work",
    }
}

impl PommoAppState {
    /// A session at its first pommo, running, with nothing announced.
    pub fn new() -> (state: PommoAppState)
        ensures
            is_initial_app(state@),
            state@.session.wf(),
    {
        PommoAppState {
            session: PommoSession::new(),
            is_running: true,
            notification_manager: NotificationManger::new(),
        }
    }

    /// Whether the application keeps running.
    pub fn is_running(&self) -> (running: bool)
        ensures
            running == self@.is_running,
    {
        self.is_running
    }

    /// The session.
    pub fn session(&self) -> (session: &PommoSession)
        ensures
            session@ == self@.session,
    {
        &self.session
    }

    /// Checks the timer against the clock and gives what the timer pane shows;
    /// when the pommo is found complete, the notice that announces it, unless
    /// the last pommo announced was of the same type.
    pub fn timer_display(&mut self) -> (display: TimerDisplay)
        ensures
            old(self)@.session.wf() ==> final(self)@.session.wf(),
            final(self)@.is_running == old(self)@.is_running,
            final(self)@.session.index == old(self)@.session.index,
            display.pommo_type == scheduled_type(old(self)@.session.index),
            display.label@ == type_label(display.pommo_type),
            exists|elapsed: nat|
                #[trigger] old(self)@.session.timer.may_have_elapsed(elapsed) && final(self)@.session.timer
                    == old(self)@.session.timer.settled(elapsed, final(self)@.session.timer.changed_at) && (display.mins_left as nat, display.secs_left as nat)
                    == clock_face(old(self)@.session.timer.time_left(elapsed)),
            final(self)@.session.timer.state == TimerState::Completed ==> notify_outcome(
                old(self)@.last_announced,
                display.pommo_type,
                final(self)@.last_announced,
                display.notice,
            ),
            final(self)@.session.timer.state != TimerState::Completed ==> display.notice is None
                && final(self)@.last_announced == old(self)@.last_announced,
    {
        let (time_left, timer_state) = self.session.check_time();
        let pommo_type = self.session.current_pommo().pommo_type();
        let notice = if timer_state == TimerState::Completed {
            self.notification_manager.notify(pommo_type)
        } else {
            None
        };
        let (mins_left, secs_left) = minutes_and_seconds(time_left);
        TimerDisplay { pommo_type, label: label_for(pommo_type), mins_left, secs_left, notice }
    }
}

/// Acts on a key press: `q` stops the application, `p` fails with
/// [`AppError::PanicButton`], `s` toggles the timer, `n` moves to the next
/// pommo; any other key does nothing.
pub fn handle_key_event(state: &mut PommoAppState, key: KeyPress) -> (result: Result<(), AppError>)
    ensures
        old(state)@.session.wf() ==> final(state)@.session.wf(),
        key == KeyPress::Char('p') ==> result == Err::<(), AppError>(AppError::PanicButton),
        key != KeyPress::Char('p') ==> result is Ok,
        key == KeyPress::Char('q') ==> final(state)@ == (AppModel { is_running: false, ..old(state)@ }),
        key == KeyPress::Char('s') ==> toggled(old(state)@.session, final(state)@.session)
            && final(state)@.is_running == old(state)@.is_running
            && final(state)@.last_announced == old(state)@.last_announced,
        key == KeyPress::Char('n') ==> final(state)@ == (AppModel {
            session: advanced(old(state)@.session, final(state)@.session.timer.changed_at),
            ..old(state)@
        }),
        key != KeyPress::Char('q') && key != KeyPress::Char('s') && key != KeyPress::Char('n') ==> final(state)@ == old(state)@,
{
    match key {
        KeyPress::Char('q') => state.is_running = false,
        KeyPress::Char('p') => return Err(AppError::PanicButton),
        KeyPress::Char('s') => state.session.toggle_timer(),
        KeyPress::Char('n') => state.session.next_pommo(),
        _ => {},
    }
    Ok(())
}

/// The clock face gives the whole seconds left split into whole minutes and
/// the seconds, under sixty, beyond them.
pub proof fn lemma_clock_face_recomposes(nanos: nat)
    ensures
        clock_face(nanos).0 * 60 + clock_face(nanos).1 == nanos / 1_000_000_000,
        clock_face(nanos).1 < 60,
{
}

} // verus!
