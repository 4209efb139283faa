use pommo::pommo_core::{
    checkbox_for, pommo_at, Checkbox, PommoSession, PommoType, LONG_BREAK_NANOS, POMMO_COUNT,
    SHORT_BREAK_NANOS, WORK_NANOS,
};
use pommo::timer::TimerState;

#[test]
fn session_starts_at_first_work_pommo() {
    let session = PommoSession::new();
    assert_eq!(session.current_pommo_index(), 0);
    assert_eq!(session.current_pommo().pommo_type(), PommoType::Work);
    assert_eq!(session.current_pommo().duration(), 600_000_000_000);
    assert_eq!(session.timer().get_state(), TimerState::Ready);
    assert_eq!(session.timer().duration(), WORK_NANOS);
}

#[test]
fn schedule_alternates_and_ends_with_long_break() {
    let kinds: Vec<PommoType> = (0..POMMO_COUNT).map(|i| pommo_at(i).pommo_type()).collect();
    assert_eq!(
        kinds,
        vec![
            PommoType::Work,
            PommoType::Break,
            PommoType::Work,
            PommoType::Break,
            PommoType::Work,
            PommoType::Break,
            PommoType::Work,
            PommoType::Break
        ]
    );
    assert_eq!(pommo_at(1).duration(), SHORT_BREAK_NANOS);
    assert_eq!(pommo_at(7).duration(), LONG_BREAK_NANOS);
}

#[test]
fn next_pommo_cycles_through_round() {
    let mut session = PommoSession::new();
    for expected in 1..POMMO_COUNT {
        session.next_pommo();
        assert_eq!(session.current_pommo_index(), expected);
        assert_eq!(session.timer().get_state(), TimerState::Ready);
        assert_eq!(session.timer().duration(), pommo_at(expected).duration());
    }
    session.next_pommo();
    assert_eq!(session.current_pommo_index(), 0);
}

#[test]
fn toggle_starts_then_pauses() {
    let mut session = PommoSession::new();
    session.toggle_timer();
    assert_eq!(session.timer().get_state(), TimerState::Running);
    session.toggle_timer();
    assert_eq!(session.timer().get_state(), TimerState::Paused);
    session.toggle_timer();
    assert_eq!(session.timer().get_state(), TimerState::Running);
    assert_eq!(session.current_pommo_index(), 0);
}

#[test]
fn check_time_on_fresh_session_reports_full_length() {
    let mut session = PommoSession::new();
    assert_eq!(session.check_time(), (WORK_NANOS, TimerState::Ready));
}

#[test]
fn progress_marks_done_current_and_upcoming() {
    let mut session = PommoSession::new();
    session.next_pommo();
    session.next_pommo();
    let rows = session.progress();
    assert_eq!(rows.len(), POMMO_COUNT);
    assert_eq!(rows[0], (Checkbox::Done, PommoType::Work));
    assert_eq!(rows[1], (Checkbox::Done, PommoType::Break));
    assert_eq!(rows[2], (Checkbox::Current, PommoType::Work));
    assert_eq!(rows[3], (Checkbox::Upcoming, PommoType::Break));
    assert_eq!(rows[7], (Checkbox::Upcoming, PommoType::Break));
}

#[test]
fn checkbox_marks() {
    assert_eq!(checkbox_for(0, 3).mark(), "[x]");
    assert_eq!(checkbox_for(3, 3).mark(), "[o]");
    assert_eq!(checkbox_for(5, 3).mark(), "[ ]");
}
