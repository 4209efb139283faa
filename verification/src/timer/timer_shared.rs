use std::time::Instant;
use vstd::prelude::*;
use crate::clock::now;

verus! {

/// What can be asked of a ticking timer.
#[derive(Debug, Clone, Copy, PartialEq, Eq, Structural)]
pub enum TimerCommandType {
    Start,
    Pause,
    End,
}

/// A request to a ticking timer, stamped with when it was made.
#[derive(Debug, Clone, Copy)]
pub struct TimerCommand {
    pub command_type: TimerCommandType,
    pub invoked_at: Instant,
}

impl TimerCommand {
    /// A command of `command_type`, stamped with the current instant.
    pub fn new(command_type: TimerCommandType) -> (command: TimerCommand)
        ensures
            command.command_type == command_type,
    {
        TimerCommand { command_type, invoked_at: now() }
    }
}

/// Where a ticking timer stands; a ticking one knows when its current
/// interval began.
#[derive(Debug, Clone, Copy, PartialEq)]
pub enum TimerState {
    Ticking { start_time: Instant },
    Paused,
    Finished,
}

} // verus!
