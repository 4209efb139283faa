pub mod clock;
pub mod timer;
pub mod pommo_core;
pub mod notifications;
pub mod pommo_tui;
