//! A Pomodoro timer: the work/break cycle, its countdown and the text of its
//! status line, with every transition stated as a contract.
//!
//! [`Timer`] is the timer itself and [`TimerView`] what it is to Verus;
//! [`TimerState`] is the phase it is in, and [`Span`] a length of time.
//! The module [`laws`] proves what holds of every timer.

pub mod clock;
pub mod laws;
mod observer;
pub mod render;
pub mod span;
pub mod state;
pub mod timer;

pub use crate::render::format_remaining;
pub use crate::render::format_status;
pub use crate::render::minutes;
pub use crate::render::seconds;
pub use crate::span::Span;
pub use crate::state::TimerState;
pub use crate::state::ALERT_SUMMARY;
pub use crate::state::BREAK_CYCLE;
pub use crate::state::LONG_BREAK_TIME;
pub use crate::state::POMODORO_TIME;
pub use crate::state::SHORT_BREAK_TIME;
pub use crate::timer::Command;
pub use crate::timer::Timer;
pub use crate::timer::TimerView;
