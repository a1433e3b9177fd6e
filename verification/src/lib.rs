//! A Pomodoro-style productivity timer: repeated work/break cycles driven by a
//! countdown tick engine, with a journal-capture step after each work session.
//!
//! The timing, journaling and notification side effects are performed by a
//! driver outside this crate; this crate holds the session/cycle state
//! machine, the tick schedule, and the text formats, each with a contract.

pub mod clock;
pub mod entities;
pub mod format;
pub mod messages;
pub mod scheduler;
pub mod session;
pub mod timer;
