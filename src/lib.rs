//! A one-timer stopwatch core: the counter and its running flag, the
//! per-second advance, the change notifications handed to subscribers, and
//! the `MM:SS` text a view shows.

pub mod display;
pub mod notify;
pub mod stopwatch;
pub mod timer;
