//! Tracks the time worked over a day: laps of work that pause and resume on
//! lock, sleep and explicit user requests, with gaps the poller missed left out.

pub mod lap;
pub mod ledger;
pub mod clock;
pub mod session;
pub mod tracker;
pub mod snapshot;
pub mod signals;
pub mod laws;
