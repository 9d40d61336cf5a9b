//! The state of a running server as its operator sees it: running flag,
//! counters, a bounded log, and the diagnostics of a failed connection.

pub mod diagnostics;
pub mod runtime_state;
