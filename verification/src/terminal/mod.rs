//! Terminal sessions: key encoding, per-session screen state, and the
//! bounded registry that multiplexes sessions.

pub mod keys;
pub mod screen;
pub mod session;
pub mod registry;
