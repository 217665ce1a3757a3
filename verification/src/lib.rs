//! Engine of a status-driven desktop clock: a line protocol that updates a
//! lock-protected status record, a pure theme-selection policy, the render
//! scheduler's decisions, and the validation of a scripted configuration.
//! Platform work — the local socket, the drawing surface, the event
//! source — stays outside; everything here is plain values and is verified.

pub mod clock;
pub mod configure;
pub mod protocol;
pub mod schedule;
pub mod state;
pub mod store;
pub mod theme;
