//! Core logic of a minimal desktop clock: the timezone configuration,
//! the ordered chain of time providers, the parsing of their replies and
//! the clock state machine that turns provider answers into a displayed time.

pub mod text;
pub mod json;
pub mod providers;
pub mod config;
pub mod chain;
pub mod clock;
pub mod desktop;
