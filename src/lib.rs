//! Supervision of command-line agent processes: locating an engine's
//! executable, building its command line, relaying its output as events,
//! and reconciling cancellation with natural completion.

pub mod text;
pub mod engine;
pub mod config;
pub mod command;
pub mod locator;
pub mod relay;
pub mod registry;
pub mod supervisor;
