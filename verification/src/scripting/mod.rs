//! The library's side of the scripting front-end: preparing a script for
//! the engine, reading positions out of the engine's error messages, and
//! turning what a script did into commands.

pub mod preprocessor;
pub mod script_error;
pub mod script_event;
