//! The diagnostic sink of a host. The library itself never logs.

use vstd::prelude::*;

verus! {

/// The level of a log entry.
#[allow(non_camel_case_types)]
#[derive(Debug, PartialEq, Eq, Clone, Copy, Structural)]
pub enum LogType {
    warn,
    info,
    error,
    debug,
    trace,
}

impl LogType {
    pub open spec fn spec_prefix(self) -> Seq<char> {
        match self {
            LogType::debug => "[D]"@,
            LogType::info => "[I]"@,
            LogType::warn => "[W]"@,
            LogType::error => "[E]"@,
            LogType::trace => "[T]"@,
        }
    }

    /// The short mark of the level, for sinks that write plain lines.
    pub fn prefix(&self) -> (r: &'static str)
        ensures
            r@ == self.spec_prefix(),
    {
        match self {
            LogType::debug => "[D]",
            LogType::info => "[I]",
            LogType::warn => "[W]",
            LogType::error => "[E]",
            LogType::trace => "[T]",
        }
    }
}

/// Where a host writes its diagnostics.
pub trait Logger: Send + Sync {
    fn log(&self, log_type: LogType, msg: &str);
}

} // verus!
