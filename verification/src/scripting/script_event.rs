//! What a running script reports, and the commands made from it.

use vstd::prelude::*;
use crate::api::commands::{ExecutionPlayerCommand, PlayerCommand};

verus! {

/// One report of a running script.
#[derive(Debug, Clone, Copy, PartialEq, Eq, Structural)]
pub enum ScriptEvent {
    /// The script has reached the given line.
    Line(usize),
    /// The script has given a command.
    Command(PlayerCommand),
}

/// The line that the script had reached after the first `n` events: that of
/// the last line event among them, or 0.
pub open spec fn line_after(events: Seq<ScriptEvent>, n: nat) -> usize
    decreases n,
{
    if n == 0 {
        0
    } else {
        match events[n - 1] {
            ScriptEvent::Line(line) => line,
            ScriptEvent::Command(_) => line_after(events, (n - 1) as nat),
        }
    }
}

/// The commands among the first `n` events, each with the line that the
/// script had reached when it gave the command.
pub open spec fn collapsed(events: Seq<ScriptEvent>, n: nat) -> Seq<ExecutionPlayerCommand>
    decreases n,
{
    if n == 0 {
        Seq::empty()
    } else {
        match events[n - 1] {
            ScriptEvent::Line(_) => collapsed(events, (n - 1) as nat),
            ScriptEvent::Command(command) => collapsed(events, (n - 1) as nat).push(
                ExecutionPlayerCommand { command, line: line_after(events, (n - 1) as nat) },
            ),
        }
    }
}

/// Turns the events of a script into commands: each command event becomes a
/// command with the line of the line event before it.
pub fn collapse_events(events: Vec<ScriptEvent>) -> (r: Vec<ExecutionPlayerCommand>)
    ensures
        r@ == collapsed(events@, events@.len()),
{
    let mut result: Vec<ExecutionPlayerCommand> = Vec::new();
    let mut current_line: usize = 0;
    let mut i: usize = 0;
    while i < events.len()
        invariant
            i <= events@.len(),
            current_line == line_after(events@, i as nat),
            result@ == collapsed(events@, i as nat),
        decreases events@.len() - i,
    {
        match events[i] {
            ScriptEvent::Line(line) => {
                current_line = line;
            },
            ScriptEvent::Command(command) => {
                result.push(ExecutionPlayerCommand { command, line: current_line });
            },
        }
        i += 1;
    }
    result
}

} // verus!
