//! Command dispatch: decides what a submitted line asks for and formats the
//! captured output of a finished child process. Spawning the child and
//! capturing its streams is operating-system work left to the surrounding
//! application; everything it needs to decide and to format is here.

use vstd::prelude::*;
use crate::text::{is_ws, trim, trimmed, str_eq};

verus! {

/// Why running a command failed.
#[derive(Debug)]
pub enum CommandError {
    /// The child process could not be run; carries the cause's description.
    ExecutionError(String),
    /// The command names no runnable binary.
    NotFound,
}

impl CommandError {
    /// A short human-readable description of the error kind.
    pub fn message(&self) -> (m: String)
        ensures
            self is ExecutionError ==> m@ == "Command execution failed"@,
            self is NotFound ==> m@ == "Command not found"@,
    {
        match self {
            CommandError::ExecutionError(_) => String::from_str("Command execution failed"),
            CommandError::NotFound => String::from_str("Command not found"),
        }
    }
}

/// What a submitted line asks the host to do. Only `Spawn` involves a child
/// process; every other directive is resolved without one.
#[derive(Clone, Copy, Debug, PartialEq, Eq, Structural)]
pub enum Directive {
    /// Blank input: produce an empty result, spawn nothing.
    Skip,
    /// The reserved verb `clear`: produce an empty result, spawn nothing;
    /// the caller discards the visible history.
    Clear,
    /// The reserved verb `exit`: the application terminates.
    Exit,
    /// Anything else: hand the line to the shell and capture its output.
    Spawn,
}

/// The directive a line resolves to: blank lines are skipped, the reserved
/// verbs `clear` and `exit` are intercepted, and everything else is handed
/// to the shell.
pub open spec fn spec_interpret(line: Seq<char>) -> Directive {
    let t = trimmed(line);
    if t.len() == 0 {
        Directive::Skip
    } else if t == "clear"@ {
        Directive::Clear
    } else if t == "exit"@ {
        Directive::Exit
    } else {
        Directive::Spawn
    }
}

/// The result shown for a finished child process: when anything arrived on
/// standard error the whole result is `Error:` plus that text and standard
/// output is discarded; otherwise the result is standard output verbatim.
pub open spec fn spec_format_output(stdout: Seq<char>, stderr: Seq<char>) -> Seq<char> {
    if stderr.len() > 0 {
        "Error:\n"@ + stderr
    } else {
        stdout
    }
}

/// Intercepts reserved verbs and formats child-process output.
pub struct CommandHandler;

impl CommandHandler {
    /// Builds a command handler.
    pub fn new() -> CommandHandler {
        CommandHandler
    }

    /// Resolves one submitted line to a directive. Whitespace around the
    /// line is ignored; a line that is blank once trimmed spawns nothing,
    /// and the reserved verbs `clear` and `exit` are intercepted before any
    /// process is involved.
    pub fn interpret(&self, command: &str) -> (d: Directive)
        ensures
            d == spec_interpret(command@),
    {
        let t = trim(command);
        if t.as_str().unicode_len() == 0 {
            Directive::Skip
        } else if str_eq(t.as_str(), "clear") {
            Directive::Clear
        } else if str_eq(t.as_str(), "exit") {
            Directive::Exit
        } else {
            Directive::Spawn
        }
    }

    /// Formats the captured streams of a finished child process: standard
    /// error, when present, becomes the whole result behind an `Error:`
    /// banner; otherwise standard output is returned verbatim.
    pub fn format_output(&self, stdout: &str, stderr: &str) -> (r: String)
        ensures
            r@ == spec_format_output(stdout@, stderr@),
    {
        if stderr.unicode_len() > 0 {
            let banner = String::from_str("Error:\n");
            banner.concat(stderr)
        } else {
            String::from_str(stdout)
        }
    }

    /// Formats a failure to spawn the child process at all; the result is
    /// shown to the user in place of output and is never fatal.
    pub fn format_spawn_error(&self, cause: &str) -> (r: String)
        ensures
            r@ == "Error: "@ + cause@,
    {
        let banner = String::from_str("Error: ");
        banner.concat(cause)
    }
}

/// A line of nothing but whitespace resolves to `Skip`: it produces an empty
/// result and never spawns a process.
pub proof fn lemma_blank_line_skips(line: Seq<char>)
    requires
        forall|i: int| 0 <= i < line.len() ==> is_ws(#[trigger] line[i]),
    ensures
        spec_interpret(line) == Directive::Skip,
{
    crate::text::lemma_trimmed_all_ws(line);
}

} // verus!
