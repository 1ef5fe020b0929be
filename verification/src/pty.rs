//! The computable side of the pseudo-terminal boundary. Allocating the
//! terminal pair, forking the child and writing to the master descriptor are
//! operating-system work done by the host; this module fixes what the host
//! execs and what bytes it writes, and names the ways setup can fail.

use vstd::prelude::*;

verus! {

/// Why the pseudo-terminal session could not be set up. Setup failure is
/// never fatal: the session degrades to one-shot execution.
#[derive(Debug)]
pub enum PtyError {
    /// A terminal-pair operation failed; carries the cause's description.
    OperationFailed(String),
    /// The child process could not be forked.
    ForkFailed,
}

impl PtyError {
    /// A short human-readable description of the error kind.
    pub fn message(&self) -> (m: String)
        ensures
            self is OperationFailed ==> m@ == "PTY operation failed"@,
            self is ForkFailed ==> m@ == "Fork failed"@,
    {
        match self {
            PtyError::OperationFailed(_) => String::from_str("PTY operation failed"),
            PtyError::ForkFailed => String::from_str("Fork failed"),
        }
    }
}

/// The shell the child should exec: the configured shell when one is set,
/// otherwise the fixed default path.
pub fn shell_command(configured: Option<String>) -> (shell: String)
    ensures
        configured matches Some(p) ==> shell@ == p@,
        configured is None ==> shell@ == "/bin/sh"@,
{
    match configured {
        Some(p) => p,
        None => String::from_str("/bin/sh"),
    }
}

/// The exact text a command line becomes on the wire to the shell session:
/// the line followed by one newline, nothing else.
pub fn frame_command(line: &str) -> (framed: String)
    ensures
        framed@ == line@ + "\n"@,
{
    let s = String::from_str(line);
    s.concat("\n")
}

} // verus!
