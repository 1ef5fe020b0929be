//! Tab completion over the fixed built-in command list: a plain prefix
//! filter. Wiring the candidates into a line editor or a suggestion popup is
//! the application's business.

use vstd::prelude::*;
use crate::text::{has_prefix, is_prefix_of};

verus! {

/// The fixed list of commands offered for completion, in order.
pub open spec fn fixed_commands() -> Seq<Seq<char>> {
    seq!["cd"@, "ls"@, "git"@, "cargo"@, "echo"@, "cat"@, "clear"@, "exit"@]
}

/// Offers completions for a partial command line by prefix match against the
/// fixed built-in command list.
pub struct IgnisCompleter {
    commands: Vec<String>,
}

impl View for IgnisCompleter {
    type V = Seq<Seq<char>>;

    closed spec fn view(&self) -> Seq<Seq<char>> {
        self.commands@.map_values(|s: String| s@)
    }
}

impl IgnisCompleter {
    /// Builds the completer over the fixed built-in command list.
    pub fn new() -> (c: IgnisCompleter)
        ensures
            c@ == fixed_commands(),
    {
        let mut commands: Vec<String> = Vec::new();
        commands.push(String::from_str("cd"));
        commands.push(String::from_str("ls"));
        commands.push(String::from_str("git"));
        commands.push(String::from_str("cargo"));
        commands.push(String::from_str("echo"));
        commands.push(String::from_str("cat"));
        commands.push(String::from_str("clear"));
        commands.push(String::from_str("exit"));
        let c = IgnisCompleter { commands };
        proof {
            assert(c@ =~= fixed_commands());
        }
        c
    }

    /// Returns, in order, every known command the given partial input is a
    /// prefix of. An empty input matches every command.
    pub fn complete_command(&self, input: &str) -> (r: Vec<String>)
        ensures
            r@.map_values(|s: String| s@) == self@.filter(
                |cmd: Seq<char>| is_prefix_of(input@, cmd),
            ),
    {
        let ghost pred = |cmd: Seq<char>| is_prefix_of(input@, cmd);
        let n = self.commands.len();
        let mut out: Vec<String> = Vec::new();
        let mut i: usize = 0;
        while i < n
            invariant
                i <= n,
                n == self.commands@.len(),
                self@ == self.commands@.map_values(|s: String| s@),
                out@.map_values(|s: String| s@) == self@.take(i as int).filter(pred),
                pred == (|cmd: Seq<char>| is_prefix_of(input@, cmd)),
            decreases n - i,
        {
            proof {
                reveal(Seq::filter);
                assert(self@.take(i + 1).drop_last() =~= self@.take(i as int));
                assert(self@.take(i + 1).last() == self@[i as int]);
            }
            if has_prefix(self.commands[i].as_str(), input) {
                out.push(self.commands[i].clone());
                proof {
                    assert(out@.map_values(|s: String| s@) =~= self@.take(i + 1).filter(pred));
                }
            } else {
                proof {
                    assert(out@.map_values(|s: String| s@) =~= self@.take(i + 1).filter(pred));
                }
            }
            i = i + 1;
        }
        proof {
            assert(self@.take(n as int) =~= self@);
        }
        out
    }
}

} // verus!
