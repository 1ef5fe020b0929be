//! The terminal controller: owns the character grid, the authoritative
//! in-progress input line, the display history and the completer, and turns
//! translated key actions into state changes. The grid is a rendering
//! projection; the input line alone decides what is submitted. Running a
//! submitted line is the host's business: `handle_key` hands the completed
//! line out and `record_output` takes the captured result back.

use vstd::prelude::*;
use crate::completer::{fixed_commands, IgnisCompleter};
use crate::grid::{GridBuffer, GridModel};
use crate::key::{translate, Action, Key, Modifiers, spec_translate};
use crate::text::{is_prefix_of, pop_char, push_char, trim, trimmed};
use crate::theme::Rgba;

verus! {

/// How one edit action changes the authoritative input line: characters are
/// appended, backspace drops the last character, submission empties the
/// line, and everything else leaves it alone.
pub open spec fn edited_input(input: Seq<char>, action: Action) -> Seq<char> {
    match action {
        Action::InsertChar(c) => input.push(c),
        Action::Backspace => if input.len() > 0 {
            input.drop_last()
        } else {
            input
        },
        Action::Submit => Seq::empty(),
        _ => input,
    }
}

/// The interactive terminal state.
pub struct Terminal {
    pub grid: GridBuffer,
    pub input: String,
    pub history: Vec<String>,
    pub completer: IgnisCompleter,
    pub show_completions: bool,
}

impl Terminal {
    /// The controller invariant: the grid invariant holds.
    pub open spec fn wf(self) -> bool {
        self.grid@.wf()
    }

    /// Builds a terminal with a blank grid of the given dimensions, an empty
    /// input line, the greeting as the only history entry, the fixed
    /// completer and no completion popup.
    pub fn new(width: usize, height: usize, scrollback_capacity: usize, fg: Rgba, bg: Rgba) -> (t:
        Terminal)
        requires
            width >= 1,
            height >= 1,
        ensures
            t.wf(),
            t.grid@ == GridModel::init(
                width as nat,
                height as nat,
                scrollback_capacity as nat,
                fg,
                bg,
            ),
            t.input@ == Seq::<char>::empty(),
            t.history@.len() == 1,
            t.history@[0]@ == "Welcome to Ignis Terminal"@,
            t.completer@ == fixed_commands(),
            !t.show_completions,
    {
        let mut history: Vec<String> = Vec::new();
        history.push(String::from_str("Welcome to Ignis Terminal"));
        Terminal {
            grid: GridBuffer::new(width, height, scrollback_capacity, fg, bg),
            input: String::new(),
            history,
            completer: IgnisCompleter::new(),
            show_completions: false,
        }
    }

    /// Feeds one key event through translation into the grid and the input
    /// line. On submission the line is trimmed and handed back: a non-blank
    /// line is first echoed to the history behind a `> ` prompt, a blank one
    /// is discarded; either way the input line and the completion popup are
    /// cleared. No other event touches the history or produces a line.
    pub fn handle_key(&mut self, key: Key, mods: Modifiers, pressed: bool) -> (submitted: Option<
        String,
    >)
        requires
            old(self).wf(),
        ensures
            final(self).wf(),
            final(self).grid@ == old(self).grid@.step(spec_translate(key, mods, pressed)),
            final(self).input@ == edited_input(
                old(self).input@,
                spec_translate(key, mods, pressed),
            ),
            final(self).completer@ == old(self).completer@,
            ({
                let action = spec_translate(key, mods, pressed);
                let line = trimmed(old(self).input@);
                if action is Submit {
                    &&& !final(self).show_completions
                    &&& if line.len() > 0 {
                        &&& submitted matches Some(s) && s@ == line
                        &&& final(self).history@.len() == old(self).history@.len() + 1
                        &&& (forall|i: int|
                            0 <= i < old(self).history@.len() ==> final(self).history@[i] == old(
                                self,
                            ).history@[i])
                        &&& final(self).history@.last()@ == "> "@ + line
                    } else {
                        &&& submitted is None
                        &&& final(self).history@ == old(self).history@
                    }
                } else {
                    &&& submitted is None
                    &&& final(self).history@ == old(self).history@
                    &&& final(self).show_completions == old(self).show_completions
                }
            }),
    {
        let action = translate(key, mods, pressed);
        self.grid.apply(action);
        match action {
            Action::InsertChar(c) => {
                push_char(&mut self.input, c);
                None
            },
            Action::Backspace => {
                let _ = pop_char(&mut self.input);
                None
            },
            Action::Submit => {
                let line = trim(self.input.as_str());
                self.input = String::new();
                self.show_completions = false;
                if line.as_str().unicode_len() > 0 {
                    let prompt = String::from_str("> ");
                    self.history.push(prompt.concat(line.as_str()));
                    Some(line)
                } else {
                    None
                }
            },
            _ => None,
        }
    }

    /// Appends the captured result of an executed command to the history;
    /// an empty result leaves the history alone.
    pub fn record_output(&mut self, output: &str)
        requires
            old(self).wf(),
        ensures
            final(self).wf(),
            final(self).grid == old(self).grid,
            final(self).input == old(self).input,
            final(self).completer@ == old(self).completer@,
            final(self).show_completions == old(self).show_completions,
            if output@.len() > 0 {
                &&& final(self).history@.len() == old(self).history@.len() + 1
                &&& (forall|i: int|
                    0 <= i < old(self).history@.len() ==> final(self).history@[i] == old(
                        self,
                    ).history@[i])
                &&& final(self).history@.last()@ == output@
            } else {
                final(self).history@ == old(self).history@
            },
    {
        if output.unicode_len() > 0 {
            self.history.push(String::from_str(output));
        }
    }

    /// Discards the visible history, as the reserved verb `clear` asks.
    pub fn clear_history(&mut self)
        requires
            old(self).wf(),
        ensures
            final(self).wf(),
            final(self).grid == old(self).grid,
            final(self).input == old(self).input,
            final(self).completer@ == old(self).completer@,
            final(self).show_completions == old(self).show_completions,
            final(self).history@.len() == 0,
    {
        self.history.clear();
    }

    /// Opens the completion popup, as the completion key asks.
    pub fn request_completions(&mut self)
        requires
            old(self).wf(),
        ensures
            final(self).wf(),
            final(self).grid == old(self).grid,
            final(self).input == old(self).input,
            final(self).history@ == old(self).history@,
            final(self).completer@ == old(self).completer@,
            final(self).show_completions,
    {
        self.show_completions = true;
    }

    /// The candidates to show: every known command the current input is a
    /// prefix of, but only while the popup is open and the input non-empty.
    pub fn completions(&self) -> (r: Vec<String>)
        ensures
            r@.map_values(|s: String| s@) == if self.show_completions && self.input@.len() > 0 {
                self.completer@.filter(|cmd: Seq<char>| is_prefix_of(self.input@, cmd))
            } else {
                Seq::<Seq<char>>::empty()
            },
    {
        if self.show_completions && self.input.as_str().unicode_len() > 0 {
            self.completer.complete_command(self.input.as_str())
        } else {
            let empty: Vec<String> = Vec::new();
            proof {
                assert(empty@.map_values(|s: String| s@) =~= Seq::<Seq<char>>::empty());
            }
            empty
        }
    }

    /// Replaces the input line with a chosen completion candidate and closes
    /// the popup.
    pub fn choose_completion(&mut self, candidate: &str)
        requires
            old(self).wf(),
        ensures
            final(self).wf(),
            final(self).grid == old(self).grid,
            final(self).input@ == candidate@,
            final(self).history@ == old(self).history@,
            final(self).completer@ == old(self).completer@,
            !final(self).show_completions,
    {
        self.input = String::from_str(candidate);
        self.show_completions = false;
    }
}

} // verus!
