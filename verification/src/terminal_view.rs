//! The terminal view: output text and one line of input.

use vstd::prelude::*;
use vstd::string::StringExecFns;

use crate::terminal_model::{self, TerminalModel};
use crate::text::trim;

verus! {

/// A terminal view: the output written to it and a line of input that is typed, handed in and taken.
pub struct TerminalView {
    output: String,
    input_line: String,
    allow_input: bool,
    pub pending_input: Option<String>,
}

impl View for TerminalView {
    type V = TerminalModel;

    closed spec fn view(&self) -> TerminalModel {
        (self.output@, self.input_line@, self.allow_input, terminal_model::option_text(self.pending_input))
    }
}

impl Default for TerminalView {
    fn default() -> (r: Self)
        ensures
            r@ == terminal_model::empty_terminal(),
    {
        TerminalView {
            output: String::new(),
            input_line: String::new(),
            allow_input: false,
            pending_input: None,
        }
    }
}

impl TerminalView {
    /// Asks for a line of input: typing is allowed, the line is cleared and
    /// nothing is pending.
    pub fn request_input(&mut self)
        ensures
            final(self)@ == terminal_model::requested(old(self)@),
    {
        self.allow_input = true;
        self.input_line = String::new();
        self.pending_input = None;
    }

    /// Writes `s` as a new line of output.
    pub fn push_output(&mut self, s: &str)
        ensures
            final(self)@ == terminal_model::pushed(old(self)@, s@),
    {
        if !self.output.as_str().is_empty() {
            proof {
                reveal_strlit("\n");
            }
            self.output.append("\n");
        }
        self.output.append(s);
    }

    /// Takes the line handed in, if any; none is left pending.
    pub fn take_input(&mut self) -> (r: Option<String>)
        ensures
            terminal_model::option_text(r) == old(self)@.3,
            final(self)@ == terminal_model::taken(old(self)@),
    {
        self.pending_input.take()
    }

    /// Hands in the typed line, trimmed, and stops typing.
    pub fn commit_input(&mut self)
        ensures
            final(self)@ == terminal_model::committed(old(self)@),
    {
        let s = trim(self.input_line.as_str());
        self.pending_input = Some(s);
        self.allow_input = false;
        self.input_line = String::new();
    }

    /// Replaces the typed line with `line`, as an edit does; only while
    /// typing is allowed.
    pub fn set_input_line(&mut self, line: String)
        ensures
            final(self)@ == terminal_model::edited(old(self)@, line@),
    {
        if self.allow_input {
            self.input_line = line;
        }
    }

    /// All output so far.
    pub fn output(&self) -> (r: &str)
        ensures
            r@ == self@.0,
    {
        self.output.as_str()
    }

    /// The line being typed.
    pub fn input_line(&self) -> (r: &str)
        ensures
            r@ == self@.1,
    {
        self.input_line.as_str()
    }

    /// Whether typing is allowed.
    pub fn allow_input(&self) -> (r: bool)
        ensures
            r == self@.2,
    {
        self.allow_input
    }
}

} // verus!
