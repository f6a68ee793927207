//! The command string handed to a shell on every poll attempt.

use vstd::prelude::*;

verus! {

/// A shell command, kept as the exact text to pass to the shell. The command
/// is immutable for the life of the run; the surrounding program reads the
/// text back whenever it spawns the shell.
#[derive(Debug)]
pub struct Command {
    command: String,
}

impl View for Command {
    type V = Seq<char>;

    closed spec fn view(&self) -> Seq<char> {
        self.command@
    }
}

impl Command {
    pub fn new(command: String) -> (r: Self)
        ensures
            r@ == command@,
    {
        Command { command }
    }

    /// The exact text of the command, unchanged since construction.
    pub fn text(&self) -> (r: &str)
        ensures
            r@ == self@,
    {
        self.command.as_str()
    }
}

} // verus!
