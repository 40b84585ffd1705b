//! Commands for the caller to run.
//!
//! Nothing in this crate runs a program. A function says which program it
//! is and what its arguments are, and the caller runs it.

use vstd::prelude::*;

verus! {

/// A program and its arguments.
#[derive(Debug)]
pub struct CommandLine {
    pub program: String,
    pub args: Vec<String>,
}

/// A [`CommandLine`] as sequences of characters.
pub struct CommandModel {
    pub program: Seq<char>,
    pub args: Seq<Seq<char>>,
}

impl View for CommandLine {
    type V = CommandModel;

    open spec fn view(&self) -> CommandModel {
        CommandModel { program: self.program@, args: self.args.deep_view() }
    }
}

} // verus!
