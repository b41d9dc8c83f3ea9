//! The invocation of a process.

use vstd::prelude::*;

use crate::strmap::StrMap;
use crate::text::{copy_opt_text, copy_texts, opt_text, texts};

verus! {

/// What a `Command` holds, as mathematical values.
pub struct CommandView {
    pub program: Seq<char>,
    pub cwd: Option<Seq<char>>,
    pub args: Seq<Seq<char>>,
    pub envs: Map<Seq<char>, Seq<char>>,
}

/// A process invocation: the program, its arguments, the environment
/// variables to add to the inherited ones, and the working directory (the
/// caller's own when `None`).
#[derive(Debug)]
pub struct Command {
    pub program: String,
    pub cwd: Option<String>,
    pub args: Vec<String>,
    pub envs: StrMap<String>,
}

impl View for Command {
    type V = CommandView;

    open spec fn view(&self) -> CommandView {
        CommandView {
            program: self.program@,
            cwd: opt_text(self.cwd),
            args: texts(self.args@),
            envs: self.envs@,
        }
    }
}

/// The invocation with an empty program name, no argument, no variable and no
/// working directory.
pub open spec fn empty_command() -> CommandView {
    CommandView { program: Seq::empty(), cwd: None, args: Seq::empty(), envs: Map::empty() }
}

/// The view of an optional invocation.
pub open spec fn opt_command(o: Option<Command>) -> Option<CommandView> {
    match o {
        Some(c) => Some(c@),
        None => None,
    }
}

/// An invocation of the program with the given arguments, no variable and no
/// working directory.
pub open spec fn bare_command(program: Seq<char>, args: Seq<Seq<char>>) -> CommandView {
    CommandView { program, cwd: None, args, envs: Map::empty() }
}

impl Command {
    /// An invocation of the program with the given arguments, no variable
    /// and no working directory.
    pub fn bare(program: String, args: Vec<String>) -> (r: Self)
        ensures
            r@ == bare_command(program@, texts(args@)),
    {
        Command { program, cwd: None, args, envs: StrMap::new() }
    }

    /// The empty invocation.
    pub fn new() -> (r: Self)
        ensures
            r@ == empty_command(),
    {
        let r = Command { program: String::new(), cwd: None, args: Vec::new(), envs: StrMap::new() };
        assert(r@.args =~= Seq::empty());
        r
    }

}

impl Clone for Command {
    fn clone(&self) -> (r: Self)
        ensures
            r@ == self@,
    {
        Command {
            program: self.program.clone(),
            cwd: copy_opt_text(&self.cwd),
            args: copy_texts(&self.args),
            envs: self.envs.clone(),
        }
    }
}

impl Default for Command {
    fn default() -> (r: Self)
        ensures
            r@ == empty_command(),
    {
        Command::new()
    }
}

} // verus!
