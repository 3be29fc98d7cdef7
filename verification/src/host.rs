//! What the library asks of the machine it runs on, and what comes back.

use vstd::prelude::*;
use crate::error::{outcome, BootError};

verus! {

/// The texts of a list of strings.
pub open spec fn texts(v: Seq<String>) -> Seq<Seq<char>> {
    v.map_values(|s: String| s@)
}

/// A program and its arguments.
#[derive(Debug)]
pub struct ToolCommand {
    /// The program, by path or by name.
    pub program: String,
    /// Its arguments, in order.
    pub args: Vec<String>,
}

/// The texts of a command.
pub struct ToolCommandView {
    /// The program, by path or by name.
    pub program: Seq<char>,
    /// Its arguments, in order.
    pub args: Seq<Seq<char>>,
}

impl View for ToolCommand {
    type V = ToolCommandView;

    open spec fn view(&self) -> ToolCommandView {
        ToolCommandView { program: self.program@, args: texts(self.args@) }
    }
}

/// A path that is made by joining components to a directory.
#[derive(Debug)]
pub struct HostPath {
    /// The directory.
    pub base: String,
    /// The components joined to it, in order.
    pub parts: Vec<String>,
}

/// The texts of a path.
pub struct HostPathView {
    /// The directory.
    pub base: Seq<char>,
    /// The components joined to it, in order.
    pub parts: Seq<Seq<char>>,
}

impl View for HostPath {
    type V = HostPathView;

    open spec fn view(&self) -> HostPathView {
        HostPathView { base: self.base@, parts: texts(self.parts@) }
    }
}

/// What a program left behind when it ended.
#[derive(Debug)]
pub struct ToolOutput {
    /// Whether the program reported success.
    pub success: bool,
    /// Its exit code, if it ended with one.
    pub code: Option<i32>,
    /// What it wrote to its standard output.
    pub stdout: Vec<u8>,
    /// What it wrote to its standard error.
    pub stderr: Vec<u8>,
}

/// How running a program went.
#[derive(Debug)]
pub enum RunOutcome {
    /// There is no such program.
    NotFound,
    /// The program could not be started.
    LaunchFailed,
    /// The program was started, and waiting for its end failed.
    WaitFailed,
    /// The program ran to its end.
    Exited(ToolOutput),
}

/// What happened in an operation that runs one program.
#[derive(Debug)]
pub enum RunEvent {
    /// The operation begins.
    Begin,
    /// The program was run.
    Ran(RunOutcome),
}

/// What an operation that runs one program does next.
#[derive(Debug)]
pub enum RunStep<C, E> {
    /// Run this program.
    Run(C),
    /// The operation is over.
    Finished(Result<(), E>),
}

impl View for RunStep<ToolCommand, BootError> {
    type V = RunStep<ToolCommandView, Seq<char>>;

    open spec fn view(&self) -> RunStep<ToolCommandView, Seq<char>> {
        match *self {
            RunStep::Run(c) => RunStep::Run(c@),
            RunStep::Finished(r) => RunStep::Finished(outcome(r)),
        }
    }
}

/// The command that runs `program` with `args`.
pub fn command(program: &str, args: Vec<String>) -> (r: ToolCommand)
    ensures
        r@ == (ToolCommandView { program: program@, args: texts(args@) }),
{
    ToolCommand { program: program.to_string(), args }
}

/// The path that joins `parts` to `base`.
pub fn path(base: &str, parts: Vec<String>) -> (r: HostPath)
    ensures
        r@ == (HostPathView { base: base@, parts: texts(parts@) }),
{
    HostPath { base: base.to_string(), parts }
}

} // verus!
