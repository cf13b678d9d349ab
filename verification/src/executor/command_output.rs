//! What the worker reports of the commands it runs.

use vstd::prelude::*;
use crate::executor::execution_plan::{ExecutionItem, ExecutionItemView};

verus! {

/// The channel a line of output came from.
#[derive(Debug, Clone, Copy, PartialEq, Eq, Structural)]
pub enum CommandStream {
    StdOut,
    StdErr,
}

/// a line coming either from stdout or from stderr
#[derive(Debug, PartialEq, Eq)]
pub struct CommandOutputLine {
    pub content: String,
    pub origin: CommandStream,
}

pub struct CommandOutputLineView {
    pub content: Seq<char>,
    pub origin: CommandStream,
}

impl View for CommandOutputLine {
    type V = CommandOutputLineView;

    open spec fn view(&self) -> CommandOutputLineView {
        CommandOutputLineView { content: self.content@, origin: self.origin }
    }
}

impl Clone for CommandOutputLine {
    fn clone(&self) -> (res: CommandOutputLine)
        ensures
            res@ == self@,
    {
        CommandOutputLine { content: self.content.clone(), origin: self.origin }
    }
}

/// some output lines
#[derive(Debug, PartialEq, Eq)]
pub struct CommandOutput {
    pub lines: Vec<CommandOutputLine>,
}

impl View for CommandOutput {
    type V = Seq<CommandOutputLineView>;

    open spec fn view(&self) -> Seq<CommandOutputLineView> {
        Seq::new(self.lines@.len(), |i: int| self.lines@[i]@)
    }
}

impl Default for CommandOutput {
    fn default() -> (res: CommandOutput)
        ensures
            res@ == Seq::<CommandOutputLineView>::empty(),
    {
        let res = CommandOutput { lines: Vec::new() };
        assert(res@ =~= Seq::<CommandOutputLineView>::empty());
        res
    }
}

impl CommandOutput {
    /// How many lines there are.
    pub fn len(&self) -> (res: usize)
        ensures
            res == self@.len(),
    {
        self.lines.len()
    }

    /// Puts the lines in the opposite order.
    pub fn reverse(&mut self)
        ensures
            final(self)@ == old(self)@.reverse(),
    {
        let ghost before = self@;
        let mut out: Vec<CommandOutputLine> = Vec::new();
        while self.lines.len() > 0
            invariant
                before.len() == self.lines@.len() + out@.len(),
                forall|k: int| 0 <= k < self.lines@.len() ==> self.lines@[k]@ == before[k],
                forall|k: int| 0 <= k < out@.len() ==> out@[k]@ == before[before.len() - 1 - k],
            decreases self.lines.len(),
        {
            let line = self.lines.pop().unwrap();
            out.push(line);
        }
        self.lines = out;
        assert(self@ =~= before.reverse());
    }
}

/// How a process ended: its exit code, where it has one.
#[derive(Debug, Clone, Copy, PartialEq, Eq, Structural)]
pub struct ProcessStatus {
    pub code: Option<i32>,
}

/// a piece of information about the execution of a command
#[derive(Debug, PartialEq, Eq)]
pub enum CommandExecInfo {
    /// Command ended; no status where waiting for it failed
    End { status: Option<ProcessStatus> },
    /// Command started
    Start,
    /// The command was killed
    Interruption,
    /// Execution failed
    Error(String),
    /// Here's a line of output (coming from stderr or stdout)
    Line(CommandOutputLine),
    /// Output a line coming from the execution plan directly
    Output(ExecutionItem),
}

pub enum CommandExecInfoView {
    End { status: Option<ProcessStatus> },
    Start,
    Interruption,
    Error(Seq<char>),
    Line(CommandOutputLineView),
    Output(ExecutionItemView),
}

impl View for CommandExecInfo {
    type V = CommandExecInfoView;

    open spec fn view(&self) -> CommandExecInfoView {
        match *self {
            CommandExecInfo::End { status } => CommandExecInfoView::End { status },
            CommandExecInfo::Start => CommandExecInfoView::Start,
            CommandExecInfo::Interruption => CommandExecInfoView::Interruption,
            CommandExecInfo::Error(message) => CommandExecInfoView::Error(message@),
            CommandExecInfo::Line(line) => CommandExecInfoView::Line(line@),
            CommandExecInfo::Output(item) => CommandExecInfoView::Output(item@),
        }
    }
}

} // verus!
