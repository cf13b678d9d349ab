//! What the execution of a command leaves behind.

use vstd::prelude::*;
use crate::executor::command_output::{CommandOutput, CommandOutputLineView, ProcessStatus};
use crate::executor::failure::Failure;

verus! {

/// The output of a command that ran to its end.
#[derive(Debug, PartialEq, Eq)]
pub struct Report {
    pub output: CommandOutput,
}

/// what we get from the execution of a command
#[derive(Debug, PartialEq, Eq)]
pub enum CommandResult {
    /// a trustable report
    Report(Report),
    /// we don't have a proper report
    Failure(Failure),
    /// not yet computed
    NotComputed,
}

impl CommandResult {
    /// The lines of the result, where it has any.
    pub open spec fn lines(&self) -> Option<Seq<CommandOutputLineView>> {
        match *self {
            CommandResult::Report(report) => Some(report.output@),
            CommandResult::Failure(failure) => Some(failure.output@),
            CommandResult::NotComputed => None,
        }
    }

    /// The result of a command that wrote `output`: a report of it,
    /// however the command ended.
    pub fn new(output: CommandOutput, exit_status: Option<ProcessStatus>) -> (res: CommandResult)
        ensures
            res == CommandResult::Report(Report { output }),
    {
        CommandResult::Report(Report { output })
    }

    pub fn output(&self) -> (res: Option<&CommandOutput>)
        ensures
            match res {
                Some(output) => self.lines() == Some(output@),
                None => self.lines() is None,
            },
    {
        match self {
            CommandResult::Report(report) => Some(&report.output),
            CommandResult::Failure(failure) => Some(&failure.output),
            CommandResult::NotComputed => None,
        }
    }

    pub fn report(&self) -> (res: Option<&Report>)
        ensures
            match res {
                Some(report) => *self == CommandResult::Report(*report),
                None => !(self is Report),
            },
    {
        match self {
            CommandResult::Report(report) => Some(report),
            _ => None,
        }
    }

    /// Puts the lines of the result in the opposite order.
    pub fn reverse(&mut self)
        ensures
            final(self).lines() == match old(self).lines() {
                Some(lines) => Some(lines.reverse()),
                None => None,
            },
            *old(self) is Report <==> *final(self) is Report,
            *old(self) is Failure <==> *final(self) is Failure,
            *old(self) is Failure ==> (*final(self))->Failure_0.error_code == (*old(
                self,
            ))->Failure_0.error_code,
    {
        match self {
            CommandResult::Report(report) => {
                report.output.reverse();
            },
            CommandResult::Failure(failure) => {
                failure.output.reverse();
            },
            CommandResult::NotComputed => {},
        }
    }

    /// How many lines the result has.
    pub fn lines_len(&self) -> (res: usize)
        ensures
            res == match self.lines() {
                Some(lines) => lines.len(),
                None => 0,
            },
    {
        match self {
            CommandResult::Report(report) => report.output.len(),
            CommandResult::Failure(failure) => failure.output.lines.len(),
            CommandResult::NotComputed => 0,
        }
    }
}

} // verus!
