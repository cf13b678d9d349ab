//! What is left of a command that failed.

use vstd::prelude::*;
use crate::executor::command_output::CommandOutput;

verus! {

/// data of a failed command
#[derive(Debug, PartialEq, Eq)]
pub struct Failure {
    pub error_code: i32,
    pub output: CommandOutput,
}

} // verus!
