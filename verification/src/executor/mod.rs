//! The plan, the jobs derived from it and the worker that runs them.

pub mod command_output;
pub mod command_result;
pub mod executable;
pub mod execution_plan;
pub mod executor;
pub mod failure;
pub mod job;
pub mod job_location;
pub mod mission;
pub mod mission_location;
pub mod plan_laws;

pub use executor::{Executor, Task};
