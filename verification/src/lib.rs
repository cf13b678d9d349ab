//! A literate execution engine: compiles a document with fenced code blocks
//! into an ordered plan and decides, step by step, how the plan is run.

pub mod cli;
pub mod control_loop;
pub mod executor;
pub mod fenced_attributes;
pub mod text;
pub mod view;
