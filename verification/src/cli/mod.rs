//! What the command line and the keyboard ask for.

pub mod action;
pub mod args;
pub mod help_line;
pub mod internal;
