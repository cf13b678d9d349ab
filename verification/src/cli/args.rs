//! The arguments of the command line.

use vstd::prelude::*;
use crate::text::opt_text;

verus! {

/// The arguments of the command line.
#[derive(Debug, PartialEq, Eq)]
pub struct Args {
    /// verbose mode
    pub verbose: bool,
    /// path to the log file
    pub log_file: Option<String>,
    /// path to MD file or directory with MD
    pub path: Option<String>,
    /// if specified, the build files of the code chunks are kept
    pub keep_builds: bool,
    /// either a path to the folder, file name, or both
    pub args: Vec<String>,
}

/// Why the arguments do not fit together.
#[derive(Debug, Clone, Copy, PartialEq, Eq, Structural)]
pub enum ArgsError {
    /// A positional argument came beside an explicit path.
    TooManyArguments,
}

impl ArgsError {
    /// The words of the error.
    pub fn to_string(&self) -> (res: String)
        ensures
            res@ == "Too many arguments"@,
    {
        "Too many arguments".to_owned()
    }
}

impl Default for Args {
    fn default() -> (res: Args)
        ensures
            !res.verbose,
            res.log_file is None,
            res.path is None,
            !res.keep_builds,
            res.args@.len() == 0,
    {
        Args { verbose: false, log_file: None, path: None, keep_builds: false, args: Vec::new() }
    }
}

impl Args {
    /// Positional arguments are a convenience that allows to skip writing
    /// `-p`: the first one becomes the path. All of them are consumed. A
    /// positional argument beside an explicit path is an error; with no
    /// positional argument the path is cleared.
    pub fn fix(&mut self) -> (res: Result<(), ArgsError>)
        ensures
            final(self).args@.len() == 0,
            final(self).verbose == old(self).verbose,
            final(self).keep_builds == old(self).keep_builds,
            opt_text(final(self).log_file) == opt_text(old(self).log_file),
            res is Err <==> old(self).args@.len() > 0 && old(self).path is Some,
            res is Err ==> opt_text(final(self).path) == opt_text(old(self).path),
            res is Ok && old(self).args@.len() > 0 ==> opt_text(final(self).path) == Some(
                old(self).args@[0]@,
            ),
            res is Ok && old(self).args@.len() == 0 ==> final(self).path is None,
    {
        let first: Option<String> = if self.args.len() > 0 {
            Some(self.args[0].clone())
        } else {
            None
        };
        self.args.clear();
        match first {
            Some(a) => {
                if self.path.is_none() {
                    self.path = Some(a);
                    Ok(())
                } else {
                    Err(ArgsError::TooManyArguments)
                }
            },
            None => {
                self.path = None;
                Ok(())
            },
        }
    }
}

} // verus!
