//! The built-in actions.

use vstd::prelude::*;
use crate::text::str_equal;

verus! {

/// one of the hardcoded actions that can be mapped
/// to a key or ran after a successful job
#[derive(Debug, Clone, Copy, PartialEq, Eq, Structural, Hash)]
pub enum Internal {
    Back,
    Help,
    Quit,
}

impl Internal {
    /// The words that describe the action.
    pub open spec fn description(self) -> Seq<char> {
        match self {
            Internal::Back => "back to previous page or job"@,
            Internal::Help => "help"@,
            Internal::Quit => "quit"@,
        }
    }

    /// The action that a name stands for.
    pub open spec fn named(name: Seq<char>) -> Result<Internal, ()> {
        if name == "back"@ {
            Ok(Internal::Back)
        } else if name == "help"@ {
            Ok(Internal::Help)
        } else if name == "quit"@ {
            Ok(Internal::Quit)
        } else {
            Err(())
        }
    }

    /// The words that describe the action.
    pub fn to_string(&self) -> (res: String)
        ensures
            res@ == self.description(),
    {
        match self {
            Internal::Back => "back to previous page or job".to_owned(),
            Internal::Help => "help".to_owned(),
            Internal::Quit => "quit".to_owned(),
        }
    }

    /// Reads an action from its name: `back`, `help` or `quit`.
    pub fn from_str(s: &str) -> (res: Result<Internal, ()>)
        ensures
            res == Internal::named(s@),
    {
        if str_equal(s, "back") {
            Ok(Internal::Back)
        } else if str_equal(s, "help") {
            Ok(Internal::Help)
        } else if str_equal(s, "quit") {
            Ok(Internal::Quit)
        } else {
            Err(())
        }
    }
}

impl std::str::FromStr for Internal {
    type Err = ();

    /// Reads an action from its name: `back`, `help` or `quit`.
    fn from_str(s: &str) -> (res: Result<Internal, ()>)
        ensures
            res == Internal::named(s@),
    {
        Internal::from_str(s)
    }
}

} // verus!
