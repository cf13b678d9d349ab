//! The line of key hints under the view.

use vstd::prelude::*;
use crate::text::{clone_opt_string, opt_text};

verus! {

/// The hints of the help line.
#[derive(Debug, PartialEq, Eq)]
pub struct HelpLine {
    quit: String,
    help: Option<String>,
    close_help: Option<String>,
}

pub struct HelpLineView {
    pub quit: Seq<char>,
    pub help: Option<Seq<char>>,
    pub close_help: Option<Seq<char>>,
}

impl View for HelpLine {
    type V = HelpLineView;

    closed spec fn view(&self) -> HelpLineView {
        HelpLineView {
            quit: self.quit@,
            help: opt_text(self.help),
            close_help: opt_text(self.close_help),
        }
    }
}

/// The hint that `key` quits.
pub open spec fn quit_hint(key: Seq<char>) -> Seq<char> {
    "Hit *"@ + key + "* to quit"@
}

/// The hint that `key` opens the help.
pub open spec fn help_hint(key: Seq<char>) -> Seq<char> {
    "*"@ + key + "* for help"@
}

/// The hint that `key` closes the help.
pub open spec fn close_hint(key: Seq<char>) -> Seq<char> {
    "*"@ + key + "* to close this help"@
}

/// The hints for the keys that quit, open the help and go back: the help
/// is closed by the key that goes back, or else by the key that opens
/// it.
pub open spec fn hints_of(quit: Seq<char>, help: Option<Seq<char>>, back: Option<Seq<char>>)
    -> HelpLineView {
    HelpLineView {
        quit: quit_hint(quit),
        help: match help {
            Some(key) => Some(help_hint(key)),
            None => None,
        },
        close_help: match back {
            Some(key) => Some(close_hint(key)),
            None => match help {
                Some(key) => Some(close_hint(key)),
                None => None,
            },
        },
    }
}

/// The line: the hint to quit, then, after a comma, the hint that fits
/// the help being open or closed, where there is one.
pub open spec fn line_of(hints: HelpLineView, help_open: bool) -> Seq<char> {
    match (if help_open {
        hints.close_help
    } else {
        hints.help
    }) {
        Some(hint) => hints.quit + ", "@ + hint,
        None => hints.quit,
    }
}

fn wrap(before: &str, key: &str, after: &str) -> (res: String)
    ensures
        res@ == before@ + key@ + after@,
{
    before.to_owned().concat(key).concat(after)
}

impl HelpLine {
    /// The hints for the shortest keys bound to quitting, to the help and
    /// to going back.
    pub fn new(quit: &str, help: Option<&str>, back: Option<&str>) -> (res: HelpLine)
        ensures
            res@ == hints_of(
                quit@,
                match help {
                    Some(key) => Some(key@),
                    None => None,
                },
                match back {
                    Some(key) => Some(key@),
                    None => None,
                },
            ),
    {
        let help_hint: Option<String> = match help {
            Some(key) => Some(wrap("*", key, "* for help")),
            None => None,
        };
        let close_help: Option<String> = match back {
            Some(key) => Some(wrap("*", key, "* to close this help")),
            None => match help {
                Some(key) => Some(wrap("*", key, "* to close this help")),
                None => None,
            },
        };
        HelpLine { quit: wrap("Hit *", quit, "* to quit"), help: help_hint, close_help }
    }

    /// The line to show while the help is open, or while it is closed.
    pub fn markdown(&self, help_open: bool) -> (res: String)
        ensures
            res@ == line_of(self@, help_open),
    {
        let hint = if help_open {
            clone_opt_string(&self.close_help)
        } else {
            clone_opt_string(&self.help)
        };
        match hint {
            Some(hint) => self.quit.clone().concat(", ").concat(hint.as_str()),
            None => self.quit.clone(),
        }
    }
}

} // verus!
