//! The actions that a key can be bound to.

use vstd::prelude::*;
use crate::cli::internal::Internal;

verus! {

/// an action that can be mapped to a key
#[derive(Debug, Clone, Copy, PartialEq, Eq, Structural, Hash)]
pub enum Action {
    Internal(Internal),
}

/// Why a text names no action.
#[derive(Debug, PartialEq, Eq)]
pub enum ParseActionError {
    UnknownAction(String),
    UnknownCategory(String),
    UnknownInternal(String),
}

pub enum ParseActionErrorView {
    UnknownAction(Seq<char>),
    UnknownCategory(Seq<char>),
    UnknownInternal(Seq<char>),
}

impl View for ParseActionError {
    type V = ParseActionErrorView;

    open spec fn view(&self) -> ParseActionErrorView {
        match *self {
            ParseActionError::UnknownAction(s) => ParseActionErrorView::UnknownAction(s@),
            ParseActionError::UnknownCategory(s) => ParseActionErrorView::UnknownCategory(s@),
            ParseActionError::UnknownInternal(s) => ParseActionErrorView::UnknownInternal(s@),
        }
    }
}

/// `text` as the standard debug formatting of strings writes it: between
/// double quotes, with escapes.
pub uninterp spec fn debug_quoted(text: Seq<char>) -> Seq<char>;

/// `text` as the `Debug` impl of `str` formats it.
#[verifier::external_body]
fn quote(text: &str) -> (res: String)
    ensures
        res@ == debug_quoted(text@),
{
    format!("{:?}", text)
}

/// The words of an error.
pub open spec fn error_text(error: ParseActionErrorView) -> Seq<char> {
    match error {
        ParseActionErrorView::UnknownAction(s) => "Action not understood: "@ + debug_quoted(s)
            + " (did you mean \"job:"@ + s + "\"?)"@,
        ParseActionErrorView::UnknownCategory(s) => "Unknown category: "@ + debug_quoted(s),
        ParseActionErrorView::UnknownInternal(s) => "Internal not understood: "@ + debug_quoted(
            s,
        ),
    }
}

/// The action that a name stands for.
pub open spec fn action_named(name: Seq<char>) -> Result<Action, ParseActionErrorView> {
    match Internal::named(name) {
        Ok(internal) => Ok(Action::Internal(internal)),
        Err(_) => Err(ParseActionErrorView::UnknownAction(name)),
    }
}

impl ParseActionError {
    /// The words of the error.
    pub fn to_string(&self) -> (res: String)
        ensures
            res@ == error_text(self@),
    {
        match self {
            ParseActionError::UnknownAction(s) => "Action not understood: ".to_owned().concat(
                quote(s.as_str()).as_str(),
            ).concat(" (did you mean \"job:").concat(s.as_str()).concat("\"?)"),
            ParseActionError::UnknownCategory(s) => "Unknown category: ".to_owned().concat(
                quote(s.as_str()).as_str(),
            ),
            ParseActionError::UnknownInternal(s) => "Internal not understood: ".to_owned().concat(
                quote(s.as_str()).as_str(),
            ),
        }
    }
}

impl Action {
    /// Reads an action from its name.
    pub fn from_str(s: &str) -> (res: Result<Action, ParseActionError>)
        ensures
            match res {
                Ok(action) => action_named(s@) == Ok::<Action, ParseActionErrorView>(action),
                Err(error) => action_named(s@) == Err::<Action, ParseActionErrorView>(error@),
            },
    {
        match Internal::from_str(s) {
            Ok(internal) => Ok(Action::Internal(internal)),
            Err(_) => Err(ParseActionError::UnknownAction(s.to_owned())),
        }
    }
}

impl std::str::FromStr for Action {
    type Err = ParseActionError;

    /// Reads an action from its name.
    fn from_str(s: &str) -> (res: Result<Action, ParseActionError>)
        ensures
            match res {
                Ok(action) => action_named(s@) == Ok::<Action, ParseActionErrorView>(action),
                Err(error) => action_named(s@) == Err::<Action, ParseActionErrorView>(error@),
            },
    {
        Action::from_str(s)
    }
}

impl From<Internal> for Action {
    fn from(i: Internal) -> (res: Action) {
        Action::Internal(i)
    }
}

impl vstd::std_specs::convert::FromSpecImpl<Internal> for Action {
    open spec fn obeys_from_spec() -> bool {
        true
    }

    open spec fn from_spec(i: Internal) -> Action {
        Action::Internal(i)
    }
}

} // verus!
