//! Errors of the configuration and of state changes.
use vstd::prelude::*;

verus! {

/// What went wrong.
#[derive(Debug)]
pub enum Error {
    /// The configuration could not be had.
    Config(String),
    /// A state cannot follow another.
    InvalidStateTransition {
        /// The state before.
        from: String,
        /// The state after.
        to: String,
    },
}

/// The view of `Error`.
pub enum ErrorView {
    /// The configuration could not be had.
    Config(Seq<char>),
    /// A state cannot follow another.
    InvalidStateTransition {
        /// The state before.
        from: Seq<char>,
        /// The state after.
        to: Seq<char>,
    },
}

impl View for Error {
    type V = ErrorView;

    open spec fn view(&self) -> ErrorView {
        match *self {
            Error::Config(s) => ErrorView::Config(s@),
            Error::InvalidStateTransition { from, to } => {
                ErrorView::InvalidStateTransition { from: from@, to: to@ }
            },
        }
    }
}

impl ErrorView {
    /// The text of the error.
    pub open spec fn text(self) -> Seq<char> {
        match self {
            ErrorView::Config(s) => "Configuration error: "@ + s,
            ErrorView::InvalidStateTransition { from, to } => "Invalid state transition: "@ + from
                + " -> "@ + to,
        }
    }
}

impl Error {
    /// The text of the error.
    pub fn message(&self) -> (s: String)
        ensures
            s@ == self@.text(),
    {
        let mut s = String::new();
        match self {
            Error::Config(t) => {
                s.push_str("Configuration error: ");
                s.push_str(t.as_str());
            },
            Error::InvalidStateTransition { from, to } => {
                s.push_str("Invalid state transition: ");
                s.push_str(from.as_str());
                s.push_str(" -> ");
                s.push_str(to.as_str());
            },
        }
        s
    }
}

/// The message of an error holds its details.
pub proof fn law_message_has_details(s: Seq<char>, from: Seq<char>, to: Seq<char>)
    ensures
        ErrorView::Config(s).text() == "Configuration error: "@ + s,
        "Invalid state transition: "@.is_prefix_of(
            (ErrorView::InvalidStateTransition { from, to }).text(),
        ),
        to.is_suffix_of((ErrorView::InvalidStateTransition { from, to }).text()),
{
    let t = (ErrorView::InvalidStateTransition { from, to }).text();
    let begin = "Invalid state transition: "@;
    assert(t.subrange(0, begin.len() as int) =~= begin);
    assert(t.subrange(t.len() - to.len(), t.len() as int) =~= to);
}

} // verus!
