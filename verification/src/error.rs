//! What can go wrong, and what is said about it.

use crate::text::join3;
use vstd::prelude::*;
use vstd::string::*;

verus! {

/// What can go wrong.
///
/// Four variants, and two of them are refusals rather than faults: a caller serving this over a
/// protocol will want to map [`AlreadySignedIn`](Error::AlreadySignedIn) to something meaning
/// "your request was wrong and here is the parameter that fixes it", and
/// [`LoginInFlight`](Error::LoginInFlight) to something meaning "busy, try again".
#[derive(Debug, PartialEq, Eq)]
#[non_exhaustive]
pub enum Error {
    /// Hugging Face could not be reached, or did not answer usefully.
    Network(String),
    /// The credential could not be read or written.
    Io {
        /// The file that could not be read or written, as it is shown.
        path: String,
        /// What the filesystem said.
        source: String,
    },
    /// A second login while one is still waiting for approval.
    LoginInFlight,
    /// A login on a robot that already belongs to somebody, without `force`.
    AlreadySignedIn(String),
}

/// An [`Error`], with its texts as sequences of characters.
pub enum ErrorView {
    Network(Seq<char>),
    Io { path: Seq<char>, source: Seq<char> },
    LoginInFlight,
    AlreadySignedIn(Seq<char>),
}

impl View for Error {
    type V = ErrorView;

    open spec fn view(&self) -> ErrorView {
        match self {
            Error::Network(why) => ErrorView::Network(why@),
            Error::Io { path, source } => ErrorView::Io { path: path@, source: source@ },
            Error::LoginInFlight => ErrorView::LoginInFlight,
            Error::AlreadySignedIn(who) => ErrorView::AlreadySignedIn(who@),
        }
    }
}

impl ErrorView {
    /// What a person is told.
    pub open spec fn message(self) -> Seq<char> {
        match self {
            ErrorView::Network(why) => why,
            ErrorView::Io { path, source } => path + ": "@ + source,
            ErrorView::LoginInFlight =>
                "a login is already waiting for approval — `account status` has the code, or force to start a new one"@,
            ErrorView::AlreadySignedIn(who) => "this robot already belongs to "@ + who
                + ". Sign that account out first, or force to replace it"@,
        }
    }
}

impl Error {
    /// What a person is told.
    ///
    /// A refusal names the way past it: where the code that already exists can be read, whom the
    /// robot belongs to, and the flag that gets past either.
    pub fn message(&self) -> (r: String)
        ensures
            r@ == self@.message(),
    {
        match self {
            Error::Network(why) => why.clone(),
            Error::Io { path, source } => join3(path.as_str(), ": ", source.as_str()),
            Error::LoginInFlight =>
                "a login is already waiting for approval — `account status` has the code, or force to start a new one".to_owned(),
            Error::AlreadySignedIn(who) => join3(
                "this robot already belongs to ",
                who.as_str(),
                ". Sign that account out first, or force to replace it",
            ),
        }
    }
}

} // verus!
