//! One error type for everything that can fail between the command line,
//! the content store and the chain.

use crate::cli::ParseError;
use crate::cli::ParseErrorView;
use vstd::prelude::*;
use vstd::std_specs::convert::FromSpecImpl;
use vstd::string::*;

verus! {

/// An error that occurred while publishing, deploying or scanning. Each
/// variant but the last carries the description of its cause.
#[derive(Debug, Clone, PartialEq, Eq)]
pub enum Error {
    /// The configuration is incomplete.
    Conf(ParseError),
    /// The chain endpoint failed or answered out of turn.
    Web3(String),
    /// The contract interface could not be used.
    Contract(String),
    /// The creation transaction failed or was not confirmed.
    Deploy(String),
    /// A file could not be read.
    Io(String),
    /// A document, a key or hexadecimal text is malformed.
    Serialization(String),
    /// The content store failed.
    Ipfs(String),
    /// The build artifact does not have the expected form.
    InvalidInput,
}

/// The cause that an [`Error`] carries: an incomplete configuration
/// itself, or the description of what failed underneath.
#[derive(Debug, Clone, Copy, PartialEq, Eq)]
pub enum Cause<'a> {
    Conf(&'a ParseError),
    Text(&'a String),
}

/// An [`Error`] with its description as a sequence of characters.
pub enum ErrorView {
    Conf(ParseErrorView),
    Web3(Seq<char>),
    Contract(Seq<char>),
    Deploy(Seq<char>),
    Io(Seq<char>),
    Serialization(Seq<char>),
    Ipfs(Seq<char>),
    InvalidInput,
}

impl View for Error {
    type V = ErrorView;

    open spec fn view(&self) -> ErrorView {
        match *self {
            Error::Conf(e) => ErrorView::Conf(e@),
            Error::Web3(e) => ErrorView::Web3(e@),
            Error::Contract(e) => ErrorView::Contract(e@),
            Error::Deploy(e) => ErrorView::Deploy(e@),
            Error::Io(e) => ErrorView::Io(e@),
            Error::Serialization(e) => ErrorView::Serialization(e@),
            Error::Ipfs(e) => ErrorView::Ipfs(e@),
            Error::InvalidInput => ErrorView::InvalidInput,
        }
    }
}

impl ErrorView {
    /// The line shown to the user for this error.
    pub open spec fn text(self) -> Seq<char> {
        match self {
            ErrorView::Conf(e) => "configuration error: "@ + e.text(),
            ErrorView::Web3(e) => "web3 error: "@ + e,
            ErrorView::Contract(e) => "contract error: "@ + e,
            ErrorView::Deploy(e) => "deployment error: "@ + e,
            ErrorView::Io(e) => "IO error: "@ + e,
            ErrorView::Serialization(e) => "serialization error: "@ + e,
            ErrorView::Ipfs(e) => "ipfs network error: "@ + e,
            ErrorView::InvalidInput => "the inputted file could not be parsed properly"@,
        }
    }
}

impl From<ParseError> for Error {
    /// An incomplete configuration, as an error of the whole.
    fn from(error: ParseError) -> (wrapped: Error) {
        Error::Conf(error)
    }
}

impl FromSpecImpl<ParseError> for Error {
    open spec fn obeys_from_spec() -> bool {
        true
    }

    open spec fn from_spec(error: ParseError) -> Error {
        Error::Conf(error)
    }
}

impl Error {
    /// Renders the error as the line shown to the user.
    pub fn message(&self) -> (line: String)
        ensures
            line@ == self@.text(),
    {
        match self {
            Error::Conf(e) => {
                let cause = e.message();
                String::from_str("configuration error: ").concat(cause.as_str())
            },
            Error::Web3(e) => String::from_str("web3 error: ").concat(e.as_str()),
            Error::Contract(e) => String::from_str("contract error: ").concat(e.as_str()),
            Error::Deploy(e) => String::from_str("deployment error: ").concat(e.as_str()),
            Error::Io(e) => String::from_str("IO error: ").concat(e.as_str()),
            Error::Serialization(e) => String::from_str("serialization error: ").concat(
                e.as_str(),
            ),
            Error::Ipfs(e) => String::from_str("ipfs network error: ").concat(e.as_str()),
            Error::InvalidInput => String::from_str(
                "the inputted file could not be parsed properly",
            ),
        }
    }

    /// What the error carries of its cause: the configuration error, or the
    /// cause's description. Only invalid input has no cause.
    pub fn source(&self) -> (cause: Option<Cause<'_>>)
        ensures
            cause == match *self {
                Error::Conf(e) => Some(Cause::Conf(&e)),
                Error::Web3(e) => Some(Cause::Text(&e)),
                Error::Contract(e) => Some(Cause::Text(&e)),
                Error::Deploy(e) => Some(Cause::Text(&e)),
                Error::Io(e) => Some(Cause::Text(&e)),
                Error::Serialization(e) => Some(Cause::Text(&e)),
                Error::Ipfs(e) => Some(Cause::Text(&e)),
                Error::InvalidInput => None,
            },
    {
        match self {
            Error::Conf(e) => Some(Cause::Conf(e)),
            Error::Web3(e) => Some(Cause::Text(e)),
            Error::Contract(e) => Some(Cause::Text(e)),
            Error::Deploy(e) => Some(Cause::Text(e)),
            Error::Io(e) => Some(Cause::Text(e)),
            Error::Serialization(e) => Some(Cause::Text(e)),
            Error::Ipfs(e) => Some(Cause::Text(e)),
            Error::InvalidInput => None,
        }
    }
}

} // verus!
