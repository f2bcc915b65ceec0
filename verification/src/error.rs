//! The error type returned by the terminal query operation.

use vstd::prelude::*;

verus! {

/// Mathematical model of a [`TushareError`]: the kind together with the
/// message it carries, as a sequence of characters.
#[verifier::ext_equal]
pub enum ErrorModel {
    /// The remote service could not be reached.
    Transport(Seq<char>),
    /// The remote service answered with a non-success status.
    Service(Seq<char>),
    /// The reply could not be decoded into a table.
    Parse(Seq<char>),
}

/// An error from a query against the tushare service.
///
/// No failure is retried or swallowed: every one of these reaches the caller
/// of the terminal query operation.
#[derive(Debug)]
pub enum TushareError {
    /// A network-level failure: the request never produced a reply.
    Transport(String),
    /// The service replied, but reported a non-success status; the payload's
    /// error message is carried verbatim.
    Service(String),
    /// The service reported success, but its tabular payload was malformed.
    Parse(String),
}

impl View for TushareError {
    type V = ErrorModel;

    open spec fn view(&self) -> ErrorModel {
        match self {
            TushareError::Transport(m) => ErrorModel::Transport(m@),
            TushareError::Service(m) => ErrorModel::Service(m@),
            TushareError::Parse(m) => ErrorModel::Parse(m@),
        }
    }
}

impl TushareError {
    /// The message carried by the error, whatever its kind.
    pub fn message(&self) -> (r: &str)
        ensures
            r@ == (match self@ {
                ErrorModel::Transport(m) => m,
                ErrorModel::Service(m) => m,
                ErrorModel::Parse(m) => m,
            }),
    {
        match self {
            TushareError::Transport(m) => m.as_str(),
            TushareError::Service(m) => m.as_str(),
            TushareError::Parse(m) => m.as_str(),
        }
    }
}

} // verus!
