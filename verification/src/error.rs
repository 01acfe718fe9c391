//! The outcomes of the barrier that a caller can tell apart.

use vstd::prelude::*;

verus! {

/// All possible error cases.
#[derive(Debug, PartialEq, Eq)]
pub enum Error {
    /// A failure of the transport, of decoding or of the configuration,
    /// with a description of its cause.
    Generic(String),
    /// The wait protocol was started by a job that is not the leader.
    NotLeader,
    /// The status service does not know the build.
    BuildNotFound,
    /// All other jobs finished, but at least one of them did not succeed.
    FailedBuilds,
}

/// The mathematical value of an [`Error`]: the message as a sequence of
/// characters.
pub enum ErrorView {
    Generic(Seq<char>),
    NotLeader,
    BuildNotFound,
    FailedBuilds,
}

impl View for Error {
    type V = ErrorView;

    open spec fn view(&self) -> ErrorView {
        match self {
            Error::Generic(message) => ErrorView::Generic(message@),
            Error::NotLeader => ErrorView::NotLeader,
            Error::BuildNotFound => ErrorView::BuildNotFound,
            Error::FailedBuilds => ErrorView::FailedBuilds,
        }
    }
}

impl ErrorView {
    /// The text that describes the error to a person.
    pub open spec fn description(self) -> Seq<char> {
        match self {
            ErrorView::Generic(message) => message,
            ErrorView::NotLeader => "This build is not the leader"@,
            ErrorView::FailedBuilds => "Some builds failed"@,
            ErrorView::BuildNotFound => "This build does not exist"@,
        }
    }
}

impl Error {
    /// Build an error from a string slice. The message is kept as it is.
    pub fn from_str(message: &str) -> (error: Error)
        ensures
            error@ == ErrorView::Generic(message@),
    {
        Error::from_string(message.to_owned())
    }

    /// Build an error from a string. The message is kept as it is.
    pub fn from_string(message: String) -> (error: Error)
        ensures
            error@ == ErrorView::Generic(message@),
    {
        Error::Generic(message)
    }

    /// The text that describes the error to a person: the message of a
    /// generic error, a fixed sentence for each of the others.
    pub fn description(&self) -> (text: &str)
        ensures
            text@ == self@.description(),
    {
        match self {
            Error::Generic(message) => message.as_str(),
            Error::NotLeader => "This build is not the leader",
            Error::FailedBuilds => "Some builds failed",
            Error::BuildNotFound => "This build does not exist",
        }
    }
}

} // verus!
