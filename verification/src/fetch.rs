//! What one answer of the status service means.
//!
//! The caller sends one request per poll to the address that
//! [`Build::matrix_url`] gives, follows redirects and decodes the body. It
//! reports what came of that as a [`Reply`]; this module turns the reply into
//! a snapshot or into the error that the caller has to see.

use vstd::prelude::*;
use vstd::string::StringExecFns;
use crate::config::Build;
use crate::decimal::{decimal_text, format_number};
use crate::error::{Error, ErrorView};
use crate::matrix::{empty_matrix_message, job_views, Matrix, MatrixElement, MatrixElementView, MatrixView};

verus! {

/// The status with which the service says that it does not know the build.
pub const STATUS_NOT_FOUND: u16 = 404;

/// The number of redirects that a request may follow.
pub const REDIRECT_LIMIT: usize = 5;

/// The name under which the requests present their sender to the service.
pub const USER_AGENT: &'static str = "travis-after-all/0.2.0";

/// The decoded body of a successful answer.
#[derive(Debug, PartialEq, Eq)]
pub struct Payload {
    /// The build's identifier.
    pub id: u32,
    /// The jobs of the build.
    pub matrix: Vec<MatrixElement>,
}

/// What one request to the status service came to.
#[derive(Debug, PartialEq, Eq)]
pub enum Reply {
    /// No answer came: the description of the cause.
    Failed(String),
    /// The service answered with this status. The body is given decoded, or
    /// with the description of why it could not be decoded.
    Answered { status: u16, body: Result<Payload, String> },
}

/// The mathematical value of a [`Payload`].
pub struct PayloadView {
    pub id: u32,
    pub matrix: Seq<MatrixElementView>,
}

/// The mathematical value of a [`Reply`].
pub enum ReplyView {
    Failed(Seq<char>),
    Answered { status: u16, body: Result<PayloadView, Seq<char>> },
}

impl View for Payload {
    type V = PayloadView;

    open spec fn view(&self) -> PayloadView {
        PayloadView { id: self.id, matrix: job_views(self.matrix@) }
    }
}

impl View for Reply {
    type V = ReplyView;

    open spec fn view(&self) -> ReplyView {
        match self {
            Reply::Failed(cause) => ReplyView::Failed(cause@),
            Reply::Answered { status, body } => ReplyView::Answered {
                status: *status,
                body: match body {
                    Ok(payload) => Ok(payload@),
                    Err(cause) => Err(cause@),
                },
            },
        }
    }
}

/// The status says that the request succeeded.
pub open spec fn is_success(status: u16) -> bool {
    200 <= status <= 299
}

/// The message of the error for an answer whose status is neither a success
/// nor "not found": it names the status.
pub open spec fn refused_message(status: u16) -> Seq<char> {
    "The status service refused the request with status "@ + decimal_text(status as nat)
}

impl ReplyView {
    /// The snapshot that the reply carries, or the error that it stands for.
    ///
    /// "Not found" is its own error, whatever the body holds. Under every
    /// other status a body that could not be decoded is a generic error
    /// with the description of that failure as its message, and so is a
    /// failure of the transport with the description of its cause. A body
    /// that was decoded counts only under a status of success: under any
    /// other status the error names the status.
    pub open spec fn matrix(self) -> Result<MatrixView, ErrorView> {
        match self {
            ReplyView::Failed(cause) => Err(ErrorView::Generic(cause)),
            ReplyView::Answered { status, body } => if status == STATUS_NOT_FOUND {
                Err(ErrorView::BuildNotFound)
            } else {
                match body {
                    Err(cause) => Err(ErrorView::Generic(cause)),
                    Ok(payload) => if !is_success(status) {
                        Err(ErrorView::Generic(refused_message(status)))
                    } else if payload.matrix.len() == 0 {
                        Err(ErrorView::Generic(empty_matrix_message()))
                    } else {
                        Ok(MatrixView { id: payload.id, jobs: payload.matrix })
                    },
                }
            },
        }
    }
}

/// The error for an answer whose status is neither a success nor "not
/// found".
fn refused(status: u16) -> (error: Error)
    ensures
        error@ == ErrorView::Generic(refused_message(status)),
{
    let mut message = "The status service refused the request with status ".to_owned();
    message.append(format_number(status as u64).as_str());
    Error::from_string(message)
}

impl Build {
    /// Read the build matrix for the current build from one reply of the
    /// status service.
    ///
    /// Every call stands for one request: nothing of an earlier reply is
    /// kept.
    pub fn build_matrix(&self, reply: Reply) -> (fetched: Result<Matrix, Error>)
        ensures
            match fetched {
                Ok(matrix) => reply@.matrix() == Ok::<MatrixView, ErrorView>(matrix@),
                Err(error) => reply@.matrix() == Err::<MatrixView, ErrorView>(error@),
            },
    {
        match reply {
            Reply::Failed(cause) => Err(Error::from_string(cause)),
            Reply::Answered { status, body } => {
                if status == STATUS_NOT_FOUND {
                    Err(Error::BuildNotFound)
                } else {
                    match body {
                        Err(cause) => Err(Error::from_string(cause)),
                        Ok(payload) => {
                            if status < 200 || status > 299 {
                                Err(refused(status))
                            } else {
                                Matrix::new(payload.id, payload.matrix)
                            }
                        },
                    }
                }
            },
        }
    }
}

} // verus!
