//! Error types.

use crate::json::{Json, JsonView};
use vstd::prelude::*;

verus! {

/// Why a check-in field was refused.
#[derive(Debug, Clone, Copy, PartialEq, Eq, Hash, Structural)]
pub enum CheckinError {
    /// The text has more characters than the field allows.
    TooLong,
    /// A tag has whitespace between its first and last character.
    HasWhitespaces,
}

impl CheckinError {
    /// The message for this error, as a sequence of characters.
    pub open spec fn message_text(self) -> Seq<char> {
        match self {
            CheckinError::TooLong => "The parameter was too long"@,
            CheckinError::HasWhitespaces => "The parameter had whitespaces"@,
        }
    }

    /// A human-readable description of the error.
    pub fn message(&self) -> (text: &'static str)
        ensures
            text@ == self.message_text(),
    {
        match self {
            CheckinError::TooLong => "The parameter was too long",
            CheckinError::HasWhitespaces => "The parameter had whitespaces",
        }
    }
}

/// Why a response could not be read as the outcome of a check-in.
#[derive(Debug, PartialEq, Eq, Hash)]
pub enum ResponseError {
    /// The body has no `status` member that is a non-negative integer.
    MissingStatus,
    /// The status is 200, but the `checkin` member is not a record of a
    /// check-in.
    InvalidCheckin,
    /// The status is 404 or 422 and `error.violations` is an array, but
    /// not one of strings.
    InvalidViolations,
    /// The status is none of 200, 404 and 422.
    UnexpectedStatus {
        /// The status that the body gives.
        status: u64,
        /// The whole body, as it came.
        body: Json,
    },
}

/// The mathematical value of a [`ResponseError`].
pub ghost enum ResponseErrorView {
    MissingStatus,
    InvalidCheckin,
    InvalidViolations,
    UnexpectedStatus { status: u64, body: JsonView },
}

impl View for ResponseError {
    type V = ResponseErrorView;

    open spec fn view(&self) -> ResponseErrorView {
        match self {
            ResponseError::MissingStatus => ResponseErrorView::MissingStatus,
            ResponseError::InvalidCheckin => ResponseErrorView::InvalidCheckin,
            ResponseError::InvalidViolations => ResponseErrorView::InvalidViolations,
            ResponseError::UnexpectedStatus { status, body } => ResponseErrorView::UnexpectedStatus {
                status: *status,
                body: body@,
            },
        }
    }
}

} // verus!
