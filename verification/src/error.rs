//! The error type of the library.
use vstd::prelude::*;

use crate::text::Text;

verus! {

/// Why an application request failed.
#[derive(Debug, PartialEq, Eq)]
pub enum AppError {
    /// Something is set up in a way that the request cannot work with.
    Config(Text),
    /// The thing asked for does not exist in the current scope.
    NotFound(Text),
    /// A rule forbids the request.
    Blocked { reason: Text },
    /// The safety layer stopped a statement.
    Safety(Text),
    /// A write may or may not have reached the target.
    OutcomeUnknown(Text),
    /// The control plane could not be reached or answered out of contract.
    Network(Text),
    /// The host's database, serializer or file system failed.
    Host(Text),
}

impl AppError {
    /// An equal error.
    pub fn duplicate(&self) -> (r: AppError)
        ensures
            r == *self,
    {
        match self {
            AppError::Config(text) => AppError::Config(text.duplicate()),
            AppError::NotFound(text) => AppError::NotFound(text.duplicate()),
            AppError::Blocked { reason } => AppError::Blocked { reason: reason.duplicate() },
            AppError::Safety(text) => AppError::Safety(text.duplicate()),
            AppError::OutcomeUnknown(text) => AppError::OutcomeUnknown(text.duplicate()),
            AppError::Network(text) => AppError::Network(text.duplicate()),
            AppError::Host(text) => AppError::Host(text.duplicate()),
        }
    }

    /// The message that the error carries.
    pub open spec fn text(self) -> Text {
        match self {
            AppError::Config(text) => text,
            AppError::NotFound(text) => text,
            AppError::Blocked { reason } => reason,
            AppError::Safety(text) => text,
            AppError::OutcomeUnknown(text) => text,
            AppError::Network(text) => text,
            AppError::Host(text) => text,
        }
    }

    /// The message that the error carries, rendered.
    pub fn message(&self) -> (r: String)
        ensures
            r@ == self.text()@,
    {
        match self {
            AppError::Config(text) => text.render(),
            AppError::NotFound(text) => text.render(),
            AppError::Blocked { reason } => reason.render(),
            AppError::Safety(text) => text.render(),
            AppError::OutcomeUnknown(text) => text.render(),
            AppError::Network(text) => text.render(),
            AppError::Host(text) => text.render(),
        }
    }
}

/// The result of an application request.
pub type AppResult<T> = Result<T, AppError>;

} // verus!
