//! Error taxonomy of the lifecycle engine.

use vstd::prelude::*;

verus! {

/// Why a creation or cancellation request was refused.
#[derive(Clone, Copy, Debug, PartialEq, Eq, Structural)]
pub enum MuteError {
    /// The requested duration is not positive, or the deadline it implies
    /// does not fit the timestamp range.  Rejected before any side effect.
    InvalidDuration,
    /// The requested target could not be resolved to an account.
    InvalidTarget,
    /// The provider refused the owner's credentials.
    ProviderAuthError,
    /// The provider's mute or unmute call itself failed.
    ProviderActionError,
    /// No pending entry matches the request.  A missing entry and another
    /// owner's entry are deliberately indistinguishable.
    NotFoundOrUnauthorized,
}

impl MuteError {
    /// The errors that reject a request before any side effect.
    pub open spec fn spec_is_validation(self) -> bool {
        self == MuteError::InvalidDuration || self == MuteError::InvalidTarget
    }

    /// Whether this error rejects a request before any side effect.
    pub fn is_validation(&self) -> (r: bool)
        ensures
            r == self.spec_is_validation(),
    {
        match self {
            MuteError::InvalidDuration => true,
            MuteError::InvalidTarget => true,
            _ => false,
        }
    }
}

/// Errors surfaced to a caller of the service.
#[derive(Clone, Copy, Debug, PartialEq, Eq, Structural)]
pub enum UserError {
    ValidationError,
    InternalError,
}

impl UserError {
    /// The HTTP status code under which this error is reported.
    pub fn status_code(&self) -> (code: u16)
        ensures
            *self == UserError::ValidationError ==> code == 400,
            *self == UserError::InternalError ==> code == 500,
    {
        match self {
            UserError::ValidationError => 400,
            UserError::InternalError => 500,
        }
    }
}

} // verus!
