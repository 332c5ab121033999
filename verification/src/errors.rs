use vstd::prelude::*;

verus! {

/// The error taxonomy of the bridge.
///
/// `ClientMismatch` is rejected before any store access; `NotReady` and
/// `NotVerified` mean a prerequisite state has not been reached yet and the
/// caller may retry later; `InvalidGrant` means the authorization code is
/// absent or already consumed and is never retryable with the same code;
/// `InvariantViolation` means the observed channel membership (or a stored
/// record) is corrupt and must not be guessed around; `StoreUnavailable` is
/// a durable-store failure; `SessionExpired` means the session's absolute
/// lifetime has passed.
#[derive(Clone, Copy, Debug, PartialEq, Eq, Structural)]
pub enum AuthError {
    ClientMismatch,
    NotReady,
    NotVerified,
    InvalidGrant,
    InvariantViolation,
    StoreUnavailable,
    SessionExpired,
}

impl AuthError {
    /// The HTTP-equivalent status each error surfaces as.
    pub open spec fn spec_status_code(self) -> u16 {
        match self {
            AuthError::ClientMismatch => 401,
            AuthError::NotReady => 400,
            AuthError::NotVerified => 400,
            AuthError::InvalidGrant => 400,
            AuthError::InvariantViolation => 500,
            AuthError::StoreUnavailable => 500,
            AuthError::SessionExpired => 400,
        }
    }

    pub fn status_code(&self) -> (code: u16)
        ensures
            code == self.spec_status_code(),
    {
        match self {
            AuthError::ClientMismatch => 401,
            AuthError::NotReady => 400,
            AuthError::NotVerified => 400,
            AuthError::InvalidGrant => 400,
            AuthError::InvariantViolation => 500,
            AuthError::StoreUnavailable => 500,
            AuthError::SessionExpired => 400,
        }
    }

    /// A generic caller-facing description; identifiers and secrets are
    /// never part of it.
    pub fn describe(&self) -> (text: String)
        ensures
            self is ClientMismatch ==> text@ == "incorrect client id or secret"@,
            self is NotReady ==> text@ == "you need to start the login process first, via /requestQr"@,
            self is NotVerified ==> text@ == "the session has no verified identity yet"@,
            self is InvalidGrant ==> text@ == "invalid or already consumed code"@,
            self is InvariantViolation ==> text@ == "internal invariant violated"@,
            self is StoreUnavailable ==> text@ == "store unavailable"@,
            self is SessionExpired ==> text@ == "session expired"@,
    {
        match self {
            AuthError::ClientMismatch => String::from_str("incorrect client id or secret"),
            AuthError::NotReady => String::from_str(
                "you need to start the login process first, via /requestQr",
            ),
            AuthError::NotVerified => String::from_str("the session has no verified identity yet"),
            AuthError::InvalidGrant => String::from_str("invalid or already consumed code"),
            AuthError::InvariantViolation => String::from_str("internal invariant violated"),
            AuthError::StoreUnavailable => String::from_str("store unavailable"),
            AuthError::SessionExpired => String::from_str("session expired"),
        }
    }
}

} // verus!
