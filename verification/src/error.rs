//! Why an authentication request was refused.
use vstd::prelude::*;

verus! {

/// The reasons for which the library refuses a request.
#[derive(Clone, Copy, Debug, PartialEq, Eq, Structural)]
pub enum AuthError {
    /// Login or registration on a session that already has an identity.
    AlreadyAuthenticated,
    /// A request that needs an identity, on a session without one.
    NotAuthenticated,
    /// Wrong user name, password or one-time password at login. The three
    /// are not told apart.
    InvalidCredentials,
    /// Registration under a user name that is taken.
    UserExists,
    /// A wrong one-time password when confirming enrolment.
    InvalidTotpCode,
    /// The store, or the encoder of the enrolment payload, could not
    /// complete the operation.
    StorageFailure,
}

impl AuthError {
    /// The text shown to the caller for each refusal.
    pub open spec fn spec_message(self) -> Seq<char> {
        match self {
            AuthError::AlreadyAuthenticated => "Already logged in"@,
            AuthError::NotAuthenticated => "Not logged in"@,
            AuthError::InvalidCredentials => "Bad login"@,
            AuthError::UserExists => "User already exists"@,
            AuthError::InvalidTotpCode => "Invalid TOTP"@,
            AuthError::StorageFailure => "Storage failure"@,
        }
    }

    /// The text shown to the caller. A failed login gets one text,
    /// whatever failed.
    pub fn message(&self) -> (text: &'static str)
        ensures
            text@ == self.spec_message(),
    {
        match self {
            AuthError::AlreadyAuthenticated => "Already logged in",
            AuthError::NotAuthenticated => "Not logged in",
            AuthError::InvalidCredentials => "Bad login",
            AuthError::UserExists => "User already exists",
            AuthError::InvalidTotpCode => "Invalid TOTP",
            AuthError::StorageFailure => "Storage failure",
        }
    }
}

} // verus!
