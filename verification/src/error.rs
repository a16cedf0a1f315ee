//! The error taxonomy of the authentication core.

use vstd::prelude::*;

verus! {

/// The failure type of the `jsonwebtoken` crate.
#[verifier::external_type_specification]
#[verifier::external_body]
pub struct ExJwtError(jsonwebtoken::errors::Error);

/// An internal failure: a fault of configuration or of a collaborator, never
/// of the client's input.
#[derive(Debug)]
pub enum InternalError {
    /// The credential store failed or refused a write.
    Storage,
    /// The hashing library refused its inputs.
    Argon2(argon2::Error),
    /// The signing library failed.
    Jwt(jsonwebtoken::errors::Error),
    /// The revocation counter of a credential cannot grow any further.
    VersionExhausted,
}

/// The outcome kinds that the login, signup and rotation entry points report.
#[derive(Debug)]
pub enum AuthError {
    /// Empty username or password.
    Validation,
    /// No credential is stored for the username.
    NotFound,
    /// The username is already taken.
    Conflict,
    /// The password does not match.
    Authentication,
    /// Something failed on the server's side.
    Internal(InternalError),
}

/// What went wrong on the server's side.
pub enum Cause {
    Storage,
    Hashing,
    Signing,
    VersionExhausted,
}

/// The kind of an outcome, without what the libraries said of it.
pub enum Failure {
    Validation,
    NotFound,
    Conflict,
    Authentication,
    Internal(Cause),
}

impl View for InternalError {
    type V = Cause;

    open spec fn view(&self) -> Cause {
        match self {
            InternalError::Storage => Cause::Storage,
            InternalError::Argon2(_) => Cause::Hashing,
            InternalError::Jwt(_) => Cause::Signing,
            InternalError::VersionExhausted => Cause::VersionExhausted,
        }
    }
}

impl View for AuthError {
    type V = Failure;

    open spec fn view(&self) -> Failure {
        match self {
            AuthError::Validation => Failure::Validation,
            AuthError::NotFound => Failure::NotFound,
            AuthError::Conflict => Failure::Conflict,
            AuthError::Authentication => Failure::Authentication,
            AuthError::Internal(e) => Failure::Internal(e@),
        }
    }
}

impl AuthError {
    /// The HTTP status that stands for this outcome.
    pub open spec fn spec_status(&self) -> u16 {
        match self {
            AuthError::Validation => 400,
            AuthError::NotFound => 404,
            AuthError::Conflict => 400,
            AuthError::Authentication => 401,
            AuthError::Internal(_) => 500,
        }
    }

    /// The HTTP status that stands for this outcome.
    #[verifier::when_used_as_spec(spec_status)]
    pub fn status(&self) -> (code: u16)
        ensures
            code == self.spec_status(),
    {
        match self {
            AuthError::Validation => 400,
            AuthError::NotFound => 404,
            AuthError::Conflict => 400,
            AuthError::Authentication => 401,
            AuthError::Internal(_) => 500,
        }
    }

    /// The message that the client is shown. It is the same for every
    /// failure of one kind, and says nothing of an internal failure.
    pub open spec fn spec_message(&self) -> &'static str {
        match self {
            AuthError::Validation => "username/password cannot be empty",
            AuthError::NotFound => "user not found",
            AuthError::Conflict => "username already in use",
            AuthError::Authentication => "invalid credentials",
            AuthError::Internal(_) => "internal error",
        }
    }

    /// The message that the client is shown.
    #[verifier::when_used_as_spec(spec_message)]
    pub fn message(&self) -> (text: &'static str)
        ensures
            text == self.spec_message(),
    {
        match self {
            AuthError::Validation => "username/password cannot be empty",
            AuthError::NotFound => "user not found",
            AuthError::Conflict => "username already in use",
            AuthError::Authentication => "invalid credentials",
            AuthError::Internal(_) => "internal error",
        }
    }

    /// Whether the client may be told what went wrong. Internal failures are
    /// reported without detail.
    pub open spec fn spec_is_client_error(&self) -> bool {
        !(self is Internal)
    }

    /// Whether the client may be told what went wrong.
    #[verifier::when_used_as_spec(spec_is_client_error)]
    pub fn is_client_error(&self) -> (b: bool)
        ensures
            b == self.spec_is_client_error(),
    {
        match self {
            AuthError::Internal(_) => false,
            _ => true,
        }
    }
}

} // verus!
