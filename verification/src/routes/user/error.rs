use vstd::prelude::*;

verus! {

/// User specific errors.
#[derive(Debug, Clone, Copy, PartialEq, Eq, Structural)]
pub enum UserError {
    /// Something failed inside the service.
    InternalServerError,
    /// User not found.
    UserNotFound,
    /// User already exists.
    UserAlreadyExists,
    /// Invalid credentials.
    InvalidCredentials,
    /// Invalid token.
    InvalidToken,
    /// Token expired.
    TokenExpired,
}

impl UserError {
    /// The text shown for this error.
    pub open spec fn message_spec(self) -> Seq<char> {
        match self {
            UserError::InternalServerError => "User InternalServerError"@,
            UserError::UserNotFound => "User not found"@,
            UserError::UserAlreadyExists => "User already exists"@,
            UserError::InvalidCredentials => "Invalid credentials"@,
            UserError::InvalidToken => "Invalid token"@,
            UserError::TokenExpired => "Token expired"@,
        }
    }

    /// Renders the error.
    pub fn message(&self) -> (text: &'static str)
        ensures
            text@ == self.message_spec(),
    {
        match self {
            UserError::InternalServerError => "User InternalServerError",
            UserError::UserNotFound => "User not found",
            UserError::UserAlreadyExists => "User already exists",
            UserError::InvalidCredentials => "Invalid credentials",
            UserError::InvalidToken => "Invalid token",
            UserError::TokenExpired => "Token expired",
        }
    }
}

} // verus!
