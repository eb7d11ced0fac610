use vstd::prelude::*;

verus! {

/// The input field that failed validation.
#[derive(Debug, Clone, Copy, PartialEq, Eq, Structural)]
pub enum InputField {
    Name,
    Email,
    Password,
}

/// Every failure that the credential and token lifecycle can report.
#[derive(Debug, Clone, Copy, PartialEq, Eq, Structural)]
pub enum AuthError {
    /// Malformed input, rejected before any storage access.
    ValidationFailed(InputField),
    /// A live user already holds this email.
    EmailTaken,
    /// Unknown email or wrong password; deliberately not told apart.
    InvalidCredentials,
    TokenNotFound,
    TokenExpired,
    TokenAlreadyUsed,
    PasswordMismatch,
    NotAuthenticated,
    AlreadyAuthenticated,
    UserNotFound,
    /// The store cannot take the write (its identifier space is spent).
    StorageUnavailable,
    /// The notification transport failed.
    DispatchFailed,
    /// The password could not be hashed.
    HashingError,
    /// A stored hash could not be read.
    VerificationError,
    /// An invariant of the store was found broken.
    InternalError,
}

impl AuthError {
    /// The HTTP status that the API layer answers with.
    pub open spec fn spec_status(self) -> u16 {
        match self {
            AuthError::ValidationFailed(_) => 400,
            AuthError::EmailTaken => 409,
            AuthError::InvalidCredentials => 401,
            AuthError::TokenNotFound => 400,
            AuthError::TokenExpired => 400,
            AuthError::TokenAlreadyUsed => 400,
            AuthError::PasswordMismatch => 400,
            AuthError::NotAuthenticated => 401,
            AuthError::AlreadyAuthenticated => 409,
            AuthError::UserNotFound => 404,
            AuthError::StorageUnavailable => 503,
            AuthError::DispatchFailed => 502,
            AuthError::HashingError => 500,
            AuthError::VerificationError => 500,
            AuthError::InternalError => 500,
        }
    }

    pub fn status(&self) -> (r: u16)
        ensures
            r == self.spec_status(),
    {
        match self {
            AuthError::ValidationFailed(_) => 400,
            AuthError::EmailTaken => 409,
            AuthError::InvalidCredentials => 401,
            AuthError::TokenNotFound => 400,
            AuthError::TokenExpired => 400,
            AuthError::TokenAlreadyUsed => 400,
            AuthError::PasswordMismatch => 400,
            AuthError::NotAuthenticated => 401,
            AuthError::AlreadyAuthenticated => 409,
            AuthError::UserNotFound => 404,
            AuthError::StorageUnavailable => 503,
            AuthError::DispatchFailed => 502,
            AuthError::HashingError => 500,
            AuthError::VerificationError => 500,
            AuthError::InternalError => 500,
        }
    }

    /// The text shown to the caller; it never tells an unknown email from a wrong password.
    pub open spec fn spec_message(self) -> Seq<char> {
        match self {
            AuthError::ValidationFailed(InputField::Name) => "Validation error: name must hold 3 to 100 characters"@,
            AuthError::ValidationFailed(InputField::Email) => "Validation error: email is not a valid address"@,
            AuthError::ValidationFailed(InputField::Password) => "Validation error: password must hold 8 to 100 characters"@,
            AuthError::EmailTaken => "User with this email already exists"@,
            AuthError::InvalidCredentials => "Invalid credentials"@,
            AuthError::TokenNotFound => "Token not found"@,
            AuthError::TokenExpired => "Token has expired"@,
            AuthError::TokenAlreadyUsed => "Token has already been used"@,
            AuthError::PasswordMismatch => "Passwords do not match"@,
            AuthError::NotAuthenticated => "Not authenticated"@,
            AuthError::AlreadyAuthenticated => "Already authenticated"@,
            AuthError::UserNotFound => "User not found"@,
            AuthError::StorageUnavailable => "Storage unavailable"@,
            AuthError::DispatchFailed => "Failed to send the notification"@,
            AuthError::HashingError => "Password hashing error"@,
            AuthError::VerificationError => "Password verification error"@,
            AuthError::InternalError => "Internal error"@,
        }
    }

    pub fn message(&self) -> (r: String)
        ensures
            r@ == self.spec_message(),
    {
        let text: &str = match self {
            AuthError::ValidationFailed(InputField::Name) => "Validation error: name must hold 3 to 100 characters",
            AuthError::ValidationFailed(InputField::Email) => "Validation error: email is not a valid address",
            AuthError::ValidationFailed(InputField::Password) => "Validation error: password must hold 8 to 100 characters",
            AuthError::EmailTaken => "User with this email already exists",
            AuthError::InvalidCredentials => "Invalid credentials",
            AuthError::TokenNotFound => "Token not found",
            AuthError::TokenExpired => "Token has expired",
            AuthError::TokenAlreadyUsed => "Token has already been used",
            AuthError::PasswordMismatch => "Passwords do not match",
            AuthError::NotAuthenticated => "Not authenticated",
            AuthError::AlreadyAuthenticated => "Already authenticated",
            AuthError::UserNotFound => "User not found",
            AuthError::StorageUnavailable => "Storage unavailable",
            AuthError::DispatchFailed => "Failed to send the notification",
            AuthError::HashingError => "Password hashing error",
            AuthError::VerificationError => "Password verification error",
            AuthError::InternalError => "Internal error",
        };
        text.to_string()
    }
}

} // verus!
