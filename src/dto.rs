use vstd::prelude::*;
use crate::error::{AuthError, InputField};

verus! {

/// Whether `s` is an email address by the HTML5 rules that validator applies.
pub uninterp spec fn email_valid(s: Seq<char>) -> bool;

/// Relies on validator::validate_email: its answer depends on the text alone.
#[verifier::external_body]
fn check_email(s: &str) -> (r: bool)
    ensures
        r == email_valid(s@),
{
    validator::validate_email(s)
}

/// A name holds 3 to 100 characters.
pub open spec fn name_ok(s: Seq<char>) -> bool {
    3 <= s.len() <= 100
}

/// A password holds 8 to 100 characters.
pub open spec fn password_ok(s: Seq<char>) -> bool {
    8 <= s.len() <= 100
}

fn check_length(s: &str, min: usize, max: usize) -> (r: bool)
    ensures
        r == (min <= s@.len() <= max),
{
    let n = s.unicode_len();
    min <= n && n <= max
}

/// The fields of a registration.
pub struct RegisterQuery {
    pub name: String,
    pub email: String,
    pub password: String,
}

/// The fields of a login.
pub struct LoginQuery {
    pub email: String,
    pub password: String,
}

/// The token of an email verification.
pub struct VerifyQuery {
    pub token: String,
}

/// The fields of a password reset.
pub struct ResetPasswordQuery {
    pub token: String,
    pub password: String,
    pub password_confirm: String,
}

impl RegisterQuery {
    /// The first field that breaks its rule: name, then email, then password.
    pub open spec fn spec_validate(&self) -> Result<(), AuthError> {
        if !name_ok(self.name@) {
            Err(AuthError::ValidationFailed(InputField::Name))
        } else if !email_valid(self.email@) {
            Err(AuthError::ValidationFailed(InputField::Email))
        } else if !password_ok(self.password@) {
            Err(AuthError::ValidationFailed(InputField::Password))
        } else {
            Ok(())
        }
    }

    pub fn validate(&self) -> (r: Result<(), AuthError>)
        ensures
            r == self.spec_validate(),
    {
        if !check_length(self.name.as_str(), 3, 100) {
            Err(AuthError::ValidationFailed(InputField::Name))
        } else if !check_email(self.email.as_str()) {
            Err(AuthError::ValidationFailed(InputField::Email))
        } else if !check_length(self.password.as_str(), 8, 100) {
            Err(AuthError::ValidationFailed(InputField::Password))
        } else {
            Ok(())
        }
    }
}

impl LoginQuery {
    /// The first field that breaks its rule: email, then password.
    pub open spec fn spec_validate(&self) -> Result<(), AuthError> {
        if !email_valid(self.email@) {
            Err(AuthError::ValidationFailed(InputField::Email))
        } else if !password_ok(self.password@) {
            Err(AuthError::ValidationFailed(InputField::Password))
        } else {
            Ok(())
        }
    }

    pub fn validate(&self) -> (r: Result<(), AuthError>)
        ensures
            r == self.spec_validate(),
    {
        if !check_email(self.email.as_str()) {
            Err(AuthError::ValidationFailed(InputField::Email))
        } else if !check_length(self.password.as_str(), 8, 100) {
            Err(AuthError::ValidationFailed(InputField::Password))
        } else {
            Ok(())
        }
    }
}

impl ResetPasswordQuery {
    /// Mismatched passwords come first; then the new password's length.
    pub open spec fn spec_validate(&self) -> Result<(), AuthError> {
        if self.password@ != self.password_confirm@ {
            Err(AuthError::PasswordMismatch)
        } else if !password_ok(self.password@) {
            Err(AuthError::ValidationFailed(InputField::Password))
        } else {
            Ok(())
        }
    }

    pub fn validate(&self) -> (r: Result<(), AuthError>)
        ensures
            r == self.spec_validate(),
    {
        if self.password != self.password_confirm {
            Err(AuthError::PasswordMismatch)
        } else if !check_length(self.password.as_str(), 8, 100) {
            Err(AuthError::ValidationFailed(InputField::Password))
        } else {
            Ok(())
        }
    }
}

} // verus!
