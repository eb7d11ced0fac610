use vstd::prelude::*;

verus! {

/// A user profile. Times are seconds since the Unix epoch.
#[derive(Debug)]
pub struct User {
    pub id: u128,
    pub name: String,
    pub email: String,
    pub role: String,
    pub verified: bool,
    pub created_at: i64,
    pub updated_at: i64,
    /// Set when the user is soft-deleted; such a user is invisible to every lookup.
    pub deleted_at: Option<i64>,
}

/// The login method that an account stands for.
#[derive(Debug)]
pub enum AccountType {
    /// Email and password; the account holds a password hash.
    Credentials,
    /// A federated provider, by name; reserved, no flow here creates one.
    Provider(String),
}

/// One authentication method of a user.
#[derive(Debug)]
pub struct Account {
    pub id: u128,
    pub user_id: u128,
    pub account_type: AccountType,
    /// A one-way hash, present on credentials accounts; never the plaintext.
    pub password: Option<String>,
    pub provider_account_id: Option<String>,
    pub created_at: i64,
    pub updated_at: i64,
    pub deleted_at: Option<i64>,
}

/// A single-use token: issued, then consumed once or left to expire.
#[derive(Debug)]
pub struct Token {
    pub id: u128,
    pub user_id: u128,
    /// The opaque random string handed to the user.
    pub token: String,
    pub created_at: i64,
    pub expires_at: i64,
    /// `None` while the token is unconsumed.
    pub used_at: Option<i64>,
}

/// A token that proves control of an email address.
pub type VerificationToken = Token;

/// A token that allows one password reset.
pub type ResetPasswordToken = Token;

pub open spec fn user_live(u: User) -> bool {
    u.deleted_at is None
}

pub open spec fn live_credentials(a: Account) -> bool {
    a.account_type is Credentials && a.deleted_at is None
}

impl User {
    pub fn is_live(&self) -> (r: bool)
        ensures
            r == user_live(*self),
    {
        self.deleted_at.is_none()
    }
}

impl Account {
    pub fn is_live_credentials(&self) -> (r: bool)
        ensures
            r == live_credentials(*self),
    {
        match self.account_type {
            AccountType::Credentials => self.deleted_at.is_none(),
            AccountType::Provider(_) => false,
        }
    }
}

} // verus!
