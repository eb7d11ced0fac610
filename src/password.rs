use vstd::prelude::*;
use crate::error::AuthError;

verus! {

/// The lowest work factor that bcrypt accepts.
pub const MIN_COST: u32 = 4;

/// The highest work factor that bcrypt accepts.
pub const MAX_COST: u32 = 31;

/// The work factor used unless a store is built with another.
pub const DEFAULT_COST: u32 = 12;

/// What bcrypt's `verify` answers for a password and a stored hash string:
/// `Some(matches)`, or `None` when the hash string cannot be read.
pub uninterp spec fn bcrypt_verdict(password: Seq<char>, hash: Seq<char>) -> Option<bool>;

/// The shape of what bcrypt's `hash` writes: `$2b$`, two cost digits, `$`,
/// then 53 characters of salt and digest; 60 characters in all.
pub open spec fn bcrypt_shaped(h: Seq<char>) -> bool {
    &&& h.len() == 60
    &&& h[0] == '$'
    &&& h[1] == '2'
    &&& h[2] == 'b'
    &&& h[3] == '$'
}

/// The hash string records the work factor `cost` as two decimal digits after `$2b$`.
pub open spec fn carries_cost(h: Seq<char>, cost: u32) -> bool {
    &&& h.len() > 6
    &&& h[4] as u32 == 48 + cost / 10
    &&& h[5] as u32 == 48 + cost % 10
    &&& h[6] == '$'
}

/// `h` is a hash string that bcrypt accepts for `password`.
pub open spec fn is_hash_of(password: Seq<char>, h: Seq<char>) -> bool {
    bcrypt_verdict(password, h) == Some(true) && bcrypt_shaped(h)
}

/// What checking `password` against the stored `hash` answers.
pub open spec fn verify_outcome(password: Seq<char>, hash: Seq<char>) -> Result<bool, AuthError> {
    match bcrypt_verdict(password, hash) {
        Some(b) => Ok(b),
        None => Err(AuthError::VerificationError),
    }
}

/// Relies on bcrypt::hash: with a cost in range it fails only when the system
/// gives no random salt; its result has the `$2b$` shape with the cost written
/// as two digits (`{:02}`), and bcrypt::verify
/// recomputes the digest from that string's cost and salt, so it accepts the
/// same password.
#[verifier::external_body]
fn bcrypt_hash(password: &str, cost: u32) -> (r: Option<String>)
    requires
        MIN_COST <= cost <= MAX_COST,
    ensures
        r matches Some(h) ==> is_hash_of(password@, h@) && carries_cost(h@, cost),
{
    bcrypt::hash(password, cost).ok()
}

/// Relies on bcrypt::verify: its answer depends on the password and the hash
/// string alone; it fails when the hash string cannot be parsed.
#[verifier::external_body]
fn bcrypt_verify(password: &str, hash: &str) -> (r: Option<bool>)
    ensures
        r == bcrypt_verdict(password@, hash@),
{
    bcrypt::verify(password, hash).ok()
}

/// Hashes a password with a fresh random salt at the given work factor.
/// A cost outside `MIN_COST..=MAX_COST` is refused.
pub fn hash_password_with_cost(password: &str, cost: u32) -> (r: Result<String, AuthError>)
    ensures
        !(MIN_COST <= cost <= MAX_COST) ==> r == Err::<String, AuthError>(AuthError::HashingError),
        r matches Ok(h) ==> is_hash_of(password@, h@) && carries_cost(h@, cost),
        r matches Err(e) ==> e == AuthError::HashingError,
{
    if cost < MIN_COST || cost > MAX_COST {
        return Err(AuthError::HashingError);
    }
    match bcrypt_hash(password, cost) {
        Some(h) => Ok(h),
        None => Err(AuthError::HashingError),
    }
}

/// Hashes a password with a fresh random salt at the default work factor.
pub fn hash_password(password: &str) -> (r: Result<String, AuthError>)
    ensures
        r matches Ok(h) ==> is_hash_of(password@, h@) && carries_cost(h@, DEFAULT_COST),
        r matches Err(e) ==> e == AuthError::HashingError,
{
    hash_password_with_cost(password, DEFAULT_COST)
}

/// Checks a password against a stored hash: `Ok(false)` on a mismatch, an
/// error only when the hash cannot be read.
pub fn verify_password(password: &str, hash: &str) -> (r: Result<bool, AuthError>)
    ensures
        r == verify_outcome(password@, hash@),
{
    match bcrypt_verify(password, hash) {
        Some(b) => Ok(b),
        None => Err(AuthError::VerificationError),
    }
}

} // verus!
