use vstd::prelude::*;
use crate::error::AuthError;

verus! {

/// The identity bound to one client's session, passed explicitly to the
/// operations that read or change it.
#[derive(Debug)]
pub struct Session {
    pub identity: Option<u128>,
}

impl Session {
    /// A session that no one is logged in to.
    pub fn new() -> (r: Session)
        ensures
            r.identity is None,
    {
        Session { identity: None }
    }

    /// The bound identity, read without side effects.
    pub fn current(&self) -> (r: Option<u128>)
        ensures
            r == self.identity,
    {
        self.identity
    }

    /// Binds `user_id`; refused while an identity is bound.
    pub fn login(&mut self, user_id: u128) -> (r: Result<(), AuthError>)
        ensures
            old(self).identity is Some ==> r == Err::<(), AuthError>(AuthError::AlreadyAuthenticated)
                && final(self).identity == old(self).identity,
            old(self).identity is None ==> r is Ok && final(self).identity == Some(user_id),
    {
        if self.identity.is_some() {
            return Err(AuthError::AlreadyAuthenticated);
        }
        self.identity = Some(user_id);
        Ok(())
    }

    /// Unbinds the identity; refused when none is bound.
    pub fn logout(&mut self) -> (r: Result<(), AuthError>)
        ensures
            old(self).identity is None ==> r == Err::<(), AuthError>(AuthError::NotAuthenticated),
            old(self).identity is Some ==> r is Ok,
            final(self).identity is None,
    {
        if self.identity.is_none() {
            return Err(AuthError::NotAuthenticated);
        }
        self.identity = None;
        Ok(())
    }
}

} // verus!
