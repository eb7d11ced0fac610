use vstd::prelude::*;
use crate::error::AuthError;
use crate::models::Token;

verus! {

/// The moment a token issued at `now` with a lifetime of `ttl` seconds expires;
/// the end of representable time when the sum does not fit.
pub open spec fn expiry(now: i64, ttl: u32) -> i64 {
    if now + ttl > i64::MAX {
        i64::MAX
    } else {
        (now + ttl) as i64
    }
}

pub open spec fn has_token(s: Seq<Token>, raw: Seq<char>) -> bool {
    exists|i: int| 0 <= i < s.len() && (#[trigger] s[i]).token@ == raw
}

/// The position of the record that holds `raw`; meaningful when `has_token`.
pub open spec fn token_index(s: Seq<Token>, raw: Seq<char>) -> int {
    choose|i: int| 0 <= i < s.len() && (#[trigger] s[i]).token@ == raw
}

/// No two records hold the same token string.
pub open spec fn tokens_unique(s: Seq<Token>) -> bool {
    forall|i: int, j: int|
        0 <= i < s.len() && 0 <= j < s.len() && i != j ==> (#[trigger] s[i]).token@ != (
        #[trigger] s[j]).token@
}

/// A token's record once it was consumed at `now`.
pub open spec fn mark_used(t: Token, now: i64) -> Token {
    Token {
        id: t.id,
        user_id: t.user_id,
        token: t.token,
        created_at: t.created_at,
        expires_at: t.expires_at,
        used_at: Some(now),
    }
}

/// What consuming `raw` at `now` answers, and the records afterwards.
/// A token is consumable while unused and `now < expires_at`; a used token
/// reports `TokenAlreadyUsed` whatever the time.
pub open spec fn consume_outcome(s: Seq<Token>, raw: Seq<char>, now: i64) -> (Result<
    u128,
    AuthError,
>, Seq<Token>) {
    if !has_token(s, raw) {
        (Err(AuthError::TokenNotFound), s)
    } else {
        let i = token_index(s, raw);
        let t = s[i];
        if t.used_at is Some {
            (Err(AuthError::TokenAlreadyUsed), s)
        } else if t.expires_at <= now {
            (Err(AuthError::TokenExpired), s)
        } else {
            (Ok(t.user_id), s.update(i, mark_used(t, now)))
        }
    }
}

/// The record that issuing `raw` at `now` adds.
pub open spec fn issued(id: u128, user_id: u128, raw: Seq<char>, t: Token, now: i64, ttl: u32) -> bool {
    &&& t.id == id
    &&& t.user_id == user_id
    &&& t.token@ == raw
    &&& t.created_at == now
    &&& t.expires_at == expiry(now, ttl)
    &&& t.used_at is None
}

/// The token records of one kind, keyed by their token string.
pub struct TokenLedger {
    pub tokens: Vec<Token>,
}

impl TokenLedger {
    pub open spec fn wf(&self) -> bool {
        tokens_unique(self.tokens@)
    }

    pub fn new() -> (r: TokenLedger)
        ensures
            r.wf(),
            r.tokens@.len() == 0,
    {
        TokenLedger { tokens: Vec::new() }
    }

    /// The position of the record holding `raw`, if any.
    pub fn find(&self, raw: &String) -> (r: Option<usize>)
        requires
            self.wf(),
        ensures
            r is None <==> !has_token(self.tokens@, raw@),
            r matches Some(i) ==> i == token_index(self.tokens@, raw@) && i < self.tokens@.len(),
    {
        let mut i: usize = 0;
        while i < self.tokens.len()
            invariant
                self.wf(),
                i <= self.tokens@.len(),
                forall|k: int| 0 <= k < i ==> (#[trigger] self.tokens@[k]).token@ != raw@,
            decreases self.tokens@.len() - i,
        {
            if self.tokens[i].token == *raw {
                proof {
                    assert(self.tokens@[i as int].token@ == raw@);
                    assert(has_token(self.tokens@, raw@));
                    let j = token_index(self.tokens@, raw@);
                    assert(0 <= j < self.tokens@.len() && self.tokens@[j].token@ == raw@);
                    if j != i {
                        assert(self.tokens@[j].token@ != self.tokens@[i as int].token@);
                    }
                }
                return Some(i);
            }
            i += 1;
        }
        None
    }

    /// Adds a fresh record for `raw`; refuses, changing nothing, when the
    /// string is already on record.
    pub fn issue(&mut self, id: u128, user_id: u128, raw: String, now: i64, ttl: u32) -> (r: bool)
        requires
            old(self).wf(),
        ensures
            final(self).wf(),
            r == !has_token(old(self).tokens@, raw@),
            r ==> final(self).tokens@.len() == old(self).tokens@.len() + 1
                && final(self).tokens@.drop_last() == old(self).tokens@
                && issued(id, user_id, raw@, final(self).tokens@.last(), now, ttl),
            !r ==> *final(self) == *old(self),
    {
        if self.find(&raw).is_some() {
            return false;
        }
        let expires_at: i64 = if now > i64::MAX - ttl as i64 {
            i64::MAX
        } else {
            now + ttl as i64
        };
        let t = Token { id, user_id, token: raw, created_at: now, expires_at, used_at: None };
        self.tokens.push(t);
        proof {
            assert(self.tokens@.drop_last() =~= old(self).tokens@);
        }
        true
    }

    /// What consuming `raw` at `now` would answer; changes nothing.
    pub fn check(&self, raw: &String, now: i64) -> (r: Result<u128, AuthError>)
        requires
            self.wf(),
        ensures
            r == consume_outcome(self.tokens@, raw@, now).0,
    {
        match self.find(raw) {
            None => Err(AuthError::TokenNotFound),
            Some(i) => {
                let t = &self.tokens[i];
                if t.used_at.is_some() {
                    Err(AuthError::TokenAlreadyUsed)
                } else if t.expires_at <= now {
                    Err(AuthError::TokenExpired)
                } else {
                    Ok(t.user_id)
                }
            },
        }
    }

    /// Consumes `raw` at `now`: in one step, the token is found consumable and
    /// marked used, or nothing changes and the cause is reported.
    pub fn consume(&mut self, raw: &String, now: i64) -> (r: Result<u128, AuthError>)
        requires
            old(self).wf(),
        ensures
            final(self).wf(),
            (r, final(self).tokens@) == consume_outcome(old(self).tokens@, raw@, now),
    {
        match self.find(raw) {
            None => Err(AuthError::TokenNotFound),
            Some(i) => {
                let t = &self.tokens[i];
                if t.used_at.is_some() {
                    return Err(AuthError::TokenAlreadyUsed);
                }
                if t.expires_at <= now {
                    return Err(AuthError::TokenExpired);
                }
                let owner = t.user_id;
                let used = Token {
                    id: t.id,
                    user_id: t.user_id,
                    token: t.token.clone(),
                    created_at: t.created_at,
                    expires_at: t.expires_at,
                    used_at: Some(now),
                };
                self.tokens.set(i, used);
                proof {
                    assert(self.tokens@ =~= old(self).tokens@.update(
                        i as int,
                        mark_used(old(self).tokens@[i as int], now),
                    ));
                    assert forall|a: int, b: int|
                        0 <= a < self.tokens@.len() && 0 <= b < self.tokens@.len() && a != b
                        implies (#[trigger] self.tokens@[a]).token@ != (
                        #[trigger] self.tokens@[b]).token@ by {
                        assert(old(self).tokens@[a].token@ != old(self).tokens@[b].token@);
                    }
                }
                Ok(owner)
            },
        }
    }
}

} // verus!
