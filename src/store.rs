use vstd::prelude::*;
use crate::dto::{RegisterQuery, ResetPasswordQuery};
use crate::error::AuthError;
use crate::ledger::{consume_outcome, issued, TokenLedger};
use crate::models::{live_credentials, user_live, Account, AccountType, User};
use crate::password::{carries_cost, hash_password_with_cost, is_hash_of, DEFAULT_COST, MAX_COST, MIN_COST};

verus! {

/// How long an issued token stays consumable, in seconds.
pub const TOKEN_TTL_SECS: u32 = 600;

/// Some user, live or not, has this id.
pub open spec fn has_user(users: Seq<User>, id: u128) -> bool {
    exists|i: int| 0 <= i < users.len() && (#[trigger] users[i]).id == id
}

/// A live user has this id.
pub open spec fn has_live_user(users: Seq<User>, id: u128) -> bool {
    exists|i: int| 0 <= i < users.len() && (#[trigger] users[i]).id == id && user_live(users[i])
}

/// The position of the live user with this id; meaningful when `has_live_user`.
pub open spec fn live_user_index(users: Seq<User>, id: u128) -> int {
    choose|i: int| 0 <= i < users.len() && (#[trigger] users[i]).id == id && user_live(users[i])
}

/// A live user holds this email.
pub open spec fn email_taken(users: Seq<User>, email: Seq<char>) -> bool {
    exists|i: int| 0 <= i < users.len() && user_live(#[trigger] users[i]) && users[i].email@ == email
}

/// The position of the live user holding this email; meaningful when `email_taken`.
pub open spec fn email_index(users: Seq<User>, email: Seq<char>) -> int {
    choose|i: int| 0 <= i < users.len() && user_live(#[trigger] users[i]) && users[i].email@ == email
}

/// The user has a live credentials account.
pub open spec fn has_credentials(accounts: Seq<Account>, user_id: u128) -> bool {
    exists|k: int|
        0 <= k < accounts.len() && live_credentials(#[trigger] accounts[k]) && accounts[k].user_id
            == user_id
}

/// The position of the user's live credentials account; meaningful when `has_credentials`.
pub open spec fn credentials_index(accounts: Seq<Account>, user_id: u128) -> int {
    choose|k: int|
        0 <= k < accounts.len() && live_credentials(#[trigger] accounts[k]) && accounts[k].user_id
            == user_id
}

/// Identifiers are unique and below `next_id`; no two live users share an email.
pub open spec fn users_wf(users: Seq<User>, next_id: u128) -> bool {
    &&& forall|i: int| 0 <= i < users.len() ==> (#[trigger] users[i]).id < next_id
    &&& forall|i: int, j: int|
        0 <= i < users.len() && 0 <= j < users.len() && i != j ==> (#[trigger] users[i]).id != (
        #[trigger] users[j]).id
    &&& forall|i: int, j: int|
        0 <= i < users.len() && 0 <= j < users.len() && i != j && user_live(#[trigger] users[i])
            && user_live(#[trigger] users[j]) ==> users[i].email@ != users[j].email@
}

/// Identifiers are unique and below `next_id`; every account belongs to a
/// user; a live credentials account holds a hash; each user has at most one
/// live credentials account, and each live user has one.
pub open spec fn accounts_wf(accounts: Seq<Account>, users: Seq<User>, next_id: u128) -> bool {
    &&& forall|k: int| 0 <= k < accounts.len() ==> (#[trigger] accounts[k]).id < next_id
    &&& forall|k: int, l: int|
        0 <= k < accounts.len() && 0 <= l < accounts.len() && k != l ==> (#[trigger] accounts[k]).id
            != (#[trigger] accounts[l]).id
    &&& forall|k: int| 0 <= k < accounts.len() ==> has_user(users, (#[trigger] accounts[k]).user_id)
    &&& forall|k: int|
        0 <= k < accounts.len() && live_credentials(#[trigger] accounts[k]) ==> accounts[k].password is Some
    &&& forall|k: int, l: int|
        0 <= k < accounts.len() && 0 <= l < accounts.len() && k != l && live_credentials(
            #[trigger] accounts[k],
        ) && live_credentials(#[trigger] accounts[l]) ==> accounts[k].user_id != accounts[l].user_id
    &&& forall|i: int|
        0 <= i < users.len() && user_live(#[trigger] users[i]) ==> has_credentials(accounts, users[i].id)
}

/// `u` is the user that registering `q` at `now` creates under identifier `id`.
pub open spec fn registered_user(u: User, id: u128, q: RegisterQuery, now: i64) -> bool {
    &&& u.id == id
    &&& u.name@ == q.name@
    &&& u.email@ == q.email@
    &&& u.role@ == "user"@
    &&& !u.verified
    &&& u.created_at == now
    &&& u.updated_at == now
    &&& u.deleted_at is None
}

/// `a` is a live credentials account of `user_id` whose stored hash is one of `password`.
pub open spec fn registered_account(a: Account, id: u128, user_id: u128, password: Seq<char>, now: i64) -> bool {
    &&& a.id == id
    &&& a.user_id == user_id
    &&& a.account_type is Credentials
    &&& a.password matches Some(h) && is_hash_of(password, h@)
    &&& a.provider_account_id is None
    &&& a.created_at == now
    &&& a.updated_at == now
    &&& a.deleted_at is None
}

/// `new` is `old` with the user `u` and its credentials account added, in one step.
pub open spec fn registered(old: AuthStore, new: AuthStore, q: RegisterQuery, now: i64, u: User) -> bool {
    &&& registered_user(u, old.next_id, q, now)
    &&& new.users@ == old.users@.push(u)
    &&& new.accounts@.len() == old.accounts@.len() + 1
    &&& new.accounts@.drop_last() == old.accounts@
    &&& registered_account(new.accounts@.last(), (old.next_id + 1) as u128, u.id, q.password@, now)
    &&& new.accounts@.last().password matches Some(h) && carries_cost(h@, old.hash_cost)
    &&& new.next_id == old.next_id + 2
    &&& new.verification_tokens == old.verification_tokens
    &&& new.reset_tokens == old.reset_tokens
    &&& new.hash_cost == old.hash_cost
}

/// What registering `q` at `now` answers and leaves behind. Hashing draws a
/// random salt, so the stored hash is fixed only up to `is_hash_of`, and a
/// failure of the system's randomness shows as `HashingError`.
pub open spec fn register_post(
    old: AuthStore,
    new: AuthStore,
    q: RegisterQuery,
    now: i64,
    r: Result<User, AuthError>,
) -> bool {
    match q.spec_validate() {
        Err(e) => r == Err::<User, AuthError>(e) && new == old,
        Ok(_) => if email_taken(old.users@, q.email@) {
            r == Err::<User, AuthError>(AuthError::EmailTaken) && new == old
        } else if old.next_id >= u128::MAX - 1 {
            r == Err::<User, AuthError>(AuthError::StorageUnavailable) && new == old
        } else {
            match r {
                Ok(u) => registered(old, new, q, now, u),
                Err(e) => e == AuthError::HashingError && new == old,
            }
        },
    }
}

/// The two kinds of single-use token.
#[derive(Clone, Copy, Debug, PartialEq, Eq, Structural)]
pub enum TokenKind {
    Verification,
    ResetPassword,
}

/// A user's record once marked verified at `now`; a user already verified
/// is left as it was.
pub open spec fn verified_record(u: User, now: i64) -> User {
    if u.verified {
        u
    } else {
        User {
            id: u.id,
            name: u.name,
            email: u.email,
            role: u.role,
            verified: true,
            created_at: u.created_at,
            updated_at: now,
            deleted_at: u.deleted_at,
        }
    }
}

/// `b` is the account `a` with its password replaced by `hash` at `now`.
pub open spec fn password_replaced(a: Account, b: Account, hash: String, now: i64) -> bool {
    &&& b.id == a.id
    &&& b.user_id == a.user_id
    &&& b.account_type == a.account_type
    &&& b.password == Some(hash)
    &&& b.provider_account_id == a.provider_account_id
    &&& b.created_at == a.created_at
    &&& b.updated_at == now
    &&& b.deleted_at == a.deleted_at
}

/// The users' identifying parts are those of `old`: ids, emails, deletion marks.
pub open spec fn same_user_keys(old: Seq<User>, new: Seq<User>) -> bool {
    &&& new.len() == old.len()
    &&& forall|i: int|
        0 <= i < old.len() ==> (#[trigger] new[i]).id == old[i].id && new[i].email@ == old[i].email@
            && new[i].deleted_at == old[i].deleted_at
}

/// The accounts' identifying parts are those of `old`, and live credentials keep a hash.
pub open spec fn same_account_keys(old: Seq<Account>, new: Seq<Account>) -> bool {
    &&& new.len() == old.len()
    &&& forall|k: int|
        0 <= k < old.len() ==> (#[trigger] new[k]).id == old[k].id && new[k].user_id
            == old[k].user_id && live_credentials(new[k]) == live_credentials(old[k]) && (
        live_credentials(new[k]) ==> new[k].password is Some)
}

proof fn lemma_same_user_keys(old: Seq<User>, new: Seq<User>, accounts: Seq<Account>, next_id: u128)
    requires
        users_wf(old, next_id),
        accounts_wf(accounts, old, next_id),
        same_user_keys(old, new),
    ensures
        users_wf(new, next_id),
        accounts_wf(accounts, new, next_id),
{
    assert forall|k: int| 0 <= k < accounts.len() implies has_user(new, (#[trigger] accounts[k]).user_id) by {
        assert(has_user(old, accounts[k].user_id));
        let i = choose|i: int| 0 <= i < old.len() && (#[trigger] old[i]).id == accounts[k].user_id;
        assert(new[i].id == old[i].id);
    }
    assert forall|i: int| 0 <= i < new.len() && user_live(#[trigger] new[i]) implies has_credentials(accounts, new[i].id) by {
        assert(new[i].id == old[i].id && user_live(old[i]));
    }
    assert forall|i: int, j: int|
        0 <= i < new.len() && 0 <= j < new.len() && i != j && user_live(#[trigger] new[i])
            && user_live(#[trigger] new[j]) implies new[i].email@ != new[j].email@ by {
        assert(new[i].email@ == old[i].email@ && new[j].email@ == old[j].email@);
        assert(user_live(old[i]) && user_live(old[j]));
    }
    assert forall|i: int, j: int|
        0 <= i < new.len() && 0 <= j < new.len() && i != j implies (#[trigger] new[i]).id != (#[trigger] new[j]).id by {
        assert(new[i].id == old[i].id && new[j].id == old[j].id);
    }
}

proof fn lemma_same_account_keys(old: Seq<Account>, new: Seq<Account>, users: Seq<User>, next_id: u128)
    requires
        accounts_wf(old, users, next_id),
        same_account_keys(old, new),
    ensures
        accounts_wf(new, users, next_id),
{
    assert forall|i: int| 0 <= i < users.len() && user_live(#[trigger] users[i]) implies has_credentials(new, users[i].id) by {
        assert(has_credentials(old, users[i].id));
        let k = choose|k: int| 0 <= k < old.len() && live_credentials(#[trigger] old[k]) && old[k].user_id == users[i].id;
        assert(live_credentials(new[k]) && new[k].user_id == users[i].id);
    }
    assert forall|k: int, l: int|
        0 <= k < new.len() && 0 <= l < new.len() && k != l && live_credentials(#[trigger] new[k])
            && live_credentials(#[trigger] new[l]) implies new[k].user_id != new[l].user_id by {
        assert(live_credentials(old[k]) && live_credentials(old[l]));
    }
    assert forall|k: int, l: int|
        0 <= k < new.len() && 0 <= l < new.len() && k != l implies (#[trigger] new[k]).id != (#[trigger] new[l]).id by {
        assert(new[k].id == old[k].id && new[l].id == old[l].id);
    }
    assert forall|k: int| 0 <= k < new.len() implies has_user(users, (#[trigger] new[k]).user_id) by {
        assert(new[k].user_id == old[k].user_id);
    }
}

/// The users, their accounts and the two token ledgers, kept together so that
/// every write that spans them happens as one step.
impl AuthStore {
    pub open spec fn ledger(&self, kind: TokenKind) -> TokenLedger {
        match kind {
            TokenKind::Verification => self.verification_tokens,
            TokenKind::ResetPassword => self.reset_tokens,
        }
    }

    /// `new` is `self` with only the ledger of `kind` changed, to `l`.
    pub open spec fn with_ledger(&self, new: AuthStore, kind: TokenKind, l: TokenLedger) -> bool {
        &&& new.users == self.users
        &&& new.accounts == self.accounts
        &&& new.hash_cost == self.hash_cost
        &&& new.ledger(kind) == l
        &&& match kind {
            TokenKind::Verification => new.reset_tokens == self.reset_tokens,
            TokenKind::ResetPassword => new.verification_tokens == self.verification_tokens,
        }
    }
}

/// What issuing `raw` of `kind` to `user_id` at `now`, for `ttl` seconds,
/// answers and leaves behind.
pub open spec fn issue_post(
    old: AuthStore,
    new: AuthStore,
    kind: TokenKind,
    user_id: u128,
    raw: Seq<char>,
    now: i64,
    ttl: u32,
    r: Result<(), AuthError>,
) -> bool {
    if !has_live_user(old.users@, user_id) {
        r == Err::<(), AuthError>(AuthError::UserNotFound) && new == old
    } else if old.next_id == u128::MAX {
        r == Err::<(), AuthError>(AuthError::StorageUnavailable) && new == old
    } else if crate::ledger::has_token(old.ledger(kind).tokens@, raw) {
        r == Err::<(), AuthError>(AuthError::InternalError) && new == old
    } else {
        &&& r is Ok
        &&& old.with_ledger(new, kind, new.ledger(kind))
        &&& new.next_id == old.next_id + 1
        &&& new.ledger(kind).tokens@.drop_last() == old.ledger(kind).tokens@
        &&& new.ledger(kind).tokens@.len() == old.ledger(kind).tokens@.len() + 1
        &&& issued(old.next_id, user_id, raw, new.ledger(kind).tokens@.last(), now, ttl)
    }
}

/// What verifying an email with `raw` at `now` answers and leaves behind: the
/// token is consumed and its owner marked verified together, or nothing changes.
pub open spec fn verify_email_post(
    old: AuthStore,
    new: AuthStore,
    raw: Seq<char>,
    now: i64,
    r: Result<(), AuthError>,
) -> bool {
    let (res, tokens) = consume_outcome(old.verification_tokens.tokens@, raw, now);
    match res {
        Err(e) => r == Err::<(), AuthError>(e) && new == old,
        Ok(uid) => if !has_live_user(old.users@, uid) {
            r == Err::<(), AuthError>(AuthError::UserNotFound) && new == old
        } else {
            let i = live_user_index(old.users@, uid);
            &&& r is Ok
            &&& new.verification_tokens.tokens@ == tokens
            &&& new.users@ == old.users@.update(i, verified_record(old.users@[i], now))
            &&& new.accounts == old.accounts
            &&& new.reset_tokens == old.reset_tokens
            &&& new.next_id == old.next_id
            &&& new.hash_cost == old.hash_cost
        },
    }
}

/// What marking the live user `user_id` verified at `now` answers and leaves behind.
pub open spec fn mark_verified_post(old: AuthStore, new: AuthStore, user_id: u128, now: i64, r: Result<(), AuthError>) -> bool {
    if !has_live_user(old.users@, user_id) {
        r == Err::<(), AuthError>(AuthError::UserNotFound) && new == old
    } else {
        let i = live_user_index(old.users@, user_id);
        &&& r is Ok
        &&& new.users@ == old.users@.update(i, verified_record(old.users@[i], now))
        &&& new.accounts == old.accounts
        &&& new.verification_tokens == old.verification_tokens
        &&& new.reset_tokens == old.reset_tokens
        &&& new.next_id == old.next_id
        &&& new.hash_cost == old.hash_cost
    }
}

/// What resetting a password with `q` at `now` answers and leaves behind.
/// The fields are checked before the store is read; the new password is
/// hashed before the token is consumed; once consumed, the token stays so
/// even when the owner has no credentials account.
pub open spec fn reset_password_post(
    old: AuthStore,
    new: AuthStore,
    q: ResetPasswordQuery,
    now: i64,
    r: Result<(), AuthError>,
) -> bool {
    match q.spec_validate() {
        Err(e) => r == Err::<(), AuthError>(e) && new == old,
        Ok(_) => {
            let (res, tokens) = consume_outcome(old.reset_tokens.tokens@, q.token@, now);
            match res {
                Err(e) => r == Err::<(), AuthError>(e) && new == old,
                Ok(_) => (r == Err::<(), AuthError>(AuthError::HashingError) && new == old) || exists|h: String|
                    is_hash_of(q.password@, h@) && carries_cost(h@, old.hash_cost) && #[trigger] reset_applied(old, new, q.token@, h, now, r),
            }
        },
    }
}

/// What consuming the reset token `raw` at `now` and storing `hash` on its
/// owner's credentials account answers and leaves behind. A token that is not
/// consumable changes nothing; once consumed, the token stays so even when the
/// owner has no credentials account.
pub open spec fn reset_applied(
    old: AuthStore,
    new: AuthStore,
    raw: Seq<char>,
    hash: String,
    now: i64,
    r: Result<(), AuthError>,
) -> bool {
    let (res, tokens) = consume_outcome(old.reset_tokens.tokens@, raw, now);
    match res {
        Err(e) => r == Err::<(), AuthError>(e) && new == old,
        Ok(uid) => {
            &&& new.reset_tokens.tokens@ == tokens
            &&& new.users == old.users
            &&& new.verification_tokens == old.verification_tokens
            &&& new.next_id == old.next_id
            &&& new.hash_cost == old.hash_cost
            &&& if has_credentials(old.accounts@, uid) {
                let k = credentials_index(old.accounts@, uid);
                &&& r is Ok
                &&& new.accounts@.len() == old.accounts@.len()
                &&& forall|j: int| 0 <= j < old.accounts@.len() && j != k ==> new.accounts@[j] == old.accounts@[j]
                &&& password_replaced(old.accounts@[k], new.accounts@[k], hash, now)
            } else {
                r == Err::<(), AuthError>(AuthError::InternalError) && new.accounts == old.accounts
            }
        },
    }
}

pub(crate) fn copy_user(u: &User) -> (r: User)
    ensures
        r == *u,
{
    User {
        id: u.id,
        name: u.name.clone(),
        email: u.email.clone(),
        role: u.role.clone(),
        verified: u.verified,
        created_at: u.created_at,
        updated_at: u.updated_at,
        deleted_at: u.deleted_at,
    }
}

pub struct AuthStore {
    pub users: Vec<User>,
    pub accounts: Vec<Account>,
    pub verification_tokens: TokenLedger,
    pub reset_tokens: TokenLedger,
    /// Every identifier in the store is below this one.
    pub next_id: u128,
    /// The bcrypt work factor for new hashes.
    pub hash_cost: u32,
}

impl AuthStore {
    pub open spec fn wf(&self) -> bool {
        &&& MIN_COST <= self.hash_cost <= MAX_COST
        &&& users_wf(self.users@, self.next_id)
        &&& accounts_wf(self.accounts@, self.users@, self.next_id)
        &&& self.verification_tokens.wf()
        &&& self.reset_tokens.wf()
    }

    /// An empty store hashing at the default work factor.
    pub fn new() -> (r: AuthStore)
        ensures
            r.wf(),
            r.users@.len() == 0,
            r.accounts@.len() == 0,
            r.verification_tokens.tokens@.len() == 0,
            r.reset_tokens.tokens@.len() == 0,
            r.hash_cost == DEFAULT_COST,
    {
        AuthStore {
            users: Vec::new(),
            accounts: Vec::new(),
            verification_tokens: TokenLedger::new(),
            reset_tokens: TokenLedger::new(),
            next_id: 1,
            hash_cost: DEFAULT_COST,
        }
    }

    /// An empty store hashing at the given work factor; `None` when bcrypt
    /// would refuse that cost.
    pub fn with_cost(cost: u32) -> (r: Option<AuthStore>)
        ensures
            r is Some <==> MIN_COST <= cost <= MAX_COST,
            r matches Some(s) ==> s.wf() && s.users@.len() == 0 && s.accounts@.len() == 0
                && s.verification_tokens.tokens@.len() == 0 && s.reset_tokens.tokens@.len() == 0
                && s.hash_cost == cost,
    {
        if cost < MIN_COST || cost > MAX_COST {
            return None;
        }
        let mut s = AuthStore::new();
        s.hash_cost = cost;
        Some(s)
    }

    fn index_of_email(&self, email: &String) -> (r: Option<usize>)
        requires
            self.wf(),
        ensures
            r is None <==> !email_taken(self.users@, email@),
            r matches Some(i) ==> i == email_index(self.users@, email@) && i < self.users@.len(),
    {
        let mut i: usize = 0;
        while i < self.users.len()
            invariant
                self.wf(),
                i <= self.users@.len(),
                forall|k: int|
                    0 <= k < i ==> !(user_live(#[trigger] self.users@[k]) && self.users@[k].email@
                        == email@),
            decreases self.users@.len() - i,
        {
            if self.users[i].is_live() && self.users[i].email == *email {
                proof {
                    assert(email_taken(self.users@, email@));
                    let j = email_index(self.users@, email@);
                    if j != i {
                        assert(self.users@[j].email@ != self.users@[i as int].email@);
                    }
                }
                return Some(i);
            }
            i += 1;
        }
        None
    }

    fn index_of_live_user(&self, id: u128) -> (r: Option<usize>)
        requires
            self.wf(),
        ensures
            r is None <==> !has_live_user(self.users@, id),
            r matches Some(i) ==> i == live_user_index(self.users@, id) && i < self.users@.len(),
    {
        let mut i: usize = 0;
        while i < self.users.len()
            invariant
                self.wf(),
                i <= self.users@.len(),
                forall|k: int|
                    0 <= k < i ==> !((#[trigger] self.users@[k]).id == id && user_live(self.users@[k])),
            decreases self.users@.len() - i,
        {
            if self.users[i].id == id && self.users[i].is_live() {
                proof {
                    assert(has_live_user(self.users@, id));
                    let j = live_user_index(self.users@, id);
                    if j != i {
                        assert(self.users@[j].id != self.users@[i as int].id);
                    }
                }
                return Some(i);
            }
            i += 1;
        }
        None
    }

    fn index_of_credentials(&self, user_id: u128) -> (r: Option<usize>)
        requires
            self.wf(),
        ensures
            r is None <==> !has_credentials(self.accounts@, user_id),
            r matches Some(k) ==> k == credentials_index(self.accounts@, user_id) && k
                < self.accounts@.len(),
    {
        let mut k: usize = 0;
        while k < self.accounts.len()
            invariant
                self.wf(),
                k <= self.accounts@.len(),
                forall|m: int|
                    0 <= m < k ==> !(live_credentials(#[trigger] self.accounts@[m])
                        && self.accounts@[m].user_id == user_id),
            decreases self.accounts@.len() - k,
        {
            if self.accounts[k].is_live_credentials() && self.accounts[k].user_id == user_id {
                proof {
                    assert(has_credentials(self.accounts@, user_id));
                    let j = credentials_index(self.accounts@, user_id);
                    if j != k {
                        assert(self.accounts@[j].user_id != self.accounts@[k as int].user_id);
                    }
                }
                return Some(k);
            }
            k += 1;
        }
        None
    }

    /// Registers a user: validates the fields, refuses an email that a live
    /// user holds, then adds the user and its credentials account together.
    pub fn register_at(&mut self, q: &RegisterQuery, now: i64) -> (r: Result<User, AuthError>)
        requires
            old(self).wf(),
        ensures
            final(self).wf(),
            register_post(*old(self), *final(self), *q, now, r),
    {
        if let Err(e) = q.validate() {
            return Err(e);
        }
        if self.index_of_email(&q.email).is_some() {
            return Err(AuthError::EmailTaken);
        }
        if self.next_id >= u128::MAX - 1 {
            return Err(AuthError::StorageUnavailable);
        }
        let hash = match hash_password_with_cost(q.password.as_str(), self.hash_cost) {
            Ok(h) => h,
            Err(e) => return Err(e),
        };
        Ok(self.insert_registration(q, hash, now))
    }

    /// Adds the user of a checked registration and its credentials account,
    /// holding `hash`, in one step.
    pub fn insert_registration(&mut self, q: &RegisterQuery, hash: String, now: i64) -> (r: User)
        requires
            old(self).wf(),
            q.spec_validate() is Ok,
            !email_taken(old(self).users@, q.email@),
            old(self).next_id < u128::MAX - 1,
            is_hash_of(q.password@, hash@),
            carries_cost(hash@, old(self).hash_cost),
        ensures
            final(self).wf(),
            registered(*old(self), *final(self), *q, now, r),
            final(self).accounts@.last().password == Some(hash),
    {
        let user_id = self.next_id;
        let user = User {
            id: user_id,
            name: q.name.clone(),
            email: q.email.clone(),
            role: String::from_str("user"),
            verified: false,
            created_at: now,
            updated_at: now,
            deleted_at: None,
        };
        let account = Account {
            id: user_id + 1,
            user_id,
            account_type: AccountType::Credentials,
            password: Some(hash),
            provider_account_id: None,
            created_at: now,
            updated_at: now,
            deleted_at: None,
        };
        let created = copy_user(&user);
        let ghost old_users = self.users@;
        let ghost old_accounts = self.accounts@;
        self.users.push(user);
        self.accounts.push(account);
        self.next_id = user_id + 2;
        proof {
            assert(self.accounts@.drop_last() =~= old_accounts);
            let users = self.users@;
            let accounts = self.accounts@;
            let n = old_users.len() as int;
            assert(users[n] == created);
            assert forall|i: int| 0 <= i < n implies users[i] == old_users[i] by {}
            assert forall|k: int| 0 <= k < accounts.len() implies has_user(users, (#[trigger] accounts[k]).user_id) by {
                if k < old_accounts.len() {
                    assert(accounts[k] == old_accounts[k]);
                    assert(has_user(old_users, old_accounts[k].user_id));
                    let i = choose|i: int| 0 <= i < old_users.len() && (#[trigger] old_users[i]).id == old_accounts[k].user_id;
                    assert(users[i] == old_users[i]);
                } else {
                    assert(users[n].id == accounts[k].user_id);
                }
            }
            assert forall|k: int, l: int|
                0 <= k < accounts.len() && 0 <= l < accounts.len() && k != l && live_credentials(
                    #[trigger] accounts[k],
                ) && live_credentials(#[trigger] accounts[l]) implies accounts[k].user_id != accounts[l].user_id by {
                if k == old_accounts.len() || l == old_accounts.len() {
                    let m = if k == old_accounts.len() { l } else { k };
                    assert(accounts[m] == old_accounts[m]);
                    assert(has_user(old_users, old_accounts[m].user_id));
                    let i = choose|i: int| 0 <= i < old_users.len() && (#[trigger] old_users[i]).id == old_accounts[m].user_id;
                    assert(old_users[i].id < user_id);
                } else {
                    assert(accounts[k] == old_accounts[k]);
                    assert(accounts[l] == old_accounts[l]);
                }
            }
            assert forall|i: int| 0 <= i < users.len() && user_live(#[trigger] users[i]) implies has_credentials(accounts, users[i].id) by {
                if i < n {
                    assert(users[i] == old_users[i]);
                    assert(has_credentials(old_accounts, old_users[i].id));
                    let k = choose|k: int| 0 <= k < old_accounts.len() && live_credentials(#[trigger] old_accounts[k]) && old_accounts[k].user_id == old_users[i].id;
                    assert(accounts[k] == old_accounts[k]);
                } else {
                    let k = old_accounts.len() as int;
                    assert(live_credentials(accounts[k]) && accounts[k].user_id == users[i].id);
                }
            }
            assert forall|i: int, j: int|
                0 <= i < users.len() && 0 <= j < users.len() && i != j && user_live(#[trigger] users[i])
                    && user_live(#[trigger] users[j]) implies users[i].email@ != users[j].email@ by {
                if i == n || j == n {
                    let m = if i == n { j } else { i };
                    assert(users[m] == old_users[m]);
                    assert(!(user_live(old_users[m]) && old_users[m].email@ == q.email@));
                } else {
                    assert(users[i] == old_users[i]);
                    assert(users[j] == old_users[j]);
                }
            }
        }
        created
    }

    /// Issues `raw` as a token of `kind` for a live user, valid for `ttl`
    /// seconds from `now`. A string already on record is refused.
    pub fn issue_token(&mut self, kind: TokenKind, user_id: u128, raw: String, now: i64, ttl: u32) -> (r: Result<(), AuthError>)
        requires
            old(self).wf(),
        ensures
            final(self).wf(),
            issue_post(*old(self), *final(self), kind, user_id, raw@, now, ttl, r),
    {
        if self.index_of_live_user(user_id).is_none() {
            return Err(AuthError::UserNotFound);
        }
        if self.next_id == u128::MAX {
            return Err(AuthError::StorageUnavailable);
        }
        let id = self.next_id;
        let fresh = match kind {
            TokenKind::Verification => self.verification_tokens.issue(id, user_id, raw, now, ttl),
            TokenKind::ResetPassword => self.reset_tokens.issue(id, user_id, raw, now, ttl),
        };
        if !fresh {
            return Err(AuthError::InternalError);
        }
        self.next_id = id + 1;
        Ok(())
    }

    /// Consumes a verification token and marks its owner verified, as one step.
    pub fn verify_email_at(&mut self, raw: &String, now: i64) -> (r: Result<(), AuthError>)
        requires
            old(self).wf(),
        ensures
            final(self).wf(),
            verify_email_post(*old(self), *final(self), raw@, now, r),
    {
        let uid = match self.verification_tokens.check(raw, now) {
            Ok(uid) => uid,
            Err(e) => return Err(e),
        };
        let i = match self.index_of_live_user(uid) {
            Some(i) => i,
            None => return Err(AuthError::UserNotFound),
        };
        let consumed = self.verification_tokens.consume(raw, now);
        assert(consumed == Ok::<u128, AuthError>(uid));
        self.set_verified(i, now);
        Ok(())
    }

    fn set_verified(&mut self, i: usize, now: i64)
        requires
            old(self).wf(),
            i < old(self).users@.len(),
        ensures
            final(self).wf(),
            final(self).users@ == old(self).users@.update(i as int, verified_record(old(self).users@[i as int], now)),
            final(self).accounts == old(self).accounts,
            final(self).verification_tokens == old(self).verification_tokens,
            final(self).reset_tokens == old(self).reset_tokens,
            final(self).next_id == old(self).next_id,
            final(self).hash_cost == old(self).hash_cost,
    {
        if self.users[i].verified {
            assert(self.users@ =~= self.users@.update(i as int, self.users@[i as int]));
            return;
        }
        let u = &self.users[i];
        let verified = User {
            id: u.id,
            name: u.name.clone(),
            email: u.email.clone(),
            role: u.role.clone(),
            verified: true,
            created_at: u.created_at,
            updated_at: now,
            deleted_at: u.deleted_at,
        };
        let ghost old_users = self.users@;
        self.users.set(i, verified);
        proof {
            assert(self.users@ =~= old_users.update(i as int, verified_record(old_users[i as int], now)));
            lemma_same_user_keys(old_users, self.users@, self.accounts@, self.next_id);
        }
    }

    /// Marks a live user verified; a user already verified is left as it was.
    pub fn mark_verified(&mut self, user_id: u128, now: i64) -> (r: Result<(), AuthError>)
        requires
            old(self).wf(),
        ensures
            final(self).wf(),
            mark_verified_post(*old(self), *final(self), user_id, now, r),
    {
        let i = match self.index_of_live_user(user_id) {
            Some(i) => i,
            None => return Err(AuthError::UserNotFound),
        };
        self.set_verified(i, now);
        Ok(())
    }

    /// Resets a password with a reset token: checks the fields and the token,
    /// hashes the new password, then consumes the token and stores the hash
    /// on the owner's credentials account.
    pub fn reset_password_at(&mut self, q: &ResetPasswordQuery, now: i64) -> (r: Result<(), AuthError>)
        requires
            old(self).wf(),
        ensures
            final(self).wf(),
            reset_password_post(*old(self), *final(self), *q, now, r),
    {
        if let Err(e) = q.validate() {
            return Err(e);
        }
        let uid = match self.reset_tokens.check(&q.token, now) {
            Ok(uid) => uid,
            Err(e) => return Err(e),
        };
        let hash = match hash_password_with_cost(q.password.as_str(), self.hash_cost) {
            Ok(h) => h,
            Err(e) => return Err(e),
        };
        let ghost h = hash;
        let r = self.apply_reset(&q.token, hash, now);
        assert(reset_applied(*old(self), *self, q.token@, h, now, r));
        r
    }

    /// Consumes the reset token `raw` at `now` and stores `hash` on its
    /// owner's credentials account.
    pub fn apply_reset(&mut self, raw: &String, hash: String, now: i64) -> (r: Result<(), AuthError>)
        requires
            old(self).wf(),
        ensures
            final(self).wf(),
            reset_applied(*old(self), *final(self), raw@, hash, now, r),
    {
        let uid = match self.reset_tokens.check(raw, now) {
            Ok(uid) => uid,
            Err(e) => return Err(e),
        };
        let consumed = self.reset_tokens.consume(raw, now);
        assert(consumed == Ok::<u128, AuthError>(uid));
        let k = match self.index_of_credentials(uid) {
            Some(k) => k,
            None => return Err(AuthError::InternalError),
        };
        let a = &self.accounts[k];
        let provider_account_id = match &a.provider_account_id {
            Some(p) => Some(p.clone()),
            None => None,
        };
        let replaced = Account {
            id: a.id,
            user_id: a.user_id,
            account_type: AccountType::Credentials,
            password: Some(hash),
            provider_account_id,
            created_at: a.created_at,
            updated_at: now,
            deleted_at: a.deleted_at,
        };
        let ghost old_accounts = self.accounts@;
        self.accounts.set(k, replaced);
        proof {
            assert(old_accounts[k as int].account_type == AccountType::Credentials);
            lemma_same_account_keys(old_accounts, self.accounts@, self.users@, self.next_id);
        }
        Ok(())
    }

    /// The live user with this email, if any.
    pub fn find_user_by_email(&self, email: &String) -> (r: Option<&User>)
        requires
            self.wf(),
        ensures
            r is None <==> !email_taken(self.users@, email@),
            r matches Some(u) ==> *u == self.users@[email_index(self.users@, email@)],
    {
        match self.index_of_email(email) {
            Some(i) => Some(&self.users[i]),
            None => None,
        }
    }

    /// The live user with this id, if any.
    pub fn find_user_by_id(&self, id: u128) -> (r: Option<&User>)
        requires
            self.wf(),
        ensures
            r is None <==> !has_live_user(self.users@, id),
            r matches Some(u) ==> *u == self.users@[live_user_index(self.users@, id)],
    {
        match self.index_of_live_user(id) {
            Some(i) => Some(&self.users[i]),
            None => None,
        }
    }

    /// The user's live credentials account, if any.
    pub fn find_credentials_account(&self, user_id: u128) -> (r: Option<&Account>)
        requires
            self.wf(),
        ensures
            r is None <==> !has_credentials(self.accounts@, user_id),
            r matches Some(a) ==> *a == self.accounts@[credentials_index(self.accounts@, user_id)],
    {
        match self.index_of_credentials(user_id) {
            Some(k) => Some(&self.accounts[k]),
            None => None,
        }
    }
}

} // verus!
