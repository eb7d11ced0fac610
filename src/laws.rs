//! Properties that hold across calls of the library, proved from the
//! contracts of the functions they speak of.
use vstd::prelude::*;
use crate::dto::RegisterQuery;
use crate::dto::ResetPasswordQuery;
use crate::error::AuthError;
use crate::ledger::{consume_outcome, has_token, issued, mark_used, token_index, tokens_unique};
use crate::models::{live_credentials, user_live, Token};
use crate::password::{bcrypt_shaped, carries_cost, is_hash_of, verify_outcome};
use crate::service::{forgot_password_post, ForgotPasswordOutcome};
use crate::config::SmtpConfig;
use crate::store::{
    credentials_index, has_credentials, has_live_user, has_user, live_user_index, mark_verified_post, register_post,
    reset_applied, reset_password_post, verify_email_post, AuthStore,
};
use crate::models::User;

verus! {

/// After a registration succeeds, exactly one live user holds the email and
/// that user has exactly one live credentials account, whose stored hash is
/// one of the plaintext and has bcrypt's shape, so it differs from any
/// plaintext that does not itself have that shape.
pub proof fn lemma_registration_creates_one_user_and_account(
    old: AuthStore,
    new: AuthStore,
    q: RegisterQuery,
    now: i64,
    u: User,
)
    requires
        old.wf(),
        register_post(old, new, q, now, Ok(u)),
    ensures
        forall|i: int|
            0 <= i < new.users@.len() ==> ((user_live(#[trigger] new.users@[i])
                && new.users@[i].email@ == q.email@) <==> i == old.users@.len()),
        forall|k: int|
            0 <= k < new.accounts@.len() ==> ((live_credentials(#[trigger] new.accounts@[k])
                && new.accounts@[k].user_id == u.id) <==> k == old.accounts@.len()),
        new.accounts@.last().password matches Some(h) && is_hash_of(q.password@, h@) && (
        !bcrypt_shaped(q.password@) ==> h@ != q.password@),
{
    let n = old.users@.len() as int;
    let m = old.accounts@.len() as int;
    assert forall|i: int| 0 <= i < new.users@.len() implies ((user_live(#[trigger] new.users@[i])
        && new.users@[i].email@ == q.email@) <==> i == n) by {
        if i < n {
            assert(new.users@[i] == old.users@[i]);
        }
    }
    assert forall|k: int| 0 <= k < new.accounts@.len() implies ((live_credentials(
        #[trigger] new.accounts@[k],
    ) && new.accounts@[k].user_id == u.id) <==> k == m) by {
        if k < m {
            assert(new.accounts@[k] == new.accounts@.drop_last()[k]);
            assert(new.accounts@[k] == old.accounts@[k]);
            assert(has_user(old.users@, old.accounts@[k].user_id));
            let i = choose|i: int|
                0 <= i < old.users@.len() && (#[trigger] old.users@[i]).id == old.accounts@[k].user_id;
            assert(old.users@[i].id < old.next_id);
        }
    }
}

/// Once a registration has succeeded, a second valid registration with the
/// same email is refused with `EmailTaken` and changes nothing.
pub proof fn lemma_second_registration_refused(
    s0: AuthStore,
    s1: AuthStore,
    s2: AuthStore,
    q1: RegisterQuery,
    q2: RegisterQuery,
    now1: i64,
    now2: i64,
    u: User,
    r2: Result<User, AuthError>,
)
    requires
        s0.wf(),
        register_post(s0, s1, q1, now1, Ok(u)),
        q2.email@ == q1.email@,
        q2.spec_validate() is Ok,
        register_post(s1, s2, q2, now2, r2),
    ensures
        r2 == Err::<User, AuthError>(AuthError::EmailTaken),
        s2 == s1,
{
    let n = s0.users@.len() as int;
    assert(user_live(s1.users@[n]) && s1.users@[n].email@ == q2.email@);
}

/// A hash that `hash_password` returns for a plaintext is accepted for that
/// plaintext by `verify_password`.
pub proof fn lemma_hash_then_verify(password: Seq<char>, h: Seq<char>)
    requires
        is_hash_of(password, h),
    ensures
        verify_outcome(password, h) == Ok::<bool, AuthError>(true),
{
}

proof fn lemma_consumed_stays_found(s: Seq<Token>, raw: Seq<char>, now: i64)
    requires
        tokens_unique(s),
        has_token(s, raw),
    ensures
        ({
            let i = token_index(s, raw);
            let t = s.update(i, mark_used(s[i], now));
            &&& tokens_unique(t)
            &&& has_token(t, raw)
            &&& token_index(t, raw) == i
        }),
{
    let i = token_index(s, raw);
    let t = s.update(i, mark_used(s[i], now));
    assert(t[i].token@ == raw);
    assert(has_token(t, raw));
    let j = token_index(t, raw);
    if j != i {
        assert(t[j] == s[j]);
    }
    assert forall|a: int, b: int| 0 <= a < t.len() && 0 <= b < t.len() && a != b implies (
    #[trigger] t[a]).token@ != (#[trigger] t[b]).token@ by {
        assert(t[a].token@ == s[a].token@ && t[b].token@ == s[b].token@);
    }
}

/// A token is consumed at most once: after one consumption succeeds, every
/// later attempt, at any time, reports `TokenAlreadyUsed` and changes nothing.
pub proof fn lemma_token_consumed_once(s: Seq<Token>, raw: Seq<char>, now1: i64, now2: i64)
    requires
        tokens_unique(s),
        consume_outcome(s, raw, now1).0 is Ok,
    ensures
        ({
            let s1 = consume_outcome(s, raw, now1).1;
            consume_outcome(s1, raw, now2) == (Err::<u128, AuthError>(AuthError::TokenAlreadyUsed), s1)
        }),
{
    lemma_consumed_stays_found(s, raw, now1);
}

/// A freshly issued token is consumable before it expires, and it is the
/// issued owner that consumption reports.
pub proof fn lemma_fresh_token_consumable(
    s: Seq<Token>,
    t: Token,
    id: u128,
    user_id: u128,
    raw: Seq<char>,
    issued_at: i64,
    ttl: u32,
    now: i64,
)
    requires
        tokens_unique(s),
        !has_token(s, raw),
        issued(id, user_id, raw, t, issued_at, ttl),
        now < t.expires_at,
    ensures
        consume_outcome(s.push(t), raw, now).0 == Ok::<u128, AuthError>(user_id),
{
    let l = s.push(t);
    let n = s.len() as int;
    assert(l[n].token@ == raw);
    assert(has_token(l, raw));
    let j = token_index(l, raw);
    if j != n {
        assert(l[j] == s[j]);
    }
}

/// A token issued with no lifetime is never consumable from the moment it
/// was issued: consumption reports `TokenExpired` and changes nothing.
pub proof fn lemma_zero_ttl_token_expired(
    s: Seq<Token>,
    t: Token,
    id: u128,
    user_id: u128,
    raw: Seq<char>,
    issued_at: i64,
    now: i64,
)
    requires
        tokens_unique(s),
        !has_token(s, raw),
        issued(id, user_id, raw, t, issued_at, 0),
        issued_at <= now,
    ensures
        consume_outcome(s.push(t), raw, now) == (Err::<u128, AuthError>(AuthError::TokenExpired), s.push(t)),
{
    let l = s.push(t);
    let n = s.len() as int;
    assert(l[n].token@ == raw);
    assert(has_token(l, raw));
    let j = token_index(l, raw);
    if j != n {
        assert(l[j] == s[j]);
    }
    lemma_past_expiry_not_consumable(l, raw, now);
}

/// An unused token whose expiry has passed is not consumable: consumption
/// reports `TokenExpired` and changes nothing.
pub proof fn lemma_past_expiry_not_consumable(s: Seq<Token>, raw: Seq<char>, now: i64)
    requires
        has_token(s, raw),
        s[token_index(s, raw)].used_at is None,
        s[token_index(s, raw)].expires_at <= now,
    ensures
        consume_outcome(s, raw, now) == (Err::<u128, AuthError>(AuthError::TokenExpired), s),
{
}

/// Marking a user verified twice leaves the store as marking it once did.
pub proof fn lemma_mark_verified_idempotent(
    s0: AuthStore,
    s1: AuthStore,
    s2: AuthStore,
    user_id: u128,
    now1: i64,
    now2: i64,
    r2: Result<(), AuthError>,
)
    requires
        s0.wf(),
        s1.wf(),
        mark_verified_post(s0, s1, user_id, now1, Ok(())),
        mark_verified_post(s1, s2, user_id, now2, r2),
    ensures
        r2 is Ok,
        s2.users@ == s1.users@,
        s2.accounts == s1.accounts,
        s2.verification_tokens == s1.verification_tokens,
        s2.reset_tokens == s1.reset_tokens,
        s2.next_id == s1.next_id,
{
    let i = live_user_index(s0.users@, user_id);
    assert(s1.users@[i].id == user_id && user_live(s1.users@[i]));
    assert(has_live_user(s1.users@, user_id));
    let j = live_user_index(s1.users@, user_id);
    if j != i {
        assert(s1.users@[j].id != s1.users@[i].id);
    }
    assert(s1.users@[i].verified);
    assert(s2.users@ =~= s1.users@);
}

/// After an email was verified with a token, its owner is verified, and
/// verifying again with the same token reports `TokenAlreadyUsed` and
/// changes nothing.
pub proof fn lemma_verify_email_once(
    s0: AuthStore,
    s1: AuthStore,
    s2: AuthStore,
    raw: Seq<char>,
    now1: i64,
    now2: i64,
    r2: Result<(), AuthError>,
)
    requires
        s0.wf(),
        verify_email_post(s0, s1, raw, now1, Ok(())),
        verify_email_post(s1, s2, raw, now2, r2),
    ensures
        ({
            let owner = consume_outcome(s0.verification_tokens.tokens@, raw, now1).0->Ok_0;
            s1.users@[live_user_index(s0.users@, owner)].verified
        }),
        r2 == Err::<(), AuthError>(AuthError::TokenAlreadyUsed),
        s2 == s1,
{
    let s = s0.verification_tokens.tokens@;
    assert(consume_outcome(s, raw, now1).0 is Ok);
    lemma_token_consumed_once(s, raw, now1, now2);
}

/// Verifying with a token that is on record, unused and unexpired, whose
/// owner is a live user, succeeds; with `lemma_verify_email_once`, of two
/// verifications with one token exactly the first succeeds.
pub proof fn lemma_consumable_token_verifies(
    s0: AuthStore,
    s1: AuthStore,
    raw: Seq<char>,
    now: i64,
    r: Result<(), AuthError>,
)
    requires
        s0.wf(),
        has_token(s0.verification_tokens.tokens@, raw),
        ({
            let t = s0.verification_tokens.tokens@[token_index(s0.verification_tokens.tokens@, raw)];
            t.used_at is None && now < t.expires_at && has_live_user(s0.users@, t.user_id)
        }),
        verify_email_post(s0, s1, raw, now, r),
    ensures
        r is Ok,
        consume_outcome(s1.verification_tokens.tokens@, raw, now).0 == Err::<u128, AuthError>(
            AuthError::TokenAlreadyUsed,
        ),
{
    lemma_token_consumed_once(s0.verification_tokens.tokens@, raw, now, now);
}

/// After a reset succeeds, the credentials account of the token's owner holds
/// a hash that checks true against the new password, at the store's cost,
/// and the token is used.
pub proof fn lemma_reset_stores_new_password(
    s0: AuthStore,
    s1: AuthStore,
    q: ResetPasswordQuery,
    now: i64,
)
    requires
        s0.wf(),
        reset_password_post(s0, s1, q, now, Ok(())),
    ensures
        ({
            let (res, tokens) = consume_outcome(s0.reset_tokens.tokens@, q.token@, now);
            &&& res is Ok
            &&& has_credentials(s0.accounts@, res->Ok_0)
            &&& s1.reset_tokens.tokens@ == tokens
            &&& s1.accounts@[credentials_index(s0.accounts@, res->Ok_0)].password matches Some(h)
                && verify_outcome(q.password@, h@) == Ok::<bool, AuthError>(true)
                && carries_cost(h@, s0.hash_cost)
        }),
{
    let h = choose|h: String|
        is_hash_of(q.password@, h@) && carries_cost(h@, s0.hash_cost) && #[trigger] reset_applied(
            s0,
            s1,
            q.token@,
            h,
            now,
            Ok(()),
        );
}

/// When the token is consumable and its owner has a credentials account,
/// storing a hash with it succeeds, uses the token, and the account then
/// holds exactly that hash.
pub proof fn lemma_apply_reset_succeeds(
    s0: AuthStore,
    s1: AuthStore,
    raw: Seq<char>,
    hash: String,
    now: i64,
    r: Result<(), AuthError>,
)
    requires
        s0.wf(),
        consume_outcome(s0.reset_tokens.tokens@, raw, now).0 matches Ok(uid) && has_credentials(
            s0.accounts@,
            uid,
        ),
        reset_applied(s0, s1, raw, hash, now, r),
    ensures
        r is Ok,
        ({
            let uid = consume_outcome(s0.reset_tokens.tokens@, raw, now).0->Ok_0;
            s1.accounts@[credentials_index(s0.accounts@, uid)].password == Some(hash)
        }),
        consume_outcome(s1.reset_tokens.tokens@, raw, now).0 == Err::<u128, AuthError>(
            AuthError::TokenAlreadyUsed,
        ),
{
    lemma_token_consumed_once(s0.reset_tokens.tokens@, raw, now, now);
}

/// The reply to a password-reset request is the same for any two requests,
/// whether or not their emails belong to a user.
pub proof fn lemma_forgot_password_reply_uniform(
    old1: AuthStore,
    new1: AuthStore,
    smtp1: SmtpConfig,
    email1: Seq<char>,
    raw1: Seq<char>,
    now1: i64,
    r1: ForgotPasswordOutcome,
    old2: AuthStore,
    new2: AuthStore,
    smtp2: SmtpConfig,
    email2: Seq<char>,
    raw2: Seq<char>,
    now2: i64,
    r2: ForgotPasswordOutcome,
)
    requires
        forgot_password_post(old1, new1, smtp1, email1, raw1, now1, r1),
        forgot_password_post(old2, new2, smtp2, email2, raw2, now2, r2),
    ensures
        r1.reply == r2.reply,
{
}

/// A reset whose two passwords differ fails with `PasswordMismatch` and
/// changes nothing, so the token stays exactly as consumable as it was; a
/// later reset with matching, valid passwords and that token, while it is
/// consumable and its owner has a credentials account, succeeds unless
/// hashing fails.
pub proof fn lemma_mismatch_keeps_token(
    s0: AuthStore,
    s1: AuthStore,
    s2: AuthStore,
    q1: ResetPasswordQuery,
    q2: ResetPasswordQuery,
    now1: i64,
    now2: i64,
    r1: Result<(), AuthError>,
    r2: Result<(), AuthError>,
)
    requires
        s0.wf(),
        q1.password@ != q1.password_confirm@,
        reset_password_post(s0, s1, q1, now1, r1),
        q2.token@ == q1.token@,
        q2.spec_validate() is Ok,
        reset_password_post(s1, s2, q2, now2, r2),
    ensures
        r1 == Err::<(), AuthError>(AuthError::PasswordMismatch),
        s1 == s0,
        consume_outcome(s0.reset_tokens.tokens@, q2.token@, now2).0 matches Ok(uid) && has_credentials(
            s0.accounts@,
            uid,
        ) ==> r2 is Ok || r2 == Err::<(), AuthError>(AuthError::HashingError),
{
}

} // verus!
