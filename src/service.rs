use vstd::prelude::*;
use rand::distributions::Alphanumeric;
use rand::Rng;
use crate::config::{Config, SmtpConfig};
use crate::dto::{LoginQuery, RegisterQuery, ResetPasswordQuery, VerifyQuery};
use crate::error::AuthError;
use crate::models::User;
use crate::notify::{reset_message, reset_notification, verification_message, verification_notification, Notification};
use crate::password::{hash_password_with_cost, verify_outcome, verify_password};
use crate::response::{success, Response};
use crate::session::Session;
use crate::store::{
    copy_user, credentials_index, email_index, email_taken, issue_post, live_user_index,
    register_post, reset_password_post, verify_email_post, AuthStore, TokenKind, TOKEN_TTL_SECS,
};

verus! {

/// The number of characters in a token.
pub const TOKEN_LEN: usize = 32;

pub open spec fn is_alphanumeric(c: char) -> bool {
    ('a' <= c && c <= 'z') || ('A' <= c && c <= 'Z') || ('0' <= c && c <= '9')
}

/// The shape of every token that the service draws.
pub open spec fn token_shaped(raw: Seq<char>) -> bool {
    raw.len() == TOKEN_LEN && forall|i: int| 0 <= i < raw.len() ==> is_alphanumeric(#[trigger] raw[i])
}

/// Relies on chrono::Utc::now and DateTime::timestamp: the current time in
/// whole seconds since the Unix epoch. Nothing is promised of its value.
#[verifier::external_body]
fn unix_now() -> (r: i64) {
    chrono::Utc::now().timestamp()
}

/// Relies on rand's thread_rng sampled through rand::distributions::Alphanumeric,
/// which draws each character from A-Z, a-z and 0-9; `take` keeps `len` of them.
#[verifier::external_body]
fn random_alphanumeric(len: usize) -> (r: String)
    ensures
        r@.len() == len,
        forall|i: int| 0 <= i < r@.len() ==> is_alphanumeric(#[trigger] r@[i]),
{
    rand::thread_rng().sample_iter(&Alphanumeric).take(len).map(char::from).collect()
}

pub open spec fn unit_of<T>(r: Result<T, AuthError>) -> Result<(), AuthError> {
    match r {
        Ok(_) => Ok(()),
        Err(e) => Err(e),
    }
}

/// What logging in with `q` answers, given the identity the session holds.
/// An unknown email and a wrong password give the same error.
pub open spec fn login_outcome(s: AuthStore, q: LoginQuery, identity: Option<u128>) -> Result<User, AuthError> {
    match q.spec_validate() {
        Err(e) => Err(e),
        Ok(_) => if identity is Some {
            Err(AuthError::AlreadyAuthenticated)
        } else if !email_taken(s.users@, q.email@) {
            Err(AuthError::InvalidCredentials)
        } else {
            let u = s.users@[email_index(s.users@, q.email@)];
            let a = s.accounts@[credentials_index(s.accounts@, u.id)];
            match a.password {
                Some(h) => match verify_outcome(q.password@, h@) {
                    Ok(true) => Ok(u),
                    Ok(false) => Err(AuthError::InvalidCredentials),
                    Err(e) => Err(e),
                },
                None => Err(AuthError::InternalError),
            }
        },
    }
}

/// What requesting a verification email for `user_id` with token `raw` at
/// `now` answers and leaves behind.
pub open spec fn request_verification_post(
    old: AuthStore,
    new: AuthStore,
    smtp: SmtpConfig,
    user_id: u128,
    raw: Seq<char>,
    now: i64,
    r: Result<Notification, AuthError>,
) -> bool {
    &&& issue_post(old, new, TokenKind::Verification, user_id, raw, now, TOKEN_TTL_SECS, unit_of(r))
    &&& r matches Ok(n) ==> {
        let u = old.users@[live_user_index(old.users@, user_id)];
        n.parts() == verification_message(smtp, u.email@, u.name@, raw)
    }
}

/// The answer to every password-reset request, whatever the email.
pub open spec fn forgot_password_reply() -> Response<()> {
    Response { status: 200, message: None, data: None }
}

/// What a password-reset request for `email` with token `raw` at `now`
/// leaves behind: a token and a message when a live user holds the email,
/// nothing otherwise.
pub open spec fn forgot_password_post(
    old: AuthStore,
    new: AuthStore,
    smtp: SmtpConfig,
    email: Seq<char>,
    raw: Seq<char>,
    now: i64,
    r: ForgotPasswordOutcome,
) -> bool {
    &&& r.reply == forgot_password_reply()
    &&& if email_taken(old.users@, email) {
        let u = old.users@[email_index(old.users@, email)];
        exists|res: Result<(), AuthError>|
            {
                &&& issue_post(old, new, TokenKind::ResetPassword, u.id, raw, now, TOKEN_TTL_SECS, res)
                &&& r.notification is Some <==> res is Ok
                &&& r.notification matches Some(n) ==> n.parts() == reset_message(smtp, u.email@, u.name@, raw)
            }
    } else {
        new == old && r.notification is None
    }
}

/// The answer to a password-reset request, and the message to dispatch, if any.
pub struct ForgotPasswordOutcome {
    /// The same for every request, so that it tells nothing of the email.
    pub reply: Response<()>,
    pub notification: Option<Notification>,
}

/// The user-facing flows over the store and a session.
pub struct AuthService;

impl AuthService {
    /// Registers a user at the current time.
    pub fn register(store: &mut AuthStore, q: &RegisterQuery) -> (r: Result<User, AuthError>)
        requires
            old(store).wf(),
        ensures
            final(store).wf(),
            exists|now: i64| register_post(*old(store), *final(store), *q, now, r),
    {
        let now = unix_now();
        store.register_at(q, now)
    }

    /// Logs in: checks the fields, refuses a session that is already bound,
    /// finds the live user by email and checks the password against the
    /// stored hash, then binds the user to the session.
    pub fn login(store: &AuthStore, session: &mut Session, q: &LoginQuery) -> (r: Result<User, AuthError>)
        requires
            store.wf(),
        ensures
            r == login_outcome(*store, *q, old(session).identity),
            final(session).identity == match r {
                Ok(u) => Some(u.id),
                Err(_) => old(session).identity,
            },
    {
        if let Err(e) = q.validate() {
            return Err(e);
        }
        if session.current().is_some() {
            return Err(AuthError::AlreadyAuthenticated);
        }
        let u = match store.find_user_by_email(&q.email) {
            Some(u) => u,
            None => {
                // Spend the time a password check takes, so that an unknown
                // email is not told apart by how fast the answer comes.
                let _ = hash_password_with_cost(q.password.as_str(), store.hash_cost);
                return Err(AuthError::InvalidCredentials);
            },
        };
        let a = match store.find_credentials_account(u.id) {
            Some(a) => a,
            None => {
                assert(false);
                return Err(AuthError::InternalError);
            },
        };
        let stored = match &a.password {
            Some(h) => h,
            None => return Err(AuthError::InternalError),
        };
        match verify_password(q.password.as_str(), stored.as_str()) {
            Err(e) => Err(e),
            Ok(false) => Err(AuthError::InvalidCredentials),
            Ok(true) => {
                let _ = session.login(u.id);
                Ok(copy_user(u))
            },
        }
    }

    /// Logs out; refused when no one is logged in.
    pub fn logout(session: &mut Session) -> (r: Result<(), AuthError>)
        ensures
            old(session).identity is None ==> r == Err::<(), AuthError>(AuthError::NotAuthenticated),
            old(session).identity is Some ==> r is Ok,
            final(session).identity is None,
    {
        session.logout()
    }

    /// Issues the verification token `raw` to a live user at `now` and
    /// composes the message that carries it.
    pub fn request_verification_at(
        store: &mut AuthStore,
        user_id: u128,
        smtp: &SmtpConfig,
        raw: String,
        now: i64,
    ) -> (r: Result<Notification, AuthError>)
        requires
            old(store).wf(),
        ensures
            final(store).wf(),
            request_verification_post(*old(store), *final(store), *smtp, user_id, raw@, now, r),
    {
        let (email, name) = match store.find_user_by_id(user_id) {
            Some(u) => (u.email.clone(), u.name.clone()),
            None => return Err(AuthError::UserNotFound),
        };
        let text = raw.clone();
        match store.issue_token(TokenKind::Verification, user_id, raw, now, TOKEN_TTL_SECS) {
            Ok(()) => Ok(verification_notification(smtp, &email, &name, &text)),
            Err(e) => Err(e),
        }
    }

    /// Issues a fresh random verification token to a live user and composes
    /// the message that carries it.
    pub fn request_verification(store: &mut AuthStore, user_id: u128, config: &Config) -> (r: Result<Notification, AuthError>)
        requires
            old(store).wf(),
        ensures
            final(store).wf(),
            exists|raw: Seq<char>, now: i64|
                token_shaped(raw) && request_verification_post(*old(store), *final(store), config.smtp, user_id, raw, now, r),
    {
        let raw = random_alphanumeric(TOKEN_LEN);
        let now = unix_now();
        let ghost raw_view = raw@;
        let r = Self::request_verification_at(store, user_id, &config.smtp, raw, now);
        assert(token_shaped(raw_view));
        r
    }

    /// Consumes a verification token at the current time and marks its owner verified.
    pub fn verify(store: &mut AuthStore, q: &VerifyQuery) -> (r: Result<(), AuthError>)
        requires
            old(store).wf(),
        ensures
            final(store).wf(),
            exists|now: i64| verify_email_post(*old(store), *final(store), q.token@, now, r),
    {
        let now = unix_now();
        store.verify_email_at(&q.token, now)
    }

    /// Handles a password-reset request for `email` with token `raw` at `now`.
    /// The reply is the same whether or not the email is known; a message is
    /// composed only for a live user.
    pub fn forgot_password_at(
        store: &mut AuthStore,
        email: &String,
        smtp: &SmtpConfig,
        raw: String,
        now: i64,
    ) -> (r: ForgotPasswordOutcome)
        requires
            old(store).wf(),
        ensures
            final(store).wf(),
            forgot_password_post(*old(store), *final(store), *smtp, email@, raw@, now, r),
    {
        let reply = success::<()>(200, None);
        let found = match store.find_user_by_email(email) {
            Some(u) => Some((u.id, u.email.clone(), u.name.clone())),
            None => None,
        };
        let notification = match found {
            None => None,
            Some((id, to, name)) => {
                let text = raw.clone();
                let res = store.issue_token(TokenKind::ResetPassword, id, raw, now, TOKEN_TTL_SECS);
                match res {
                    Ok(()) => Some(reset_notification(smtp, &to, &name, &text)),
                    Err(_) => None,
                }
            },
        };
        ForgotPasswordOutcome { reply, notification }
    }

    /// Handles a password-reset request for `email` with a fresh random token.
    pub fn forgot_password(store: &mut AuthStore, email: &String, config: &Config) -> (r: ForgotPasswordOutcome)
        requires
            old(store).wf(),
        ensures
            final(store).wf(),
            exists|raw: Seq<char>, now: i64|
                token_shaped(raw) && forgot_password_post(*old(store), *final(store), config.smtp, email@, raw, now, r),
    {
        let raw = random_alphanumeric(TOKEN_LEN);
        let now = unix_now();
        let ghost raw_view = raw@;
        let r = Self::forgot_password_at(store, email, &config.smtp, raw, now);
        assert(token_shaped(raw_view));
        r
    }

    /// Resets a password with a reset token at the current time.
    pub fn reset_password(store: &mut AuthStore, q: &ResetPasswordQuery) -> (r: Result<(), AuthError>)
        requires
            old(store).wf(),
        ensures
            final(store).wf(),
            exists|now: i64| reset_password_post(*old(store), *final(store), *q, now, r),
    {
        let now = unix_now();
        store.reset_password_at(q, now)
    }
}

} // verus!
