use credential_core::config::SmtpConfig;
use credential_core::dto::{LoginQuery, RegisterQuery, ResetPasswordQuery, VerifyQuery};
use credential_core::error::{AuthError, InputField};
use credential_core::password::verify_password;
use credential_core::service::AuthService;
use credential_core::session::Session;
use credential_core::store::{AuthStore, TokenKind};

const NOW: i64 = 1_700_000_000;

fn store() -> AuthStore {
    AuthStore::with_cost(4).unwrap()
}

fn smtp() -> SmtpConfig {
    SmtpConfig {
        server: "smtp.example.com".to_string(),
        port: 587,
        username: "mailer".to_string(),
        password: "secret".to_string(),
        email_from: "noreply@example.com".to_string(),
        frontend_url: "https://app.example.com".to_string(),
        tls_mode: "none".to_string(),
    }
}

fn registration(name: &str, email: &str, password: &str) -> RegisterQuery {
    RegisterQuery { name: name.to_string(), email: email.to_string(), password: password.to_string() }
}

fn login_query(email: &str, password: &str) -> LoginQuery {
    LoginQuery { email: email.to_string(), password: password.to_string() }
}

fn reset_query(token: &str, password: &str, confirm: &str) -> ResetPasswordQuery {
    ResetPasswordQuery {
        token: token.to_string(),
        password: password.to_string(),
        password_confirm: confirm.to_string(),
    }
}

#[test]
fn register_creates_one_user_and_one_credentials_account() {
    let mut s = store();
    let u = s.register_at(&registration("Ann", "ann@x.com", "password123"), NOW).unwrap();
    assert_eq!(u.name, "Ann");
    assert_eq!(u.email, "ann@x.com");
    assert_eq!(u.role, "user");
    assert!(!u.verified);
    assert_eq!(u.created_at, NOW);
    assert_eq!(s.users.len(), 1);
    assert_eq!(s.accounts.len(), 1);
    let account = s.find_credentials_account(u.id).unwrap();
    assert_eq!(account.user_id, u.id);
    let stored = account.password.clone().unwrap();
    assert_ne!(stored, "password123");
    assert_eq!(stored.len(), 60);
    assert!(stored.starts_with("$2b$04$"));
    assert_eq!(verify_password("password123", &stored), Ok(true));
}

#[test]
fn register_twice_with_same_email_is_email_taken() {
    let mut s = store();
    assert!(s.register_at(&registration("Ann", "ann@x.com", "password123"), NOW).is_ok());
    let second = s.register_at(&registration("Annie", "ann@x.com", "otherpass99"), NOW + 5);
    assert_eq!(second.err(), Some(AuthError::EmailTaken));
    assert_eq!(s.users.len(), 1);
    assert_eq!(s.accounts.len(), 1);
}

#[test]
fn register_rejects_malformed_fields_before_storage() {
    let mut s = store();
    let short_name = s.register_at(&registration("Al", "al@x.com", "password123"), NOW);
    assert_eq!(short_name.err(), Some(AuthError::ValidationFailed(InputField::Name)));
    let bad_email = s.register_at(&registration("Alice", "not-an-email", "password123"), NOW);
    assert_eq!(bad_email.err(), Some(AuthError::ValidationFailed(InputField::Email)));
    let short_password = s.register_at(&registration("Alice", "alice@x.com", "short"), NOW);
    assert_eq!(short_password.err(), Some(AuthError::ValidationFailed(InputField::Password)));
    let long_name = "n".repeat(101);
    let too_long = s.register_at(&registration(&long_name, "alice@x.com", "password123"), NOW);
    assert_eq!(too_long.err(), Some(AuthError::ValidationFailed(InputField::Name)));
    assert!(s.users.is_empty());
    assert!(s.accounts.is_empty());
}

#[test]
fn register_accepts_boundary_lengths() {
    let mut s = store();
    let name = "Bob";
    let password = "p".repeat(100);
    let u = s.register_at(&registration(name, "bob@x.com", &password), NOW).unwrap();
    assert_eq!(u.name, "Bob");
    let eight = s.register_at(&registration(&"c".repeat(100), "c@x.com", "12345678"), NOW);
    assert!(eight.is_ok());
}

#[test]
fn scenario_register_then_login() {
    let mut s = store();
    let u = s.register_at(&registration("Ann", "ann@x.com", "password123"), NOW).unwrap();
    let mut session = Session::new();
    let logged = AuthService::login(&s, &mut session, &login_query("ann@x.com", "password123")).unwrap();
    assert_eq!(logged.id, u.id);
    assert_eq!(session.current(), Some(u.id));
    let mut other = Session::new();
    let wrong = AuthService::login(&s, &mut other, &login_query("ann@x.com", "wrongpass"));
    assert_eq!(wrong.err(), Some(AuthError::InvalidCredentials));
    assert_eq!(other.current(), None);
}

#[test]
fn login_with_unknown_email_is_invalid_credentials() {
    let mut s = store();
    s.register_at(&registration("Ann", "ann@x.com", "password123"), NOW).unwrap();
    let mut session = Session::new();
    let r = AuthService::login(&s, &mut session, &login_query("nobody@x.com", "password123"));
    assert_eq!(r.err(), Some(AuthError::InvalidCredentials));
    assert_eq!(session.current(), None);
}

#[test]
fn login_on_bound_session_is_already_authenticated() {
    let mut s = store();
    s.register_at(&registration("Ann", "ann@x.com", "password123"), NOW).unwrap();
    let mut session = Session::new();
    AuthService::login(&s, &mut session, &login_query("ann@x.com", "password123")).unwrap();
    let again = AuthService::login(&s, &mut session, &login_query("ann@x.com", "password123"));
    assert_eq!(again.err(), Some(AuthError::AlreadyAuthenticated));
}

#[test]
fn login_validates_fields() {
    let s = store();
    let mut session = Session::new();
    let r = AuthService::login(&s, &mut session, &login_query("bad", "password123"));
    assert_eq!(r.err(), Some(AuthError::ValidationFailed(InputField::Email)));
    let r = AuthService::login(&s, &mut session, &login_query("ann@x.com", "short"));
    assert_eq!(r.err(), Some(AuthError::ValidationFailed(InputField::Password)));
}

#[test]
fn logout_unbinds_and_then_is_not_authenticated() {
    let mut session = Session::new();
    assert_eq!(AuthService::logout(&mut session), Err(AuthError::NotAuthenticated));
    session.login(7).unwrap();
    assert_eq!(session.login(8), Err(AuthError::AlreadyAuthenticated));
    assert_eq!(AuthService::logout(&mut session), Ok(()));
    assert_eq!(session.current(), None);
    assert_eq!(AuthService::logout(&mut session), Err(AuthError::NotAuthenticated));
}

#[test]
fn scenario_verify_email_once() {
    let mut s = store();
    let u = s.register_at(&registration("Ann", "ann@x.com", "password123"), NOW).unwrap();
    let n = AuthService::request_verification_at(&mut s, u.id, &smtp(), "tok-verify-1".to_string(), NOW)
        .unwrap();
    assert_eq!(n.to, "ann@x.com");
    assert_eq!(n.from, "noreply@example.com");
    assert!(n.body.contains("https://app.example.com/verify?token=tok-verify-1"));
    assert!(n.body.starts_with("Bonjour Ann,"));
    assert_eq!(s.verify_email_at(&"tok-verify-1".to_string(), NOW + 60), Ok(()));
    assert!(s.find_user_by_id(u.id).unwrap().verified);
    assert_eq!(s.verify_email_at(&"tok-verify-1".to_string(), NOW + 61), Err(AuthError::TokenAlreadyUsed));
}

#[test]
fn verify_email_reports_each_token_failure() {
    let mut s = store();
    let u = s.register_at(&registration("Ann", "ann@x.com", "password123"), NOW).unwrap();
    assert_eq!(s.verify_email_at(&"missing".to_string(), NOW), Err(AuthError::TokenNotFound));
    s.issue_token(TokenKind::Verification, u.id, "late".to_string(), NOW, 600).unwrap();
    assert_eq!(s.verify_email_at(&"late".to_string(), NOW + 600), Err(AuthError::TokenExpired));
    assert!(!s.find_user_by_id(u.id).unwrap().verified);
    assert_eq!(s.verify_email_at(&"late".to_string(), NOW + 599), Ok(()));
}

#[test]
fn request_verification_for_unknown_user_is_user_not_found() {
    let mut s = store();
    let r = AuthService::request_verification_at(&mut s, 42, &smtp(), "tok".to_string(), NOW);
    assert_eq!(r.err(), Some(AuthError::UserNotFound));
    assert!(s.verification_tokens.tokens.is_empty());
}

#[test]
fn issuing_a_token_string_twice_is_refused() {
    let mut s = store();
    let u = s.register_at(&registration("Ann", "ann@x.com", "password123"), NOW).unwrap();
    assert_eq!(s.issue_token(TokenKind::ResetPassword, u.id, "same".to_string(), NOW, 600), Ok(()));
    assert_eq!(
        s.issue_token(TokenKind::ResetPassword, u.id, "same".to_string(), NOW, 600),
        Err(AuthError::InternalError)
    );
    assert_eq!(s.reset_tokens.tokens.len(), 1);
    assert_eq!(s.reset_tokens.tokens[0].expires_at, NOW + 600);
}

#[test]
fn forgot_password_reply_is_the_same_for_unknown_email() {
    let mut s = store();
    s.register_at(&registration("Ann", "ann@x.com", "password123"), NOW).unwrap();
    let known = AuthService::forgot_password_at(&mut s, &"ann@x.com".to_string(), &smtp(), "r1".to_string(), NOW);
    let unknown =
        AuthService::forgot_password_at(&mut s, &"ghost@x.com".to_string(), &smtp(), "r2".to_string(), NOW);
    assert_eq!(known.reply.status, unknown.reply.status);
    assert_eq!(known.reply.message, unknown.reply.message);
    assert_eq!(known.reply.data, unknown.reply.data);
    assert_eq!(known.reply.status, 200);
    assert!(known.notification.is_some());
    assert!(unknown.notification.is_none());
    assert_eq!(s.reset_tokens.tokens.len(), 1);
}

#[test]
fn scenario_forgot_then_reset_then_login() {
    let mut s = store();
    s.register_at(&registration("Ann", "ann@x.com", "password123"), NOW).unwrap();
    let out = AuthService::forgot_password_at(&mut s, &"ann@x.com".to_string(), &smtp(), "reset-1".to_string(), NOW);
    let n = out.notification.unwrap();
    assert!(n.body.contains("https://app.example.com/reset-password?token=reset-1"));
    assert_eq!(s.reset_password_at(&reset_query("reset-1", "newpass1234", "newpass1234"), NOW + 30), Ok(()));
    let mut session = Session::new();
    assert!(AuthService::login(&s, &mut session, &login_query("ann@x.com", "newpass1234")).is_ok());
    let mut other = Session::new();
    let old = AuthService::login(&s, &mut other, &login_query("ann@x.com", "password123"));
    assert_eq!(old.err(), Some(AuthError::InvalidCredentials));
}

#[test]
fn reset_mismatch_keeps_token_usable() {
    let mut s = store();
    s.register_at(&registration("Ann", "ann@x.com", "password123"), NOW).unwrap();
    AuthService::forgot_password_at(&mut s, &"ann@x.com".to_string(), &smtp(), "reset-2".to_string(), NOW);
    assert_eq!(
        s.reset_password_at(&reset_query("reset-2", "newpass1234", "newpass9999"), NOW + 1),
        Err(AuthError::PasswordMismatch)
    );
    assert!(s.reset_tokens.tokens[0].used_at.is_none());
    assert_eq!(s.reset_password_at(&reset_query("reset-2", "newpass1234", "newpass1234"), NOW + 2), Ok(()));
    assert_eq!(
        s.reset_password_at(&reset_query("reset-2", "newpass1234", "newpass1234"), NOW + 3),
        Err(AuthError::TokenAlreadyUsed)
    );
}

#[test]
fn reset_rejects_short_password_and_unknown_token() {
    let mut s = store();
    assert_eq!(
        s.reset_password_at(&reset_query("any", "short", "short"), NOW),
        Err(AuthError::ValidationFailed(InputField::Password))
    );
    assert_eq!(
        s.reset_password_at(&reset_query("any", "newpass1234", "newpass1234"), NOW),
        Err(AuthError::TokenNotFound)
    );
}

#[test]
fn random_tokens_and_clock_drive_the_verification_flow() {
    let mut s = store();
    let u = AuthService::register(&mut s, &registration("Ann", "ann@x.com", "password123")).unwrap();
    assert!(u.created_at > 1_600_000_000);
    let config = credential_core::config::Config {
        server: credential_core::config::ServerConfig {
            protocol: "http".to_string(),
            base_url: "localhost".to_string(),
            port: 8080,
            env: "test".to_string(),
        },
        database: credential_core::config::DatabaseConfig { url: "memory".to_string() },
        redis: credential_core::config::RedisConfig { url: "redis://localhost".to_string() },
        session: credential_core::config::SessionConfig { secret: "k".repeat(64) },
        oauth: credential_core::config::OAuthConfig {
            google: credential_core::config::ProviderConfig {
                client_id: "id".to_string(),
                client_secret: "secret".to_string(),
                redirect_url: "http://localhost/cb".to_string(),
            },
        },
        smtp: smtp(),
    };
    AuthService::request_verification(&mut s, u.id, &config).unwrap();
    let raw = s.verification_tokens.tokens[0].token.clone();
    assert_eq!(raw.len(), 32);
    assert!(raw.chars().all(|c| c.is_ascii_alphanumeric()));
    assert_eq!(AuthService::verify(&mut s, &VerifyQuery { token: raw.clone() }), Ok(()));
    assert_eq!(AuthService::verify(&mut s, &VerifyQuery { token: raw }), Err(AuthError::TokenAlreadyUsed));
    assert!(s.find_user_by_id(u.id).unwrap().verified);
}

#[test]
fn mark_verified_is_idempotent() {
    let mut s = store();
    let u = s.register_at(&registration("Ann", "ann@x.com", "password123"), NOW).unwrap();
    assert_eq!(s.mark_verified(u.id, NOW + 10), Ok(()));
    let first = s.find_user_by_id(u.id).unwrap();
    assert!(first.verified);
    assert_eq!(first.updated_at, NOW + 10);
    assert_eq!(s.mark_verified(u.id, NOW + 20), Ok(()));
    let second = s.find_user_by_id(u.id).unwrap();
    assert!(second.verified);
    assert_eq!(second.updated_at, NOW + 10);
    assert_eq!(s.mark_verified(u.id + 1000, NOW), Err(AuthError::UserNotFound));
}

#[test]
fn verification_message_text() {
    let mut s = store();
    let u = s.register_at(&registration("Ann", "ann@x.com", "password123"), NOW).unwrap();
    let n = AuthService::request_verification_at(&mut s, u.id, &smtp(), "abc123".to_string(), NOW).unwrap();
    assert_eq!(n.subject, "Vérification de votre adresse email");
    assert_eq!(
        n.body,
        "Bonjour Ann,\n\nVeuillez cliquer sur le lien suivant pour vérifier votre adresse email :\n\
         https://app.example.com/verify?token=abc123\n\nCe lien expirera dans 10 minutes.\n\nL'équipe Scylla"
    );
    assert_eq!(s.verification_tokens.tokens[0].expires_at, NOW + 600);
    assert_eq!(s.verification_tokens.tokens[0].user_id, u.id);
}

#[test]
fn reset_message_text() {
    let mut s = store();
    s.register_at(&registration("Ann", "ann@x.com", "password123"), NOW).unwrap();
    let out = AuthService::forgot_password_at(&mut s, &"ann@x.com".to_string(), &smtp(), "xyz".to_string(), NOW);
    let n = out.notification.unwrap();
    assert_eq!(n.to, "ann@x.com");
    assert_eq!(n.subject, "Réinitialisation de votre mot de passe");
    assert_eq!(
        n.body,
        "Bonjour Ann,\n\nVeuillez cliquer sur le lien suivant pour réinitialiser votre mot de passe :\n\
         https://app.example.com/reset-password?token=xyz\n\nCe lien expirera dans 10 minutes.\n\nL'équipe Scylla"
    );
}

#[test]
fn user_lookups_find_live_users() {
    let mut s = store();
    let ann = s.register_at(&registration("Ann", "ann@x.com", "password123"), NOW).unwrap();
    let bob = s.register_at(&registration("Bob", "bob@x.com", "password456"), NOW).unwrap();
    assert_ne!(ann.id, bob.id);
    assert_eq!(s.find_user_by_email(&"bob@x.com".to_string()).unwrap().id, bob.id);
    assert_eq!(s.find_user_by_id(ann.id).unwrap().email, "ann@x.com");
    assert!(s.find_user_by_email(&"carl@x.com".to_string()).is_none());
    s.users[0].deleted_at = Some(NOW + 1);
    assert!(s.find_user_by_id(ann.id).is_none());
    assert!(s.find_user_by_email(&"ann@x.com".to_string()).is_none());
}

#[test]
fn insert_registration_stores_the_given_hash() {
    let mut s = store();
    let q = registration("Ann", "ann@x.com", "password123");
    let hash = credential_core::password::hash_password_with_cost("password123", 4).unwrap();
    let u = s.insert_registration(&q, hash.clone(), NOW);
    assert_eq!(u.email, "ann@x.com");
    assert_eq!(s.users.len(), 1);
    assert_eq!(s.accounts.len(), 1);
    assert_eq!(s.accounts[0].password, Some(hash));
    assert_eq!(s.accounts[0].user_id, u.id);
    assert_eq!(s.accounts[0].id, u.id + 1);
}

#[test]
fn apply_reset_stores_hash_and_uses_token() {
    let mut s = store();
    let u = s.register_at(&registration("Ann", "ann@x.com", "password123"), NOW).unwrap();
    s.issue_token(TokenKind::ResetPassword, u.id, "rt".to_string(), NOW, 600).unwrap();
    assert_eq!(s.apply_reset(&"missing".to_string(), "h".to_string(), NOW), Err(AuthError::TokenNotFound));
    assert_eq!(s.apply_reset(&"rt".to_string(), "stored-hash".to_string(), NOW + 1), Ok(()));
    assert_eq!(s.accounts[0].password, Some("stored-hash".to_string()));
    assert_eq!(s.accounts[0].updated_at, NOW + 1);
    assert_eq!(s.reset_tokens.tokens[0].used_at, Some(NOW + 1));
    assert_eq!(s.apply_reset(&"rt".to_string(), "again".to_string(), NOW + 2), Err(AuthError::TokenAlreadyUsed));
    assert_eq!(s.accounts[0].password, Some("stored-hash".to_string()));
}

#[test]
fn reset_without_credentials_account_consumes_token_and_is_internal_error() {
    let mut s = store();
    let u = s.register_at(&registration("Ann", "ann@x.com", "password123"), NOW).unwrap();
    s.issue_token(TokenKind::ResetPassword, u.id, "rt2".to_string(), NOW, 600).unwrap();
    s.accounts[0].deleted_at = Some(NOW);
    let before = s.accounts[0].password.clone();
    assert_eq!(
        s.reset_password_at(&reset_query("rt2", "newpass1234", "newpass1234"), NOW + 1),
        Err(AuthError::InternalError)
    );
    assert_eq!(s.reset_tokens.tokens[0].used_at, Some(NOW + 1));
    assert_eq!(s.accounts[0].password, before);
}

#[test]
fn reset_stores_a_hash_of_the_new_password_at_the_store_cost() {
    let mut s = store();
    s.register_at(&registration("Ann", "ann@x.com", "password123"), NOW).unwrap();
    AuthService::forgot_password_at(&mut s, &"ann@x.com".to_string(), &smtp(), "rt3".to_string(), NOW);
    assert_eq!(s.reset_password_at(&reset_query("rt3", "newpass1234", "newpass1234"), NOW + 1), Ok(()));
    let stored = s.accounts[0].password.clone().unwrap();
    assert!(stored.starts_with("$2b$04$"));
    assert_ne!(stored, "newpass1234");
    assert_eq!(verify_password("newpass1234", &stored), Ok(true));
    assert_eq!(verify_password("password123", &stored), Ok(false));
}
