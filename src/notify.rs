use vstd::prelude::*;
use crate::config::SmtpConfig;

verus! {

/// A message for the notification dispatcher to deliver.
#[derive(Debug)]
pub struct Notification {
    pub from: String,
    pub to: String,
    pub subject: String,
    pub body: String,
}

pub open spec fn verification_subject() -> Seq<char> {
    "Vérification de votre adresse email"@
}

pub open spec fn reset_subject() -> Seq<char> {
    "Réinitialisation de votre mot de passe"@
}

/// The text of a message that carries a link to `frontend_url` + `path` + the token.
pub open spec fn link_body(
    name: Seq<char>,
    intro: Seq<char>,
    frontend_url: Seq<char>,
    path: Seq<char>,
    token: Seq<char>,
) -> Seq<char> {
    "Bonjour "@ + name + ",\n\n"@ + intro + frontend_url + path + token
        + "\n\nCe lien expirera dans 10 minutes.\n\nL'équipe Scylla"@
}

pub open spec fn verification_intro() -> Seq<char> {
    "Veuillez cliquer sur le lien suivant pour vérifier votre adresse email :\n"@
}

pub open spec fn reset_intro() -> Seq<char> {
    "Veuillez cliquer sur le lien suivant pour réinitialiser votre mot de passe :\n"@
}

/// The message that asks `to` to confirm their address with `token`.
pub open spec fn verification_message(smtp: SmtpConfig, to: Seq<char>, name: Seq<char>, token: Seq<char>) -> (
    Seq<char>,
    Seq<char>,
    Seq<char>,
    Seq<char>,
) {
    (
        smtp.email_from@,
        to,
        verification_subject(),
        link_body(name, verification_intro(), smtp.frontend_url@, "/verify?token="@, token),
    )
}

/// The message that lets `to` choose a new password with `token`.
pub open spec fn reset_message(smtp: SmtpConfig, to: Seq<char>, name: Seq<char>, token: Seq<char>) -> (
    Seq<char>,
    Seq<char>,
    Seq<char>,
    Seq<char>,
) {
    (
        smtp.email_from@,
        to,
        reset_subject(),
        link_body(name, reset_intro(), smtp.frontend_url@, "/reset-password?token="@, token),
    )
}

impl Notification {
    pub open spec fn parts(&self) -> (Seq<char>, Seq<char>, Seq<char>, Seq<char>) {
        (self.from@, self.to@, self.subject@, self.body@)
    }
}

fn compose_body(name: &str, intro: &str, frontend_url: &str, path: &str, token: &str) -> (r: String)
    ensures
        r@ == link_body(name@, intro@, frontend_url@, path@, token@),
{
    let mut body = String::from_str("Bonjour ");
    body.append(name);
    body.append(",\n\n");
    body.append(intro);
    body.append(frontend_url);
    body.append(path);
    body.append(token);
    body.append("\n\nCe lien expirera dans 10 minutes.\n\nL'équipe Scylla");
    body
}

/// Composes the email-verification message for a user.
pub fn verification_notification(smtp: &SmtpConfig, to: &String, name: &String, token: &String) -> (r: Notification)
    ensures
        r.parts() == verification_message(*smtp, to@, name@, token@),
{
    Notification {
        from: smtp.email_from.clone(),
        to: to.clone(),
        subject: String::from_str("Vérification de votre adresse email"),
        body: compose_body(
            name.as_str(),
            "Veuillez cliquer sur le lien suivant pour vérifier votre adresse email :\n",
            smtp.frontend_url.as_str(),
            "/verify?token=",
            token.as_str(),
        ),
    }
}

/// Composes the password-reset message for a user.
pub fn reset_notification(smtp: &SmtpConfig, to: &String, name: &String, token: &String) -> (r: Notification)
    ensures
        r.parts() == reset_message(*smtp, to@, name@, token@),
{
    Notification {
        from: smtp.email_from.clone(),
        to: to.clone(),
        subject: String::from_str("Réinitialisation de votre mot de passe"),
        body: compose_body(
            name.as_str(),
            "Veuillez cliquer sur le lien suivant pour réinitialiser votre mot de passe :\n",
            smtp.frontend_url.as_str(),
            "/reset-password?token=",
            token.as_str(),
        ),
    }
}

} // verus!
