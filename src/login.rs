use vstd::prelude::*;

use crate::effect::{Effect, PortExchange, ServerReply};
use crate::password::{hash_password_with_salt, salted_password_hash};
use crate::protocol::{ApiMessage, ChallengeResponse, LoginSuccessResponse};
use crate::state::AppState;
use crate::text::{join, contains_text, occurs_in};
use crate::usb_service::{pair_views, reply_get, reply_value};
use crate::validation::{email_is_valid, validate_email};

verus! {

/// The login form holds an email, a password, and the email is well formed
/// (`email_ok`).
pub open spec fn login_fields_ok(s: AppState, email_ok: bool) -> bool {
    s.login_email@.len() > 0 && s.login_password@.len() > 0 && email_ok
}

/// `e` logs in without the token, with the email and hashed password of `s`.
pub open spec fn is_admin_login(e: Effect, s: AppState) -> bool {
    match e {
        Effect::AdminLogin { url, email, password } => {
            &&& url@ == s.config.api_url@ + "/sessions/test"@
            &&& email == s.login_email
            &&& password@ == salted_password_hash(s.login_password@)
        },
        _ => false,
    }
}

/// `e` starts a login with the token, with the email and hashed password of `s`.
pub open spec fn is_token_login(e: Effect, s: AppState) -> bool {
    match e {
        Effect::TokenLogin { port_name, url, email, password } => {
            &&& port_name == s.current_port_name
            &&& url@ == s.config.api_url@ + "/sessions/login"@
            &&& email == s.login_email
            &&& password@ == salted_password_hash(s.login_password@)
        },
        _ => false,
    }
}

/// `t` and `e` are what submitting the login form of `s` without the token
/// gives, `email_ok` telling whether the email is well formed.
pub open spec fn admin_login_done(s: AppState, t: AppState, e: Effect, email_ok: bool) -> bool {
    &&& s.same_but_login_form(t)
    &&& if !login_fields_ok(s, email_ok) {
        &&& t.login_status@ == "Champs invalides"@
        &&& t.login_password == s.login_password
        &&& e is Nothing
    } else {
        &&& t.login_status@ == "Authentification Admin en cours..."@
        &&& t.login_password@.len() == 0
        &&& is_admin_login(e, s)
    }
}

/// `t` and `e` are what submitting the login form of `s` with the token
/// gives, `email_ok` telling whether the email is well formed.
pub open spec fn token_login_done(s: AppState, t: AppState, e: Effect, email_ok: bool) -> bool {
    &&& s.same_but_login_form(t)
    &&& if !login_fields_ok(s, email_ok) {
        &&& t.login_status@ == " Champs invalides"@
        &&& t.login_password == s.login_password
        &&& e is Nothing
    } else if !s.usb_connected {
        &&& t.login_status@ == " Veuillez brancher votre BindKey"@
        &&& t.login_password == s.login_password
        &&& e is Nothing
    } else {
        &&& t.login_status@ == " Lecture de la BindKey..."@
        &&& t.login_password@.len() == 0
        &&& is_token_login(e, s)
    }
}

/// Submits the login form without the token, `email_ok` telling whether the
/// email is well formed. An incomplete form only sets the status; otherwise
/// the password is hashed, cleared from the form, and the login starts.
pub fn handle_admin_login_checked(app: &mut AppState, email_ok: bool) -> (r: Effect)
    ensures
        admin_login_done(*old(app), *final(app), r, email_ok),
{
    if app.login_email.as_str().is_empty() || app.login_password.as_str().is_empty() || !email_ok {
        app.login_status = String::from_str("Champs invalides");
        return Effect::Nothing;
    }
    app.login_status = String::from_str("Authentification Admin en cours...");
    let url = join(app.config.api_url.as_str(), "/sessions/test");
    let password = hash_password_with_salt(app.login_password.as_str());
    let email = app.login_email.clone();
    app.login_password = String::new();
    Effect::AdminLogin { url, email, password }
}

/// Submits the login form without the token.
pub fn handle_admin_login(app: &mut AppState) -> (r: Effect)
    ensures
        admin_login_done(*old(app), *final(app), r, email_is_valid(old(app).login_email@)),
{
    let email_ok = validate_email(app.login_email.as_str());
    handle_admin_login_checked(app, email_ok)
}

/// Submits the login form with the token, `email_ok` telling whether the
/// email is well formed. An incomplete form, or a missing token, only sets
/// the status; otherwise the password is hashed, cleared from the form, and
/// the token is read.
pub fn handle_login_checked(app: &mut AppState, email_ok: bool) -> (r: Effect)
    ensures
        token_login_done(*old(app), *final(app), r, email_ok),
{
    if app.login_email.as_str().is_empty() || app.login_password.as_str().is_empty() || !email_ok {
        app.login_status = String::from_str(" Champs invalides");
        return Effect::Nothing;
    }
    if !app.usb_connected {
        app.login_status = String::from_str(" Veuillez brancher votre BindKey");
        return Effect::Nothing;
    }
    app.login_status = String::from_str(" Lecture de la BindKey...");
    let url = join(app.config.api_url.as_str(), "/sessions/login");
    let password = hash_password_with_salt(app.login_password.as_str());
    let email = app.login_email.clone();
    let port_name = app.current_port_name.clone();
    app.login_password = String::new();
    Effect::TokenLogin { port_name, url, email, password }
}

/// Submits the login form with the token.
pub fn handle_login(app: &mut AppState) -> (r: Effect)
    ensures
        token_login_done(*old(app), *final(app), r, email_is_valid(old(app).login_email@)),
{
    let email_ok = validate_email(app.login_email.as_str());
    handle_login_checked(app, email_ok)
}

/// The login button: without the token in administrator mode, with it otherwise.
pub fn submit_login(app: &mut AppState) -> (r: Effect)
    ensures
        old(app).is_admin_mode ==> admin_login_done(
            *old(app),
            *final(app),
            r,
            email_is_valid(old(app).login_email@),
        ),
        !old(app).is_admin_mode ==> token_login_done(
            *old(app),
            *final(app),
            r,
            email_is_valid(old(app).login_email@),
        ),
{
    if app.is_admin_mode {
        handle_admin_login(app)
    } else {
        handle_login(app)
    }
}

/// Whether the login status reports work in progress rather than a failure.
pub fn login_status_in_progress(status: &str) -> (r: bool)
    ensures
        r == occurs_in(status@, "cours"@),
{
    contains_text(status, "cours")
}

/// The event that ends a login without the token.
pub fn admin_login_outcome(reply: ServerReply<LoginSuccessResponse>) -> (r: ApiMessage)
    ensures
        match reply {
            ServerReply::Accepted(data) => r == ApiMessage::LoginSuccess(
                data.role,
                data.server_token,
                data.first_name,
                data.local_token,
            ),
            ServerReply::Unreadable(_) => r matches ApiMessage::LoginError(t) && t@
                == "Erreur format réponse serveur"@,
            ServerReply::Refused(status) => r matches ApiMessage::LoginError(t) && t@
                == "Refus Admin: "@ + status@,
            ServerReply::Unreachable(e) => r matches ApiMessage::LoginError(t) && t@
                == "Erreur réseau : "@ + e@,
        },
{
    match reply {
        ServerReply::Accepted(data) => ApiMessage::LoginSuccess(
            data.role,
            data.server_token,
            data.first_name,
            data.local_token,
        ),
        ServerReply::Unreadable(_) => ApiMessage::LoginError(
            String::from_str("Erreur format réponse serveur"),
        ),
        ServerReply::Refused(status) => ApiMessage::LoginError(
            join("Refus Admin: ", status.as_str()),
        ),
        ServerReply::Unreachable(e) => ApiMessage::LoginError(join("Erreur réseau : ", e.as_str())),
    }
}

/// `e` delivers a login error whose text is `text`.
pub open spec fn is_login_error(e: Effect, text: Seq<char>) -> bool {
    e matches Effect::Deliver(ApiMessage::LoginError(t)) && t@ == text
}

/// `e` asks the server for a challenge with the serial number `uid`.
pub open spec fn is_challenge_request(
    e: Effect,
    url: String,
    email: String,
    password: String,
    uid: Seq<char>,
) -> bool {
    e matches Effect::RequestChallenge { url: u, email: m, password: p, bindkey_id }
        && u == url && m == email && p == password && bindkey_id@ == uid
}

/// What follows the reading of the token's serial number in a login: the
/// notices to show, then the request for a challenge. A port that is missing
/// or cannot be opened is reported and the request goes on without a serial
/// number; a token that fails or does not give its serial number ends the login.
pub fn token_uid_outcome(
    exchange: PortExchange,
    url: String,
    email: String,
    password: String,
) -> (r: Vec<Effect>)
    ensures
        match exchange {
            PortExchange::NoPort => r@.len() == 3 && is_login_error(r@[0], "Port introuvable"@)
                && is_login_error(r@[1], "UID récupéré, envoi au serveur..."@)
                && is_challenge_request(r@[2], url, email, password, Seq::empty()),
            PortExchange::OpenFailed(e) => r@.len() == 3 && is_login_error(
                r@[0],
                "Erreur Lecture Clé: "@ + e@,
            ) && is_login_error(r@[1], "UID récupéré, envoi au serveur..."@)
                && is_challenge_request(r@[2], url, email, password, Seq::empty()),
            PortExchange::Replied(pairs) => match reply_value(pair_views(pairs@), "SN"@) {
                Some(sn) => r@.len() == 2 && is_login_error(
                    r@[0],
                    "UID récupéré, envoi au serveur..."@,
                ) && is_challenge_request(r@[1], url, email, password, sn),
                None => r@.len() == 1 && is_login_error(r@[0], "Clé muette (SN manquant)"@),
            },
            PortExchange::Failed(e) => r@.len() == 1 && is_login_error(
                r@[0],
                "Erreur lecture Clé: "@ + e@,
            ),
        },
{
    let mut effects: Vec<Effect> = Vec::new();
    let uid = match exchange {
        PortExchange::NoPort => {
            effects.push(Effect::Deliver(ApiMessage::LoginError(String::from_str("Port introuvable"))));
            String::new()
        },
        PortExchange::OpenFailed(e) => {
            effects.push(
                Effect::Deliver(ApiMessage::LoginError(join("Erreur Lecture Clé: ", e.as_str()))),
            );
            String::new()
        },
        PortExchange::Replied(pairs) => match reply_get(&pairs, "SN") {
            Some(sn) => sn,
            None => {
                effects.push(
                    Effect::Deliver(
                        ApiMessage::LoginError(String::from_str("Clé muette (SN manquant)")),
                    ),
                );
                return effects;
            },
        },
        PortExchange::Failed(e) => {
            effects.push(
                Effect::Deliver(ApiMessage::LoginError(join("Erreur lecture Clé: ", e.as_str()))),
            );
            return effects;
        },
    };
    effects.push(
        Effect::Deliver(ApiMessage::LoginError(String::from_str("UID récupéré, envoi au serveur..."))),
    );
    effects.push(Effect::RequestChallenge { url, email, password, bindkey_id: uid });
    effects
}

/// The event that ends a request for a challenge, if any: an answer that
/// cannot be read is dropped.
pub fn challenge_outcome(reply: ServerReply<ChallengeResponse>) -> (r: Option<ApiMessage>)
    ensures
        match reply {
            ServerReply::Accepted(ch) => r == Some(
                ApiMessage::ReceivedChallenge(ch.auth_challenge, ch.session_id),
            ),
            ServerReply::Unreadable(_) => r is None,
            ServerReply::Refused(status) => r matches Some(ApiMessage::LoginError(t)) && t@
                == "Refus Serveur (Clé inconnue ?): "@ + status@,
            ServerReply::Unreachable(e) => r matches Some(ApiMessage::LoginError(t)) && t@
                == "Erreur Réseau: "@ + e@,
        },
{
    match reply {
        ServerReply::Accepted(ch) => Some(
            ApiMessage::ReceivedChallenge(ch.auth_challenge, ch.session_id),
        ),
        ServerReply::Unreadable(_) => None,
        ServerReply::Refused(status) => Some(
            ApiMessage::LoginError(join("Refus Serveur (Clé inconnue ?): ", status.as_str())),
        ),
        ServerReply::Unreachable(e) => Some(
            ApiMessage::LoginError(join("Erreur Réseau: ", e.as_str())),
        ),
    }
}

} // verus!
