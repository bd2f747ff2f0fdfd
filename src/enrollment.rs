use vstd::prelude::*;

use crate::effect::{Effect, PortExchange};
use crate::protocol::{ApiMessage, Role, User};
use crate::share_protocol::{SuccessData, UsbResponse};
use crate::state::AppState;
use crate::text::{join, contains_text, occurs_in, text_eq};
use crate::usb_service::{pair_views, reply_get, reply_value};
use crate::validation::{email_is_valid, validate_email, validate_min_length};

verus! {

/// The fewest characters a new user's password may have.
pub const MIN_PASSWORD_LENGTH: u64 = 14;

/// What the enrollment form of the client allows.
#[derive(PartialEq, Eq, Structural, Clone, Copy, Debug)]
pub enum FormMode {
    /// Every field is filled in: a new user can be enrolled.
    Enroll,
    /// Only the email and the role are given: the user's role can be changed.
    Modify,
    /// Neither.
    Incomplete,
}

/// A new user can be enrolled from the form of `s`, `email_ok` telling
/// whether its email is well formed.
pub open spec fn enroll_form_ok(s: AppState, email_ok: bool) -> bool {
    &&& s.enroll_firstname@.len() > 0
    &&& s.enroll_lastname@.len() > 0
    &&& s.enroll_email@.len() > 0
    &&& email_ok
    &&& s.enroll_password@.len() >= MIN_PASSWORD_LENGTH
    &&& s.enroll_role != Role::NONE
    &&& s.usb_connected
}

/// The role of the user whose email the form of `s` holds can be changed.
pub open spec fn modify_form_ok(s: AppState, email_ok: bool) -> bool {
    &&& s.enroll_email@.len() > 0
    &&& s.enroll_role != Role::NONE
    &&& email_ok
    &&& s.enroll_firstname@.len() == 0
    &&& s.enroll_lastname@.len() == 0
    &&& s.enroll_password@.len() == 0
    &&& s.usb_connected
}

/// What the form allows, enrolling first.
pub open spec fn form_mode_of(s: AppState, email_ok: bool) -> FormMode {
    if enroll_form_ok(s, email_ok) {
        FormMode::Enroll
    } else if modify_form_ok(s, email_ok) {
        FormMode::Modify
    } else {
        FormMode::Incomplete
    }
}

/// What the enrollment form of `app` allows, `email_ok` telling whether its
/// email is well formed and `long_enough` whether its password has at least
/// `MIN_PASSWORD_LENGTH` characters.
pub fn form_mode_checked(app: &AppState, email_ok: bool, long_enough: bool) -> (r: FormMode)
    requires
        long_enough == (app.enroll_password@.len() >= MIN_PASSWORD_LENGTH),
    ensures
        r == form_mode_of(*app, email_ok),
{
    let enroll = !app.enroll_firstname.as_str().is_empty() && !app.enroll_lastname.as_str().is_empty()
        && !app.enroll_email.as_str().is_empty() && email_ok
        && !app.enroll_password.as_str().is_empty() && long_enough && app.enroll_role != Role::NONE
        && app.usb_connected;
    let modify = !app.enroll_email.as_str().is_empty() && app.enroll_role != Role::NONE && email_ok
        && app.enroll_firstname.as_str().is_empty() && app.enroll_lastname.as_str().is_empty()
        && app.enroll_password.as_str().is_empty() && app.usb_connected;
    if enroll {
        FormMode::Enroll
    } else if modify {
        FormMode::Modify
    } else {
        FormMode::Incomplete
    }
}

/// What the enrollment form of `app` allows.
pub fn form_mode(app: &AppState) -> (r: FormMode)
    ensures
        r == form_mode_of(*app, email_is_valid(app.enroll_email@)),
{
    let email_ok = validate_email(app.enroll_email.as_str());
    let long_enough = validate_min_length(&app.enroll_password, MIN_PASSWORD_LENGTH);
    form_mode_checked(app, email_ok, long_enough)
}

/// The message that reports an enrollment that failed at the token.
pub open spec fn is_enroll_error(m: ApiMessage, text: Seq<char>) -> bool {
    m matches ApiMessage::EnrollmentError(t) && t@ == "Erreur USB: "@ + text
}

/// The enroll button: asks the token for the new user's identity, or
/// reports that no token is plugged in.
pub fn start_enrollment(app: &mut AppState) -> (r: Effect)
    ensures
        *final(app) == (AppState { enroll_status: final(app).enroll_status, ..*old(app) }),
        final(app).enroll_status@ == "🔌 Recherche de la clé USB..."@,
        old(app).current_port_name@.len() == 0 ==> (r matches Effect::Deliver(m) && is_enroll_error(
            m,
            "Aucune Bindkey détectée. Branchez-là !"@,
        )),
        old(app).current_port_name@.len() > 0 ==> (r matches Effect::Enroll { port_name }
            && port_name == old(app).current_port_name),
{
    app.enroll_status = String::from_str("🔌 Recherche de la clé USB...");
    if app.current_port_name.as_str().is_empty() {
        Effect::Deliver(
            ApiMessage::EnrollmentError(
                join("Erreur USB: ", "Aucune Bindkey détectée. Branchez-là !"),
            ),
        )
    } else {
        Effect::Enroll { port_name: app.current_port_name.clone() }
    }
}

/// The event that ends the token's part of an enrollment: its serial
/// number and public key, or the reason it failed.
pub fn enrollment_outcome(exchange: PortExchange) -> (r: ApiMessage)
    ensures
        match exchange {
            PortExchange::NoPort => is_enroll_error(r, "Aucune Bindkey détectée. Branchez-là !"@),
            PortExchange::OpenFailed(e) => is_enroll_error(r, "Erreur ouverture port: "@ + e@),
            PortExchange::Replied(pairs) => match (
                reply_value(pair_views(pairs@), "SN"@),
                reply_value(pair_views(pairs@), "PUB"@),
            ) {
                (Some(sn), Some(pk)) => r matches ApiMessage::EnrollmentUsbSuccess(
                    UsbResponse::Success(SuccessData::EnrollmentInfo { uid, public_key }),
                ) && uid@ == sn && public_key@ == pk,
                _ => is_enroll_error(r, "Données incomplètes (SN et PUB manquant)"@),
            },
            PortExchange::Failed(e) => is_enroll_error(r, "Echec communication: "@ + e@),
        },
{
    match exchange {
        PortExchange::NoPort => ApiMessage::EnrollmentError(
            join("Erreur USB: ", "Aucune Bindkey détectée. Branchez-là !"),
        ),
        PortExchange::OpenFailed(e) => {
            let text = join("Erreur ouverture port: ", e.as_str());
            ApiMessage::EnrollmentError(join("Erreur USB: ", text.as_str()))
        },
        PortExchange::Replied(pairs) => match (reply_get(&pairs, "SN"), reply_get(&pairs, "PUB")) {
            (Some(uid), Some(public_key)) => ApiMessage::EnrollmentUsbSuccess(
                UsbResponse::Success(SuccessData::EnrollmentInfo { uid, public_key }),
            ),
            _ => ApiMessage::EnrollmentError(
                join("Erreur USB: ", "Données incomplètes (SN et PUB manquant)"),
            ),
        },
        PortExchange::Failed(e) => {
            let text = join("Echec communication: ", e.as_str());
            ApiMessage::EnrollmentError(join("Erreur USB: ", text.as_str()))
        },
    }
}

/// How long the simulated token takes to acknowledge a change of role, in
/// milliseconds.
pub const SIMULATED_ACK_DELAY_MS: u64 = 500;

/// The modify button: the token's acknowledgement is simulated.
pub fn start_modification(app: &mut AppState) -> (r: Effect)
    ensures
        *final(app) == (AppState { enroll_status: final(app).enroll_status, ..*old(app) }),
        final(app).enroll_status@ == "🛠️ SIMULATION : Bypass USB activé..."@,
        r matches Effect::DeliverLater(
            ApiMessage::ModificationUsbSuccess(UsbResponse::Success(SuccessData::Ack)),
            delay,
        ) && delay == SIMULATED_ACK_DELAY_MS,
{
    app.enroll_status = String::from_str("🛠️ SIMULATION : Bypass USB activé...");
    Effect::DeliverLater(
        ApiMessage::ModificationUsbSuccess(UsbResponse::Success(SuccessData::Ack)),
        SIMULATED_ACK_DELAY_MS,
    )
}

/// The roles a user of role `role` may give to others.
pub open spec fn grantable_roles(role: Role) -> Seq<Role> {
    match role {
        Role::ADMIN => seq![Role::USER, Role::ENROLLEUR],
        Role::ENROLLEUR => seq![Role::USER],
        _ => Seq::empty(),
    }
}

/// The roles offered in the form to a user of role `role`.
pub fn selectable_roles(role: Role) -> (r: Vec<Role>)
    ensures
        r@ == grantable_roles(role),
{
    let mut v: Vec<Role> = Vec::new();
    match role {
        Role::ADMIN => {
            v.push(Role::USER);
            v.push(Role::ENROLLEUR);
        },
        Role::ENROLLEUR => {
            v.push(Role::USER);
        },
        _ => {},
    }
    assert(v@ =~= grantable_roles(role));
    v
}

/// How a role is shown in the list of users.
pub open spec fn role_label_of(role: Role) -> Seq<char> {
    match role {
        Role::ADMIN => "Administrateur"@,
        Role::ENROLLEUR => "Enrôleur"@,
        Role::USER => "Utilisateur"@,
        Role::NONE => "Aucun"@,
    }
}

/// How a role is shown in the list of users.
pub fn role_label(role: Role) -> (r: &'static str)
    ensures
        r@ == role_label_of(role),
{
    match role {
        Role::ADMIN => "Administrateur",
        Role::ENROLLEUR => "Enrôleur",
        Role::USER => "Utilisateur",
        Role::NONE => "Aucun",
    }
}

/// Whether the listed `user` may be deleted by the one logged in with
/// `login_email`: anybody but oneself.
pub fn can_delete(user: &User, login_email: &str) -> (r: bool)
    ensures
        r == (user.email@ != login_email@),
{
    !text_eq(user.email.as_str(), login_email)
}

/// Whether a status line reports a failure.
pub fn status_is_error(status: &str) -> (r: bool)
    ensures
        r == (occurs_in(status@, "Erreur"@) || occurs_in(status@, "Refus"@)),
{
    contains_text(status, "Erreur") || contains_text(status, "Refus")
}

} // verus!
