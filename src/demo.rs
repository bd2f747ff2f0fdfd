use vstd::prelude::*;

use crate::text::{join, text_eq};

verus! {

/// Role picked on the demonstration client's start screen.
#[derive(PartialEq, Eq, Structural, Clone, Copy, Debug)]
pub enum UserRole {
    NoRole,
    User,
    Enroller,
    Admin,
}

/// Screens of the demonstration client.
#[derive(PartialEq, Eq, Structural, Clone, Copy, Debug)]
pub enum DemoPage {
    Login,
    Home,
    Enrollment,
    Unlock,
    Volumes,
    AdminDashboard,
}

/// Steps of the demonstration client's enrollment wizard.
pub enum EnrollmentState {
    /// The user's details are being typed.
    Formulaire,
    /// Waiting for the finger on the token.
    AttenteDoigt,
    /// The registration is being sent.
    Communication,
    /// The server registered the user, with its message.
    Succes(String),
    /// The registration failed, with the reason.
    Erreur(String),
}

/// State of the demonstration client, which stands in for the token and
/// lets the user pick a role instead of logging in.
pub struct DemoState {
    pub status_text: String,
    pub input_firstname: String,
    pub input_lastname: String,
    pub input_email: String,
    pub input_role: String,
    pub current_page: DemoPage,
    pub is_unlocked: bool,
    pub user_role: UserRole,
    pub enroll_state: EnrollmentState,
}

/// What a registration of the wizard sends: first name, last name, email,
/// role and the biometric hash.
pub struct RegistrationArgs {
    pub first_name: String,
    pub last_name: String,
    pub email: String,
    pub role: String,
    pub hash: String,
}

/// Whether a user of role `role` may open `page` from the menu.
pub open spec fn demo_menu_allows(role: UserRole, page: DemoPage) -> bool {
    match page {
        DemoPage::Login => true,
        DemoPage::Enrollment => role == UserRole::Enroller || role == UserRole::Admin,
        DemoPage::AdminDashboard => role == UserRole::Admin,
        _ => role != UserRole::NoRole,
    }
}

/// The JSON text of the field `key` of the JSON object written in `text`
/// (`null` when there is no such field), or `None` when `text` is not JSON.
pub uninterp spec fn json_field_text(text: Seq<char>, key: Seq<char>) -> Option<Seq<char>>;

/// Relies on `serde_json::from_str::<Value>`, indexing a `Value` by a key
/// (which gives `null` for a missing key or a value that is not an object),
/// and the JSON text that `Value`'s `Display` writes.
#[verifier::external_body]
fn json_field(text: &str, key: &str) -> (r: Option<String>)
    ensures
        r matches Some(v) ==> json_field_text(text@, key@) == Some(v@),
        r is None ==> json_field_text(text@, key@) is None,
{
    match serde_json::from_str::<serde_json::Value>(text) {
        Ok(v) => Some(v[key].to_string()),
        Err(_) => None,
    }
}

/// The JSON text of the string `UNLOCKED`, which a token reports when open.
pub open spec fn unlocked_text() -> Seq<char> {
    "\"UNLOCKED\""@
}

impl DemoState {
    /// `t` differs from `self` at most in the status line and the lock state.
    pub open spec fn same_but_lock(&self, t: DemoState) -> bool {
        t == DemoState { status_text: t.status_text, is_unlocked: t.is_unlocked, ..*self }
    }

    /// The state at start-up: on the role screen, with an empty form whose
    /// role is `USER`.
    pub fn new() -> (r: DemoState)
        ensures
            r.status_text@ == "Prêt."@,
            r.input_firstname@.len() == 0,
            r.input_lastname@.len() == 0,
            r.input_email@.len() == 0,
            r.input_role@ == "USER"@,
            r.current_page == DemoPage::Login,
            !r.is_unlocked,
            r.user_role == UserRole::NoRole,
            r.enroll_state is Formulaire,
    {
        DemoState {
            status_text: String::from_str("Prêt."),
            input_firstname: String::new(),
            input_lastname: String::new(),
            input_email: String::new(),
            input_role: String::from_str("USER"),
            current_page: DemoPage::Login,
            is_unlocked: false,
            user_role: UserRole::NoRole,
            enroll_state: EnrollmentState::Formulaire,
        }
    }

    /// Picks a role on the start screen and opens the home page.
    pub fn choose_role(&mut self, role: UserRole)
        ensures
            *final(self) == (DemoState { user_role: role, current_page: DemoPage::Home, ..*old(self) }),
    {
        self.user_role = role;
        self.current_page = DemoPage::Home;
    }

    /// Opens `page` from the menu if the role allows it.
    pub fn open_page(&mut self, page: DemoPage)
        ensures
            demo_menu_allows(old(self).user_role, page) ==> *final(self) == (DemoState {
                current_page: page,
                ..*old(self)
            }),
            !demo_menu_allows(old(self).user_role, page) ==> *final(self) == *old(self),
    {
        let allowed = match page {
            DemoPage::Login => true,
            DemoPage::Enrollment => self.user_role == UserRole::Enroller || self.user_role
                == UserRole::Admin,
            DemoPage::AdminDashboard => self.user_role == UserRole::Admin,
            _ => self.user_role != UserRole::NoRole,
        };
        if allowed {
            self.current_page = page;
        }
    }

    /// Leaves the session: back to the start screen without a role.
    pub fn log_out(&mut self)
        ensures
            *final(self) == (DemoState {
                user_role: UserRole::NoRole,
                current_page: DemoPage::Login,
                ..*old(self)
            }),
    {
        self.user_role = UserRole::NoRole;
        self.current_page = DemoPage::Login;
    }

    /// Whether the wizard's form may go on: first name, last name and email
    /// are all given.
    pub fn form_is_valid(&self) -> (r: bool)
        ensures
            r == (self.input_firstname@.len() > 0 && self.input_lastname@.len() > 0
                && self.input_email@.len() > 0),
    {
        !self.input_firstname.as_str().is_empty() && !self.input_lastname.as_str().is_empty()
            && !self.input_email.as_str().is_empty()
    }

    /// The wizard's next button: from a valid form to waiting for the finger.
    pub fn next_step(&mut self)
        ensures
            old(self).enroll_state is Formulaire && old(self).input_firstname@.len() > 0
                && old(self).input_lastname@.len() > 0 && old(self).input_email@.len() > 0
                ==> *final(self) == (DemoState {
                enroll_state: EnrollmentState::AttenteDoigt,
                ..*old(self)
            }),
            !(old(self).enroll_state is Formulaire && old(self).input_firstname@.len() > 0
                && old(self).input_lastname@.len() > 0 && old(self).input_email@.len() > 0)
                ==> *final(self) == *old(self),
    {
        if matches!(self.enroll_state, EnrollmentState::Formulaire) && self.form_is_valid() {
            self.enroll_state = EnrollmentState::AttenteDoigt;
        }
    }

    /// The finger was detected: the wizard sends the registration, whose
    /// arguments are returned.
    pub fn finger_detected(&mut self) -> (r: Option<RegistrationArgs>)
        ensures
            old(self).enroll_state is AttenteDoigt ==> {
                &&& *final(self) == (DemoState {
                    enroll_state: EnrollmentState::Communication,
                    ..*old(self)
                })
                &&& r matches Some(a) && a.first_name == old(self).input_firstname && a.last_name
                    == old(self).input_lastname && a.email == old(self).input_email && a.role
                    == old(self).input_role && a.hash@ == "hash_biometrique_secure_123"@
            },
            !(old(self).enroll_state is AttenteDoigt) ==> *final(self) == *old(self) && r is None,
    {
        if !matches!(self.enroll_state, EnrollmentState::AttenteDoigt) {
            return None;
        }
        self.enroll_state = EnrollmentState::Communication;
        Some(
            RegistrationArgs {
                first_name: self.input_firstname.clone(),
                last_name: self.input_lastname.clone(),
                email: self.input_email.clone(),
                role: self.input_role.clone(),
                hash: String::from_str("hash_biometrique_secure_123"),
            },
        )
    }

    /// The registration ended: the wizard shows its message or its error.
    pub fn registration_done(&mut self, result: Result<String, String>)
        ensures
            match result {
                Ok(msg) => *final(self) == (DemoState {
                    enroll_state: EnrollmentState::Succes(msg),
                    ..*old(self)
                }),
                Err(e) => *final(self) == (DemoState {
                    enroll_state: EnrollmentState::Erreur(e),
                    ..*old(self)
                }),
            },
    {
        match result {
            Ok(msg) => self.enroll_state = EnrollmentState::Succes(msg),
            Err(e) => self.enroll_state = EnrollmentState::Erreur(e),
        }
    }

    /// Back to the form, from waiting for the finger or from an error.
    pub fn back_to_form(&mut self)
        ensures
            (old(self).enroll_state is AttenteDoigt || old(self).enroll_state is Erreur)
                ==> *final(self) == (DemoState { enroll_state: EnrollmentState::Formulaire, ..*old(self) }),
            !(old(self).enroll_state is AttenteDoigt || old(self).enroll_state is Erreur)
                ==> *final(self) == *old(self),
    {
        if matches!(self.enroll_state, EnrollmentState::AttenteDoigt) || matches!(
            self.enroll_state,
            EnrollmentState::Erreur(_)
        ) {
            self.enroll_state = EnrollmentState::Formulaire;
        }
    }

    /// After a success, starts over with an empty form.
    pub fn enroll_another(&mut self)
        ensures
            old(self).enroll_state is Succes ==> {
                &&& *final(self) == (DemoState {
                    input_firstname: final(self).input_firstname,
                    input_lastname: final(self).input_lastname,
                    input_email: final(self).input_email,
                    input_role: final(self).input_role,
                    enroll_state: EnrollmentState::Formulaire,
                    ..*old(self)
                })
                &&& final(self).input_firstname@.len() == 0
                &&& final(self).input_lastname@.len() == 0
                &&& final(self).input_email@.len() == 0
                &&& final(self).input_role@.len() == 0
            },
            !(old(self).enroll_state is Succes) ==> *final(self) == *old(self),
    {
        if matches!(self.enroll_state, EnrollmentState::Succes(_)) {
            self.input_firstname = String::new();
            self.input_lastname = String::new();
            self.input_email = String::new();
            self.input_role = String::new();
            self.enroll_state = EnrollmentState::Formulaire;
        }
    }

    /// Takes the token's answer to a status request, given the JSON text of
    /// its `status` field (`None` when the answer is not JSON): an answer that
    /// is not JSON changes nothing; otherwise the lock state follows the field
    /// and the status line shows it. A failed request shows its error.
    pub fn apply_status(&mut self, reply: Result<String, String>, status: Option<String>)
        ensures
            old(self).same_but_lock(*final(self)),
            match reply {
                Err(e) => *final(self) == (DemoState { status_text: e, ..*old(self) }),
                Ok(_) => match status {
                    None => *final(self) == *old(self),
                    Some(s) => final(self).is_unlocked == (s@ == unlocked_text())
                        && final(self).status_text@ == "Statut reçu : "@ + s@,
                },
            },
    {
        match reply {
            Err(e) => {
                self.status_text = e;
            },
            Ok(_) => match status {
                None => {},
                Some(s) => {
                    self.is_unlocked = text_eq(s.as_str(), "\"UNLOCKED\"");
                    self.status_text = join("Statut reçu : ", s.as_str());
                },
            },
        }
    }

    /// Takes the token's answer to a status request.
    pub fn status_received(&mut self, reply: Result<String, String>)
        ensures
            old(self).same_but_lock(*final(self)),
            match reply {
                Err(e) => *final(self) == (DemoState { status_text: e, ..*old(self) }),
                Ok(text) => match json_field_text(text@, "status"@) {
                    None => *final(self) == *old(self),
                    Some(s) => final(self).is_unlocked == (s == unlocked_text())
                        && final(self).status_text@ == "Statut reçu : "@ + s,
                },
            },
    {
        let status = match &reply {
            Ok(text) => json_field(text.as_str(), "status"),
            Err(_) => None,
        };
        self.apply_status(reply, status)
    }

    /// Takes the token's answer to an unlock request, given the JSON text of
    /// its `status` field: the token is shown open only when the field is the
    /// string `UNLOCKED`; anything else changes nothing. A failed request
    /// shows its error.
    pub fn apply_unlock(&mut self, reply: Result<String, String>, status: Option<String>)
        ensures
            old(self).same_but_lock(*final(self)),
            match reply {
                Err(e) => *final(self) == (DemoState { status_text: e, ..*old(self) }),
                Ok(_) => if status matches Some(s) && s@ == unlocked_text() {
                    final(self).is_unlocked && final(self).status_text@
                        == "Succès : Clé déverrouillée !"@
                } else {
                    *final(self) == *old(self)
                },
            },
    {
        match reply {
            Err(e) => {
                self.status_text = e;
            },
            Ok(_) => match status {
                Some(s) => {
                    if text_eq(s.as_str(), "\"UNLOCKED\"") {
                        self.is_unlocked = true;
                        self.status_text = String::from_str("Succès : Clé déverrouillée !");
                    }
                },
                None => {},
            },
        }
    }

    /// Takes the token's answer to an unlock request.
    pub fn unlock_received(&mut self, reply: Result<String, String>)
        ensures
            old(self).same_but_lock(*final(self)),
            match reply {
                Err(e) => *final(self) == (DemoState { status_text: e, ..*old(self) }),
                Ok(text) => if json_field_text(text@, "status"@) == Some(unlocked_text()) {
                    final(self).is_unlocked && final(self).status_text@
                        == "Succès : Clé déverrouillée !"@
                } else {
                    *final(self) == *old(self)
                },
            },
    {
        let status = match &reply {
            Ok(text) => json_field(text.as_str(), "status"),
            Err(_) => None,
        };
        self.apply_unlock(reply, status)
    }
}

} // verus!
