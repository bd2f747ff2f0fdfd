use vstd::prelude::*;

use crate::effect::{Effect, PortExchange, ServerReply, StatusReply};
use crate::password::{hash_password_with_salt, salted_password_hash};
use crate::protocol::{
    ApiMessage, LoginSuccessResponse, ModifyPayload, Page, RegisterPayload, Role, StatusBindkey,
    User, VolumeCreatedInfo,
};
use crate::share_protocol::{SuccessData, UsbResponse};
use crate::state::AppState;
use crate::usb_service::{pair_views, reply_get, reply_value};
use crate::text::{join, decimal, to_decimal, uuid_text, uuid_to_text};

verus! {

/// Status shown when the token answers with data of the wrong kind.
pub open spec fn unexpected_data_text() -> Seq<char> {
    "Erreur Protocole : Données inattendues reçues"@
}

/// Status shown when the token reports an error.
pub open spec fn token_error_text(msg: Seq<char>) -> Seq<char> {
    " Erreur Clé USB : "@ + msg
}

/// `e` registers the user typed in the enrollment form of `s`, with the
/// token's identity `uid` and public key `public_key`.
pub open spec fn is_registration(e: Effect, s: AppState, uid: String, public_key: String) -> bool {
    match e {
        Effect::Register { url, token, user: payload } => {
            &&& url@ == s.config.api_url@ + "/auth/register"@
            &&& token == s.server_token
            &&& payload.first_name == s.enroll_firstname
            &&& payload.last_name == s.enroll_lastname
            &&& payload.email == s.enroll_email
            &&& payload.password@ == salted_password_hash(s.enroll_password@)
            &&& payload.user_role == s.enroll_role
            &&& payload.bindkey_uid == uid
            &&& payload.bindkey_status == StatusBindkey::ACTIVE
            &&& payload.public_key == public_key
        },
        _ => false,
    }
}

/// `e` sends the role chosen in the enrollment form of `s` for its email.
pub open spec fn is_modification(e: Effect, s: AppState) -> bool {
    match e {
        Effect::Modify { url, token, change: payload } => {
            &&& url@ == s.config.api_url@ + "/users/modify"@
            &&& token == s.server_token
            &&& payload.email == s.enroll_email
            &&& payload.user_role == s.enroll_role
        },
        _ => false,
    }
}

/// `e` records on the server the volume that the token created from the
/// volume form of `s`.
pub open spec fn is_volume_record(
    e: Effect,
    s: AppState,
    encrypted_key: String,
    volume_id: String,
) -> bool {
    match e {
        Effect::RecordVolume { url, token, volume: payload } => {
            &&& url@ == s.config.api_url@ + "/volumes"@
            &&& token == s.server_token
            &&& payload.disk_id == s.device_name
            &&& payload.name == s.volume_created_name
            &&& payload.size_bytes == s.volume_created_size
            &&& payload.encrypted_key == encrypted_key
            &&& payload.id == volume_id
        },
        _ => false,
    }
}

/// What a message does to the state and which work it starts.
pub open spec fn handles(s: AppState, m: ApiMessage, t: AppState, e: Effect) -> bool {
    match m {
        ApiMessage::EnrollmentSuccess(text) => t == AppState { enroll_status: text, ..s }
            && e is Nothing,
        ApiMessage::EnrollmentUsbSuccess(data) => match data {
            UsbResponse::Success(SuccessData::EnrollmentInfo { uid, public_key }) => {
                &&& t == AppState { enroll_password: t.enroll_password, ..s }
                &&& t.enroll_password@.len() == 0
                &&& is_registration(e, s, uid, public_key)
            },
            UsbResponse::Error(msg) => t == AppState { enroll_status: t.enroll_status, ..s }
                && t.enroll_status@ == token_error_text(msg@) && e is Nothing,
            _ => t == AppState { enroll_status: t.enroll_status, ..s } && t.enroll_status@
                == unexpected_data_text() && e is Nothing,
        },
        ApiMessage::ModificationUsbSuccess(data) => match data {
            UsbResponse::Success(SuccessData::Ack) => t == s && is_modification(e, s),
            UsbResponse::Error(msg) => t == AppState { enroll_status: t.enroll_status, ..s }
                && t.enroll_status@ == token_error_text(msg@) && e is Nothing,
            _ => t == AppState { enroll_status: t.enroll_status, ..s } && t.enroll_status@
                == unexpected_data_text() && e is Nothing,
        },
        ApiMessage::LoginError(text) => t == AppState { login_status: text, is_loading: false, ..s }
            && e is Nothing,
        ApiMessage::EnrollmentError(text) => t == AppState {
            enroll_status: text,
            is_loading: false,
            ..s
        } && e is Nothing,
        ApiMessage::ReceivedChallenge(challenge, session_id) => {
            &&& t == AppState { login_status: t.login_status, is_loading: true, ..s }
            &&& t.login_status@ == "Challenge reçue, communication avec la bindkey en cours"@
            &&& if s.current_port_name@.len() == 0 {
                e matches Effect::Deliver(ApiMessage::LoginError(err)) && err@
                    == "Clé non détectée"@
            } else {
                e matches Effect::SignChallenge { port_name, command, session_id: id }
                    && port_name == s.current_port_name && command@ == "challenge="@
                    + challenge@ && id == session_id
            }
        },
        ApiMessage::SignedChallenge(signature, session_id) => {
            &&& t == AppState { login_status: t.login_status, is_loading: true, ..s }
            &&& t.login_status@ == "Signature générée. Vérification finale auprès du serveur"@
            &&& e matches Effect::VerifySignature { url, session_id: id, signature: sig }
                && url@ == s.config.api_url@ + "/sessions/verify"@ && id == session_id && sig
                == signature
        },
        ApiMessage::LoginSuccess(role, token, first_name, local_token) => {
            &&& t == AppState {
                role_user: role,
                server_token: token,
                first_name_user: first_name,
                local_token: local_token,
                login_status: t.login_status,
                login_password: t.login_password,
                is_loading: false,
                current_page: Page::Home,
                ..s
            }
            &&& t.login_status@.len() == 0
            &&& t.login_password@.len() == 0
            &&& e is Nothing
        },
        ApiMessage::VolumeCreationSuccess(data) => match data {
            UsbResponse::Success(SuccessData::VolumeCreated { encrypted_key, volume_id }) => t
                == s && is_volume_record(e, s, encrypted_key, volume_id),
            UsbResponse::Error(msg) => t == AppState { volume_status: t.volume_status, ..s }
                && t.volume_status@ == token_error_text(msg@) && e is Nothing,
            _ => t == AppState { volume_status: t.volume_status, ..s } && t.volume_status@
                == unexpected_data_text() && e is Nothing,
        },
        ApiMessage::VolumeCreationStatus(text) => t == AppState { volume_status: text, ..s }
            && e is Nothing,
        ApiMessage::VolumeInfoReceived(data) => match data {
            UsbResponse::Success(
                SuccessData::DeviceInfo { device_name, device_size, device_available_size, mount_id },
            ) => {
                &&& t == AppState {
                    device_name: device_name,
                    device_size: device_size,
                    device_available_space: device_available_size,
                    mount_id: mount_id,
                    volume_status: t.volume_status,
                    ..s
                }
                &&& t.volume_status@ == "Disque analysé avec succès."@
                &&& e is Nothing
            },
            UsbResponse::Error(msg) => t == AppState { volume_status: t.volume_status, ..s }
                && t.volume_status@ == token_error_text(msg@) && e is Nothing,
            _ => t == AppState { volume_status: t.volume_status, ..s } && t.volume_status@
                == unexpected_data_text() && e is Nothing,
        },
        ApiMessage::FetchUsers => {
            &&& t == s
            &&& e matches Effect::ListUsers { url, token } && url@ == s.config.api_url@
                + "/admin/users"@ && token == s.server_token
        },
        ApiMessage::UserFetched(users) => {
            &&& t == AppState { users_list: users, enroll_status: t.enroll_status, ..s }
            &&& t.enroll_status@ == "Liste mise à jour : "@ + decimal(users@.len())
            &&& e is Nothing
        },
        ApiMessage::FetchUsersError(err) => {
            &&& t == AppState { enroll_status: t.enroll_status, ..s }
            &&& t.enroll_status@ == "Erreur dans la mise à jour de la liste: "@ + err@
            &&& e is Nothing
        },
        ApiMessage::DeleteUser(user_id) => {
            &&& t == s
            &&& e matches Effect::RemoveUser { url, token } && url@ == s.config.api_url@
                + "/users/"@ + uuid_text(user_id as nat) && token == s.server_token
        },
        ApiMessage::UserDeleted => {
            &&& t == AppState { enroll_status: t.enroll_status, ..s }
            &&& t.enroll_status@ == "Utilisateur bien supprimé"@
            &&& e matches Effect::Deliver(ApiMessage::FetchUsers)
        },
        ApiMessage::DeleteUserError(err) => {
            &&& t == AppState { enroll_status: t.enroll_status, ..s }
            &&& t.enroll_status@ == "Échec de la suppression: "@ + err@
            &&& e is Nothing
        },
        ApiMessage::LogOutSuccess => {
            &&& t == AppState {
                current_page: Page::Login,
                role_user: Role::NONE,
                server_token: t.server_token,
                local_token: t.local_token,
                login_password: t.login_password,
                first_name_user: t.first_name_user,
                enroll_firstname: t.enroll_firstname,
                enroll_lastname: t.enroll_lastname,
                enroll_email: t.enroll_email,
                enroll_status: t.enroll_status,
                device_available_space: 0,
                device_name: t.device_name,
                device_size: 0,
                volume_created_name: t.volume_created_name,
                volume_created_size: 0,
                volume_status: t.volume_status,
                users_list: t.users_list,
                login_status: t.login_status,
                ..s
            }
            &&& t.is_signed_out()
            &&& t.login_status@ == " Déconnexion réussie."@
            &&& e is Nothing
        },
        ApiMessage::LogOutError(err) => t == s && e == Effect::Print(err),
    }
}

/// Applies one event to the client state and returns the work it starts.
pub fn handke_api_message(app: &mut AppState, message: ApiMessage) -> (r: Effect)
    ensures
        handles(*old(app), message, *final(app), r),
{
    match message {
        ApiMessage::EnrollmentSuccess(text) => {
            app.enroll_status = text;
            Effect::Nothing
        },
        ApiMessage::EnrollmentUsbSuccess(data) => match data {
            UsbResponse::Success(SuccessData::EnrollmentInfo { uid, public_key }) => {
                let payload = RegisterPayload {
                    first_name: app.enroll_firstname.clone(),
                    last_name: app.enroll_lastname.clone(),
                    email: app.enroll_email.clone(),
                    password: hash_password_with_salt(app.enroll_password.as_str()),
                    user_role: app.enroll_role,
                    bindkey_uid: uid,
                    bindkey_status: StatusBindkey::ACTIVE,
                    public_key,
                };
                let url = join(app.config.api_url.as_str(), "/auth/register");
                let token = app.server_token.clone();
                app.enroll_password = String::new();
                Effect::Register { url, token, user: payload }
            },
            UsbResponse::Error(msg) => {
                app.enroll_status = join(" Erreur Clé USB : ", msg.as_str());
                Effect::Nothing
            },
            _ => {
                app.enroll_status = String::from_str("Erreur Protocole : Données inattendues reçues");
                Effect::Nothing
            },
        },
        ApiMessage::ModificationUsbSuccess(data) => match data {
            UsbResponse::Success(SuccessData::Ack) => {
                let payload = ModifyPayload {
                    email: app.enroll_email.clone(),
                    user_role: app.enroll_role,
                };
                let url = join(app.config.api_url.as_str(), "/users/modify");
                Effect::Modify { url, token: app.server_token.clone(), change: payload }
            },
            UsbResponse::Error(msg) => {
                app.enroll_status = join(" Erreur Clé USB : ", msg.as_str());
                Effect::Nothing
            },
            _ => {
                app.enroll_status = String::from_str("Erreur Protocole : Données inattendues reçues");
                Effect::Nothing
            },
        },
        ApiMessage::LoginError(text) => {
            app.login_status = text;
            app.is_loading = false;
            Effect::Nothing
        },
        ApiMessage::EnrollmentError(text) => {
            app.enroll_status = text;
            app.is_loading = false;
            Effect::Nothing
        },
        ApiMessage::ReceivedChallenge(challenge, session_id) => {
            app.login_status = String::from_str(
                "Challenge reçue, communication avec la bindkey en cours",
            );
            app.is_loading = true;
            if app.current_port_name.as_str().is_empty() {
                Effect::Deliver(ApiMessage::LoginError(String::from_str("Clé non détectée")))
            } else {
                Effect::SignChallenge {
                    port_name: app.current_port_name.clone(),
                    command: join("challenge=", challenge.as_str()),
                    session_id,
                }
            }
        },
        ApiMessage::SignedChallenge(signature, session_id) => {
            app.login_status = String::from_str(
                "Signature générée. Vérification finale auprès du serveur",
            );
            app.is_loading = true;
            let url = join(app.config.api_url.as_str(), "/sessions/verify");
            Effect::VerifySignature { url, session_id, signature }
        },
        ApiMessage::LoginSuccess(role, token, first_name, local_token) => {
            app.role_user = role;
            app.server_token = token;
            app.first_name_user = first_name;
            app.local_token = local_token;
            app.login_status = String::new();
            app.login_password = String::new();
            app.is_loading = false;
            app.current_page = Page::Home;
            Effect::Nothing
        },
        ApiMessage::VolumeCreationSuccess(data) => match data {
            UsbResponse::Success(SuccessData::VolumeCreated { encrypted_key, volume_id }) => {
                let payload = VolumeCreatedInfo {
                    disk_id: app.device_name.clone(),
                    name: app.volume_created_name.clone(),
                    size_bytes: app.volume_created_size,
                    encrypted_key,
                    id: volume_id,
                };
                let url = join(app.config.api_url.as_str(), "/volumes");
                Effect::RecordVolume { url, token: app.server_token.clone(), volume: payload }
            },
            UsbResponse::Error(msg) => {
                app.volume_status = join(" Erreur Clé USB : ", msg.as_str());
                Effect::Nothing
            },
            _ => {
                app.volume_status = String::from_str("Erreur Protocole : Données inattendues reçues");
                Effect::Nothing
            },
        },
        ApiMessage::VolumeCreationStatus(text) => {
            app.volume_status = text;
            Effect::Nothing
        },
        ApiMessage::VolumeInfoReceived(data) => match data {
            UsbResponse::Success(
                SuccessData::DeviceInfo { device_name, device_size, device_available_size, mount_id },
            ) => {
                app.device_name = device_name;
                app.device_size = device_size;
                app.device_available_space = device_available_size;
                app.mount_id = mount_id;
                app.volume_status = String::from_str("Disque analysé avec succès.");
                Effect::Nothing
            },
            UsbResponse::Error(msg) => {
                app.volume_status = join(" Erreur Clé USB : ", msg.as_str());
                Effect::Nothing
            },
            _ => {
                app.volume_status = String::from_str("Erreur Protocole : Données inattendues reçues");
                Effect::Nothing
            },
        },
        ApiMessage::FetchUsers => {
            let url = join(app.config.api_url.as_str(), "/admin/users");
            Effect::ListUsers { url, token: app.server_token.clone() }
        },
        ApiMessage::UserFetched(users) => {
            let count = to_decimal(users.len() as u64);
            app.users_list = users;
            app.enroll_status = join("Liste mise à jour : ", count.as_str());
            Effect::Nothing
        },
        ApiMessage::FetchUsersError(err) => {
            app.enroll_status = join("Erreur dans la mise à jour de la liste: ", err.as_str());
            Effect::Nothing
        },
        ApiMessage::DeleteUser(user_id) => {
            let base = join(app.config.api_url.as_str(), "/users/");
            let id = uuid_to_text(user_id);
            let url = join(base.as_str(), id.as_str());
            Effect::RemoveUser { url, token: app.server_token.clone() }
        },
        ApiMessage::UserDeleted => {
            app.enroll_status = String::from_str("Utilisateur bien supprimé");
            Effect::Deliver(ApiMessage::FetchUsers)
        },
        ApiMessage::DeleteUserError(err) => {
            app.enroll_status = join("Échec de la suppression: ", err.as_str());
            Effect::Nothing
        },
        ApiMessage::LogOutSuccess => {
            app.current_page = Page::Login;
            app.role_user = Role::NONE;
            app.server_token = String::new();
            app.local_token = String::new();
            app.login_password = String::new();
            app.first_name_user = String::new();
            app.enroll_firstname = String::new();
            app.enroll_lastname = String::new();
            app.enroll_email = String::new();
            app.enroll_status = String::new();
            app.device_available_space = 0;
            app.device_name = String::new();
            app.device_size = 0;
            app.volume_created_name = String::new();
            app.volume_created_size = 0;
            app.volume_status = String::new();
            app.users_list = Vec::new();
            app.login_status = String::from_str(" Déconnexion réussie.");
            Effect::Nothing
        },
        ApiMessage::LogOutError(err) => Effect::Print(err),
    }
}

/// The event that ends a registration (`enrolled`) or a change of role.
pub open spec fn user_update_outcome(reply: StatusReply, done: Seq<char>, r: ApiMessage) -> bool {
    match reply {
        StatusReply::Success => r matches ApiMessage::EnrollmentSuccess(t) && t@ == done,
        StatusReply::Refused(_) => r matches ApiMessage::EnrollmentError(t) && t@
            == " Refus serveur (API KO)"@,
        StatusReply::Unreachable(e) => r matches ApiMessage::EnrollmentError(t) && t@
            == " Erreur Réseau : "@ + e@,
    }
}

fn user_update_message(reply: StatusReply, done: &str) -> (r: ApiMessage)
    ensures
        user_update_outcome(reply, done@, r),
{
    match reply {
        StatusReply::Success => ApiMessage::EnrollmentSuccess(String::from_str(done)),
        StatusReply::Refused(_) => ApiMessage::EnrollmentError(
            String::from_str(" Refus serveur (API KO)"),
        ),
        StatusReply::Unreachable(e) => ApiMessage::EnrollmentError(
            join(" Erreur Réseau : ", e.as_str()),
        ),
    }
}

/// The event that ends the registration of a new user.
pub fn registration_outcome(reply: StatusReply) -> (r: ApiMessage)
    ensures
        user_update_outcome(reply, " Enrolé (API OK) !"@, r),
{
    user_update_message(reply, " Enrolé (API OK) !")
}

/// The event that ends a change of a user's role.
pub fn modification_outcome(reply: StatusReply) -> (r: ApiMessage)
    ensures
        user_update_outcome(reply, " Modifié (API OK) !"@, r),
{
    user_update_message(reply, " Modifié (API OK) !")
}

/// The event that ends the signing of a challenge by the token.
pub fn signature_outcome(exchange: PortExchange, session_id: u128) -> (r: ApiMessage)
    ensures
        match exchange {
            PortExchange::NoPort => r matches ApiMessage::LoginError(t) && t@ == "Clé non détectée"@,
            PortExchange::OpenFailed(e) => r matches ApiMessage::LoginError(t) && t@
                == "Impossible d'ouvrir le port: "@ + e@,
            PortExchange::Replied(pairs) => match reply_value(pair_views(pairs@), "SIG"@) {
                Some(sig) => r matches ApiMessage::SignedChallenge(s, id) && s@ == sig && id
                    == session_id,
                None => r matches ApiMessage::LoginError(t) && t@
                    == "La clé a répondu mais sans SIG"@,
            },
            PortExchange::Failed(e) => r matches ApiMessage::LoginError(t) && t@
                == "Erreur Com USB: "@ + e@,
        },
{
    match exchange {
        PortExchange::NoPort => ApiMessage::LoginError(String::from_str("Clé non détectée")),
        PortExchange::OpenFailed(e) => ApiMessage::LoginError(
            join("Impossible d'ouvrir le port: ", e.as_str()),
        ),
        PortExchange::Replied(pairs) => match reply_get(&pairs, "SIG") {
            Some(sig) => ApiMessage::SignedChallenge(sig, session_id),
            None => ApiMessage::LoginError(String::from_str("La clé a répondu mais sans SIG")),
        },
        PortExchange::Failed(e) => ApiMessage::LoginError(join("Erreur Com USB: ", e.as_str())),
    }
}

/// The event that ends the server's check of a signed challenge.
pub fn verification_outcome(reply: ServerReply<LoginSuccessResponse>) -> (r: ApiMessage)
    ensures
        match reply {
            ServerReply::Accepted(resp) => r == ApiMessage::LoginSuccess(
                resp.role,
                resp.server_token,
                resp.first_name,
                resp.local_token,
            ),
            ServerReply::Unreadable(e) => r == ApiMessage::LoginError(e),
            ServerReply::Refused(_) => r matches ApiMessage::LoginError(t) && t@
                == "Signature refusée par le serveur"@,
            ServerReply::Unreachable(e) => r == ApiMessage::LoginError(e),
        },
{
    match reply {
        ServerReply::Accepted(resp) => ApiMessage::LoginSuccess(
            resp.role,
            resp.server_token,
            resp.first_name,
            resp.local_token,
        ),
        ServerReply::Unreadable(e) => ApiMessage::LoginError(e),
        ServerReply::Refused(_) => ApiMessage::LoginError(
            String::from_str("Signature refusée par le serveur"),
        ),
        ServerReply::Unreachable(e) => ApiMessage::LoginError(e),
    }
}

/// The event that ends the recording of a new volume on the server.
pub fn volume_record_outcome(reply: StatusReply) -> (r: ApiMessage)
    ensures
        match reply {
            StatusReply::Success => r matches ApiMessage::VolumeCreationStatus(t) && t@
                == "Volume enregistré sur le serv !"@,
            StatusReply::Refused(_) => r matches ApiMessage::VolumeCreationStatus(t) && t@
                == " Refus serveur (API KO)"@,
            StatusReply::Unreachable(e) => r matches ApiMessage::VolumeCreationStatus(t) && t@
                == " Erreur Réseau : "@ + e@,
        },
{
    match reply {
        StatusReply::Success => ApiMessage::VolumeCreationStatus(
            String::from_str("Volume enregistré sur le serv !"),
        ),
        StatusReply::Refused(_) => ApiMessage::VolumeCreationStatus(
            String::from_str(" Refus serveur (API KO)"),
        ),
        StatusReply::Unreachable(e) => ApiMessage::VolumeCreationStatus(
            join(" Erreur Réseau : ", e.as_str()),
        ),
    }
}

/// The event that ends the fetching of the list of users.
pub fn users_outcome(reply: ServerReply<Vec<User>>) -> (r: ApiMessage)
    ensures
        match reply {
            ServerReply::Accepted(users) => r == ApiMessage::UserFetched(users),
            ServerReply::Unreadable(e) => r == ApiMessage::FetchUsersError(e),
            ServerReply::Refused(status) => r matches ApiMessage::FetchUsersError(t) && t@
                == "Erreur serveur: "@ + status@,
            ServerReply::Unreachable(e) => r matches ApiMessage::FetchUsersError(t) && t@
                == "Erreur réseau: "@ + e@,
        },
{
    match reply {
        ServerReply::Accepted(users) => ApiMessage::UserFetched(users),
        ServerReply::Unreadable(e) => ApiMessage::FetchUsersError(e),
        ServerReply::Refused(status) => ApiMessage::FetchUsersError(
            join("Erreur serveur: ", status.as_str()),
        ),
        ServerReply::Unreachable(e) => ApiMessage::FetchUsersError(
            join("Erreur réseau: ", e.as_str()),
        ),
    }
}

/// The event that ends the deletion of a user.
pub fn deletion_outcome(reply: StatusReply) -> (r: ApiMessage)
    ensures
        match reply {
            StatusReply::Success => r is UserDeleted,
            StatusReply::Refused(status) => r matches ApiMessage::DeleteUserError(t) && t@
                == "Erreur lors de la suppression: "@ + status@,
            StatusReply::Unreachable(e) => r matches ApiMessage::DeleteUserError(t) && t@
                == "Erreur serveur: "@ + e@,
        },
{
    match reply {
        StatusReply::Success => ApiMessage::UserDeleted,
        StatusReply::Refused(status) => ApiMessage::DeleteUserError(
            join("Erreur lors de la suppression: ", status.as_str()),
        ),
        StatusReply::Unreachable(e) => ApiMessage::DeleteUserError(
            join("Erreur serveur: ", e.as_str()),
        ),
    }
}

} // verus!
