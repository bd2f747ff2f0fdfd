use bindkey_client::config::AppConfig;
use bindkey_client::effect::{Effect, PortExchange, ServerReply, StatusReply};
use bindkey_client::event_handler::{
    deletion_outcome, handke_api_message, modification_outcome, registration_outcome,
    signature_outcome, users_outcome, verification_outcome, volume_record_outcome,
};
use bindkey_client::password::hash_password_with_salt;
use bindkey_client::protocol::{ApiMessage, LoginSuccessResponse, Page, Role, StatusBindkey, User};
use bindkey_client::share_protocol::{SuccessData, UsbResponse};
use bindkey_client::state::AppState;

fn logged_in() -> AppState {
    let mut s = AppState::new(AppConfig::default());
    s.role_user = Role::ADMIN;
    s.server_token = "tok".to_string();
    s.current_page = Page::Home;
    s.current_port_name = "/dev/ttyACM0".to_string();
    s.usb_connected = true;
    s
}

fn user(first: &str) -> User {
    User {
        id: 1,
        first_name: first.to_string(),
        last_name: "Doe".to_string(),
        email: "a@b.fr".to_string(),
        role: Role::USER,
    }
}

#[test]
fn new_state_is_signed_out() {
    let s = AppState::new(AppConfig::default());
    assert_eq!(s.current_page, Page::Login);
    assert_eq!(s.role_user, Role::NONE);
    assert!(s.server_token.is_empty() && s.users_list.is_empty() && !s.usb_connected);
}

#[test]
fn enrollment_info_starts_registration() {
    let mut s = logged_in();
    s.enroll_firstname = "Jean".to_string();
    s.enroll_lastname = "Mattei".to_string();
    s.enroll_email = "jean@bindkey.com".to_string();
    s.enroll_password = "un-mot-de-passe-long".to_string();
    s.enroll_role = Role::ENROLLEUR;
    let data = UsbResponse::Success(SuccessData::EnrollmentInfo {
        uid: "UID1".to_string(),
        public_key: "PK1".to_string(),
    });
    let e = handke_api_message(&mut s, ApiMessage::EnrollmentUsbSuccess(data));
    assert!(s.enroll_password.is_empty());
    match e {
        Effect::Register { url, token, user } => {
            assert_eq!(url, "https://api.bindkey.local/auth/register");
            assert_eq!(token, "tok");
            assert_eq!(user.first_name, "Jean");
            assert_eq!(user.last_name, "Mattei");
            assert_eq!(user.email, "jean@bindkey.com");
            assert_eq!(user.password, hash_password_with_salt("un-mot-de-passe-long"));
            assert_ne!(user.password, "un-mot-de-passe-long");
            assert_eq!(user.user_role, Role::ENROLLEUR);
            assert_eq!(user.bindkey_uid, "UID1");
            assert_eq!(user.public_key, "PK1");
            assert_eq!(user.bindkey_status, StatusBindkey::ACTIVE);
        }
        _ => panic!("expected a registration"),
    }
}

#[test]
fn token_errors_and_unexpected_data_set_status() {
    let mut s = logged_in();
    let e = handke_api_message(
        &mut s,
        ApiMessage::EnrollmentUsbSuccess(UsbResponse::Error("pas de doigt".to_string())),
    );
    assert!(matches!(e, Effect::Nothing));
    assert_eq!(s.enroll_status, " Erreur Clé USB : pas de doigt");
    handke_api_message(&mut s, ApiMessage::ModificationUsbSuccess(UsbResponse::Success(SuccessData::Signature { signature: "s".to_string() })));
    assert_eq!(s.enroll_status, "Erreur Protocole : Données inattendues reçues");
    handke_api_message(&mut s, ApiMessage::VolumeCreationSuccess(UsbResponse::Success(SuccessData::Ack)));
    assert_eq!(s.volume_status, "Erreur Protocole : Données inattendues reçues");
    handke_api_message(&mut s, ApiMessage::VolumeInfoReceived(UsbResponse::Error("x".to_string())));
    assert_eq!(s.volume_status, " Erreur Clé USB : x");
}

#[test]
fn acknowledged_modification_sends_role() {
    let mut s = logged_in();
    s.enroll_email = "u@bindkey.com".to_string();
    s.enroll_role = Role::USER;
    let e = handke_api_message(&mut s, ApiMessage::ModificationUsbSuccess(UsbResponse::Success(SuccessData::Ack)));
    match e {
        Effect::Modify { url, token, change } => {
            assert_eq!(url, "https://api.bindkey.local/users/modify");
            assert_eq!(token, "tok");
            assert_eq!(change.email, "u@bindkey.com");
            assert_eq!(change.user_role, Role::USER);
        }
        _ => panic!("expected a modification"),
    }
}

#[test]
fn errors_stop_loading() {
    let mut s = logged_in();
    s.is_loading = true;
    handke_api_message(&mut s, ApiMessage::LoginError("nope".to_string()));
    assert_eq!(s.login_status, "nope");
    assert!(!s.is_loading);
    s.is_loading = true;
    handke_api_message(&mut s, ApiMessage::EnrollmentError("bad".to_string()));
    assert_eq!(s.enroll_status, "bad");
    assert!(!s.is_loading);
    handke_api_message(&mut s, ApiMessage::EnrollmentSuccess("ok".to_string()));
    assert_eq!(s.enroll_status, "ok");
}

#[test]
fn challenge_goes_to_token() {
    let mut s = logged_in();
    let e = handke_api_message(&mut s, ApiMessage::ReceivedChallenge("abc".to_string(), 9));
    assert!(s.is_loading);
    assert_eq!(s.login_status, "Challenge reçue, communication avec la bindkey en cours");
    match e {
        Effect::SignChallenge { port_name, command, session_id } => {
            assert_eq!(port_name, "/dev/ttyACM0");
            assert_eq!(command, "challenge=abc");
            assert_eq!(session_id, 9);
        }
        _ => panic!("expected a signing"),
    }
}

#[test]
fn challenge_without_port_reports_missing_token() {
    let mut s = logged_in();
    s.current_port_name.clear();
    let e = handke_api_message(&mut s, ApiMessage::ReceivedChallenge("abc".to_string(), 9));
    match e {
        Effect::Deliver(ApiMessage::LoginError(t)) => assert_eq!(t, "Clé non détectée"),
        _ => panic!("expected an error"),
    }
}

#[test]
fn signed_challenge_is_verified() {
    let mut s = logged_in();
    let e = handke_api_message(&mut s, ApiMessage::SignedChallenge("sig".to_string(), 5));
    assert_eq!(s.login_status, "Signature générée. Vérification finale auprès du serveur");
    match e {
        Effect::VerifySignature { url, session_id, signature } => {
            assert_eq!(url, "https://api.bindkey.local/sessions/verify");
            assert_eq!(session_id, 5);
            assert_eq!(signature, "sig");
        }
        _ => panic!("expected a verification"),
    }
}

#[test]
fn login_success_opens_home() {
    let mut s = AppState::new(AppConfig::default());
    s.login_password = "secret".to_string();
    s.login_status = "en cours".to_string();
    s.is_loading = true;
    handke_api_message(
        &mut s,
        ApiMessage::LoginSuccess(Role::ENROLLEUR, "st".to_string(), "Jean".to_string(), "lt".to_string()),
    );
    assert_eq!(s.current_page, Page::Home);
    assert_eq!(s.role_user, Role::ENROLLEUR);
    assert_eq!(s.server_token, "st");
    assert_eq!(s.first_name_user, "Jean");
    assert_eq!(s.local_token, "lt");
    assert!(s.login_status.is_empty() && s.login_password.is_empty() && !s.is_loading);
}

#[test]
fn created_volume_is_recorded() {
    let mut s = logged_in();
    s.device_name = "disk".to_string();
    s.volume_created_name = "vol".to_string();
    s.volume_created_size = 12;
    let data = UsbResponse::Success(SuccessData::VolumeCreated {
        encrypted_key: "K".to_string(),
        volume_id: "V".to_string(),
    });
    match handke_api_message(&mut s, ApiMessage::VolumeCreationSuccess(data)) {
        Effect::RecordVolume { url, token, volume } => {
            assert_eq!(url, "https://api.bindkey.local/volumes");
            assert_eq!(token, "tok");
            assert_eq!(volume.disk_id, "disk");
            assert_eq!(volume.name, "vol");
            assert_eq!(volume.size_bytes, 12);
            assert_eq!(volume.encrypted_key, "K");
            assert_eq!(volume.id, "V");
        }
        _ => panic!("expected a record"),
    }
}

#[test]
fn device_info_fills_disk_fields() {
    let mut s = logged_in();
    let data = UsbResponse::Success(SuccessData::DeviceInfo {
        device_name: "Clé".to_string(),
        device_size: 64,
        device_available_size: 45,
        mount_id: 2,
    });
    handke_api_message(&mut s, ApiMessage::VolumeInfoReceived(data));
    assert_eq!(s.device_name, "Clé");
    assert_eq!(s.device_size, 64);
    assert_eq!(s.device_available_space, 45);
    assert_eq!(s.mount_id, 2);
    assert_eq!(s.volume_status, "Disque analysé avec succès.");
    handke_api_message(&mut s, ApiMessage::VolumeCreationStatus("st".to_string()));
    assert_eq!(s.volume_status, "st");
}

#[test]
fn users_are_fetched_and_counted() {
    let mut s = logged_in();
    match handke_api_message(&mut s, ApiMessage::FetchUsers) {
        Effect::ListUsers { url, token } => {
            assert_eq!(url, "https://api.bindkey.local/admin/users");
            assert_eq!(token, "tok");
        }
        _ => panic!("expected a fetch"),
    }
    handke_api_message(&mut s, ApiMessage::UserFetched(vec![user("A"), user("B"), user("C")]));
    assert_eq!(s.users_list.len(), 3);
    assert_eq!(s.enroll_status, "Liste mise à jour : 3");
    handke_api_message(&mut s, ApiMessage::FetchUsersError("boom".to_string()));
    assert_eq!(s.enroll_status, "Erreur dans la mise à jour de la liste: boom");
}

#[test]
fn user_deletion_uses_uuid_text() {
    let mut s = logged_in();
    let id = 0x0123456789abcdef0011223344556677u128;
    match handke_api_message(&mut s, ApiMessage::DeleteUser(id)) {
        Effect::RemoveUser { url, token } => {
            assert_eq!(url, "https://api.bindkey.local/users/01234567-89ab-cdef-0011-223344556677");
            assert_eq!(token, "tok");
        }
        _ => panic!("expected a deletion"),
    }
    let e = handke_api_message(&mut s, ApiMessage::UserDeleted);
    assert_eq!(s.enroll_status, "Utilisateur bien supprimé");
    assert!(matches!(e, Effect::Deliver(ApiMessage::FetchUsers)));
    handke_api_message(&mut s, ApiMessage::DeleteUserError("e".to_string()));
    assert_eq!(s.enroll_status, "Échec de la suppression: e");
}

#[test]
fn logout_clears_session() {
    let mut s = logged_in();
    s.first_name_user = "Jean".to_string();
    s.login_email = "jean@bindkey.com".to_string();
    s.device_name = "disk".to_string();
    s.device_available_space = 3;
    s.device_size = 8;
    s.volume_created_size = 2;
    s.users_list = vec![user("A")];
    let e = handke_api_message(&mut s, ApiMessage::LogOutSuccess);
    assert!(matches!(e, Effect::Nothing));
    assert_eq!(s.current_page, Page::Login);
    assert_eq!(s.role_user, Role::NONE);
    assert!(s.server_token.is_empty() && s.first_name_user.is_empty() && s.device_name.is_empty());
    assert_eq!((s.device_available_space, s.device_size, s.volume_created_size), (0, 0, 0));
    assert!(s.users_list.is_empty());
    assert_eq!(s.login_status, " Déconnexion réussie.");
    assert_eq!(s.login_email, "jean@bindkey.com");
    assert_eq!(s.current_port_name, "/dev/ttyACM0");
}

#[test]
fn logout_error_is_printed() {
    let mut s = logged_in();
    match handke_api_message(&mut s, ApiMessage::LogOutError("x".to_string())) {
        Effect::Print(t) => assert_eq!(t, "x"),
        _ => panic!("expected a print"),
    }
}

fn text_of(m: ApiMessage) -> String {
    match m {
        ApiMessage::EnrollmentSuccess(t)
        | ApiMessage::EnrollmentError(t)
        | ApiMessage::LoginError(t)
        | ApiMessage::VolumeCreationStatus(t)
        | ApiMessage::FetchUsersError(t)
        | ApiMessage::DeleteUserError(t) => t,
        _ => panic!("expected a text message"),
    }
}

#[test]
fn registration_and_modification_outcomes() {
    assert_eq!(text_of(registration_outcome(StatusReply::Success)), " Enrolé (API OK) !");
    assert_eq!(text_of(modification_outcome(StatusReply::Success)), " Modifié (API OK) !");
    assert_eq!(
        text_of(registration_outcome(StatusReply::Refused("403 Forbidden".to_string()))),
        " Refus serveur (API KO)"
    );
    assert_eq!(
        text_of(modification_outcome(StatusReply::Unreachable("timeout".to_string()))),
        " Erreur Réseau : timeout"
    );
}

#[test]
fn signature_outcomes() {
    let pairs = vec![("SIG".to_string(), "beef".to_string())];
    match signature_outcome(PortExchange::Replied(pairs), 4) {
        ApiMessage::SignedChallenge(s, id) => {
            assert_eq!(s, "beef");
            assert_eq!(id, 4);
        }
        _ => panic!("expected a signature"),
    }
    assert_eq!(
        text_of(signature_outcome(PortExchange::Replied(Vec::new()), 4)),
        "La clé a répondu mais sans SIG"
    );
    assert_eq!(
        text_of(signature_outcome(PortExchange::OpenFailed("busy".to_string()), 4)),
        "Impossible d'ouvrir le port: busy"
    );
    assert_eq!(
        text_of(signature_outcome(PortExchange::Failed("io".to_string()), 4)),
        "Erreur Com USB: io"
    );
    assert_eq!(text_of(signature_outcome(PortExchange::NoPort, 4)), "Clé non détectée");
}

#[test]
fn verification_outcomes() {
    let resp = LoginSuccessResponse {
        server_token: "s".to_string(),
        role: Role::USER,
        first_name: "F".to_string(),
        local_token: "l".to_string(),
    };
    match verification_outcome(ServerReply::Accepted(resp)) {
        ApiMessage::LoginSuccess(r, s, f, l) => {
            assert_eq!((r, s.as_str(), f.as_str(), l.as_str()), (Role::USER, "s", "F", "l"));
        }
        _ => panic!("expected a success"),
    }
    assert_eq!(
        text_of(verification_outcome(ServerReply::Refused("401".to_string()))),
        "Signature refusée par le serveur"
    );
    assert_eq!(text_of(verification_outcome(ServerReply::Unreadable("json".to_string()))), "json");
    assert_eq!(text_of(verification_outcome(ServerReply::Unreachable("net".to_string()))), "net");
}

#[test]
fn volume_record_outcomes() {
    assert_eq!(text_of(volume_record_outcome(StatusReply::Success)), "Volume enregistré sur le serv !");
    assert_eq!(
        text_of(volume_record_outcome(StatusReply::Refused("500".to_string()))),
        " Refus serveur (API KO)"
    );
    assert_eq!(
        text_of(volume_record_outcome(StatusReply::Unreachable("dns".to_string()))),
        " Erreur Réseau : dns"
    );
}

#[test]
fn users_and_deletion_outcomes() {
    match users_outcome(ServerReply::Accepted(vec![user("A")])) {
        ApiMessage::UserFetched(u) => assert_eq!(u.len(), 1),
        _ => panic!("expected users"),
    }
    assert_eq!(
        text_of(users_outcome(ServerReply::Refused("500 Internal Server Error".to_string()))),
        "Erreur serveur: 500 Internal Server Error"
    );
    assert_eq!(text_of(users_outcome(ServerReply::Unreachable("x".to_string()))), "Erreur réseau: x");
    assert_eq!(text_of(users_outcome(ServerReply::Unreadable("y".to_string()))), "y");
    assert!(matches!(deletion_outcome(StatusReply::Success), ApiMessage::UserDeleted));
    assert_eq!(
        text_of(deletion_outcome(StatusReply::Refused("404 Not Found".to_string()))),
        "Erreur lors de la suppression: 404 Not Found"
    );
    assert_eq!(text_of(deletion_outcome(StatusReply::Unreachable("z".to_string()))), "Erreur serveur: z");
}
