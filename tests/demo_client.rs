use bindkey_client::demo::{DemoPage, DemoState, EnrollmentState, UserRole};

fn filled() -> DemoState {
    let mut s = DemoState::new();
    s.input_firstname = "Jean".to_string();
    s.input_lastname = "Mattei".to_string();
    s.input_email = "jean@bindkey.com".to_string();
    s
}

#[test]
fn demo_starts_on_role_screen() {
    let s = DemoState::new();
    assert_eq!(s.status_text, "Prêt.");
    assert_eq!(s.input_role, "USER");
    assert_eq!(s.current_page, DemoPage::Login);
    assert_eq!(s.user_role, UserRole::NoRole);
    assert!(!s.is_unlocked);
    assert!(matches!(s.enroll_state, EnrollmentState::Formulaire));
}

#[test]
fn demo_menu_follows_role() {
    let mut s = DemoState::new();
    s.choose_role(UserRole::User);
    assert_eq!(s.current_page, DemoPage::Home);
    s.open_page(DemoPage::Enrollment);
    assert_eq!(s.current_page, DemoPage::Home);
    s.open_page(DemoPage::Unlock);
    assert_eq!(s.current_page, DemoPage::Unlock);
    s.open_page(DemoPage::AdminDashboard);
    assert_eq!(s.current_page, DemoPage::Unlock);
    s.choose_role(UserRole::Enroller);
    s.open_page(DemoPage::Enrollment);
    assert_eq!(s.current_page, DemoPage::Enrollment);
    s.choose_role(UserRole::Admin);
    s.open_page(DemoPage::AdminDashboard);
    assert_eq!(s.current_page, DemoPage::AdminDashboard);
    s.log_out();
    assert_eq!((s.current_page, s.user_role), (DemoPage::Login, UserRole::NoRole));
}

#[test]
fn wizard_needs_complete_form() {
    let mut s = DemoState::new();
    s.input_firstname = "Jean".to_string();
    assert!(!s.form_is_valid());
    s.next_step();
    assert!(matches!(s.enroll_state, EnrollmentState::Formulaire));
    let mut f = filled();
    assert!(f.form_is_valid());
    f.next_step();
    assert!(matches!(f.enroll_state, EnrollmentState::AttenteDoigt));
}

#[test]
fn wizard_registers_and_starts_over() {
    let mut s = filled();
    assert!(s.finger_detected().is_none());
    s.next_step();
    let args = s.finger_detected().expect("registration arguments");
    assert_eq!(args.first_name, "Jean");
    assert_eq!(args.last_name, "Mattei");
    assert_eq!(args.email, "jean@bindkey.com");
    assert_eq!(args.role, "USER");
    assert_eq!(args.hash, "hash_biometrique_secure_123");
    assert!(matches!(s.enroll_state, EnrollmentState::Communication));
    s.registration_done(Ok("créé".to_string()));
    assert!(matches!(&s.enroll_state, EnrollmentState::Succes(m) if m == "créé"));
    s.enroll_another();
    assert!(s.input_firstname.is_empty() && s.input_role.is_empty());
    assert!(matches!(s.enroll_state, EnrollmentState::Formulaire));
}

#[test]
fn wizard_error_and_cancel() {
    let mut s = filled();
    s.next_step();
    s.back_to_form();
    assert!(matches!(s.enroll_state, EnrollmentState::Formulaire));
    s.next_step();
    s.finger_detected();
    s.back_to_form();
    assert!(matches!(s.enroll_state, EnrollmentState::Communication));
    s.registration_done(Err("Echec".to_string()));
    assert!(matches!(&s.enroll_state, EnrollmentState::Erreur(e) if e == "Echec"));
    s.back_to_form();
    assert!(matches!(s.enroll_state, EnrollmentState::Formulaire));
    assert_eq!(s.input_firstname, "Jean");
}

#[test]
fn status_reply_sets_lock_state() {
    let mut s = DemoState::new();
    s.status_received(Ok(r#"{"status": "UNLOCKED", "drive": "MOUNTED"}"#.to_string()));
    assert!(s.is_unlocked);
    assert_eq!(s.status_text, "Statut reçu : \"UNLOCKED\"");
    s.status_received(Ok(r#"{"status": "LOCKED", "version": "1.0.0"}"#.to_string()));
    assert!(!s.is_unlocked);
    assert_eq!(s.status_text, "Statut reçu : \"LOCKED\"");
    s.status_received(Ok("{}".to_string()));
    assert_eq!(s.status_text, "Statut reçu : null");
    s.status_received(Ok("pas du json".to_string()));
    assert_eq!(s.status_text, "Statut reçu : null");
    s.status_received(Err("Vrai matériel non connecté".to_string()));
    assert_eq!(s.status_text, "Vrai matériel non connecté");
}

#[test]
fn unlock_reply_opens_only_when_unlocked() {
    let mut s = DemoState::new();
    s.unlock_received(Ok(r#"{"status": "LOCKED"}"#.to_string()));
    assert!(!s.is_unlocked);
    assert_eq!(s.status_text, "Prêt.");
    s.unlock_received(Ok(r#"{"status": "UNLOCKED", "drive": "MOUNTED"}"#.to_string()));
    assert!(s.is_unlocked);
    assert_eq!(s.status_text, "Succès : Clé déverrouillée !");
    s.apply_unlock(Ok(String::new()), Some("\"UNLOCKED\"".to_string()));
    assert!(s.is_unlocked);
    s.apply_status(Ok(String::new()), Some("\"LOCKED\"".to_string()));
    assert!(!s.is_unlocked);
}
