use vstd::prelude::*;

use crate::config::AppConfig;
use crate::protocol::{Page, Role, User};

verus! {

/// Everything the client shows and remembers between frames: the session,
/// the forms of each page with their status lines, and what is known of the
/// token's disk.
pub struct AppState {
    pub config: AppConfig,
    pub current_page: Page,
    pub role_user: Role,
    pub server_token: String,
    pub local_token: String,
    pub first_name_user: String,
    pub login_email: String,
    pub login_password: String,
    pub login_status: String,
    pub is_loading: bool,
    pub is_admin_mode: bool,
    pub usb_connected: bool,
    pub current_port_name: String,
    pub enroll_firstname: String,
    pub enroll_lastname: String,
    pub enroll_email: String,
    pub enroll_password: String,
    pub enroll_role: Role,
    pub enroll_status: String,
    pub device_name: String,
    pub device_size: u32,
    pub device_available_space: u32,
    pub mount_id: i32,
    pub volume_created_name: String,
    pub volume_created_size: u32,
    pub volume_status: String,
    pub users_list: Vec<User>,
}

impl AppState {
    /// Whether nobody is logged in and every form and status line is empty.
    pub open spec fn is_signed_out(&self) -> bool {
        &&& self.current_page == Page::Login
        &&& self.role_user == Role::NONE
        &&& self.server_token@.len() == 0
        &&& self.local_token@.len() == 0
        &&& self.first_name_user@.len() == 0
        &&& self.login_password@.len() == 0
        &&& self.enroll_firstname@.len() == 0
        &&& self.enroll_lastname@.len() == 0
        &&& self.enroll_email@.len() == 0
        &&& self.enroll_status@.len() == 0
        &&& self.device_name@.len() == 0
        &&& self.device_size == 0
        &&& self.device_available_space == 0
        &&& self.volume_created_name@.len() == 0
        &&& self.volume_created_size == 0
        &&& self.volume_status@.len() == 0
        &&& self.users_list@.len() == 0
    }

    /// `t` differs from `self` at most in the login status line and password.
    pub open spec fn same_but_login_form(&self, t: AppState) -> bool {
        t == AppState { login_status: t.login_status, login_password: t.login_password, ..*self }
    }

    /// The state at start-up: on the login page, signed out, nothing typed,
    /// no token detected.
    pub fn new(config: AppConfig) -> (r: AppState)
        ensures
            r.config == config,
            r.is_signed_out(),
            r.login_email@.len() == 0,
            r.login_status@.len() == 0,
            !r.is_loading,
            !r.is_admin_mode,
            !r.usb_connected,
            r.current_port_name@.len() == 0,
            r.enroll_password@.len() == 0,
            r.enroll_role == Role::NONE,
            r.mount_id == 0,
    {
        AppState {
            config,
            current_page: Page::Login,
            role_user: Role::NONE,
            server_token: String::new(),
            local_token: String::new(),
            first_name_user: String::new(),
            login_email: String::new(),
            login_password: String::new(),
            login_status: String::new(),
            is_loading: false,
            is_admin_mode: false,
            usb_connected: false,
            current_port_name: String::new(),
            enroll_firstname: String::new(),
            enroll_lastname: String::new(),
            enroll_email: String::new(),
            enroll_password: String::new(),
            enroll_role: Role::NONE,
            enroll_status: String::new(),
            device_name: String::new(),
            device_size: 0,
            device_available_space: 0,
            mount_id: 0,
            volume_created_name: String::new(),
            volume_created_size: 0,
            volume_status: String::new(),
            users_list: Vec::new(),
        }
    }

    /// Records the token port in use, if one was found.
    pub fn attach_port(&mut self, port: Option<String>)
        ensures
            *final(self) == (AppState {
                current_port_name: final(self).current_port_name,
                usb_connected: final(self).usb_connected,
                ..*old(self)
            }),
            match port {
                Some(p) => final(self).current_port_name == p && final(self).usb_connected,
                None => final(self).current_port_name@.len() == 0 && !final(self).usb_connected,
            },
    {
        match port {
            Some(p) => {
                self.current_port_name = p;
                self.usb_connected = true;
            },
            None => {
                self.current_port_name = String::new();
                self.usb_connected = false;
            },
        }
    }

    /// Shows `page` if the logged-in user may see it.
    pub fn open_page(&mut self, page: Page)
        ensures
            page_allowed(old(self).role_user, page) ==> *final(self) == (AppState {
                current_page: page,
                ..*old(self)
            }),
            !page_allowed(old(self).role_user, page) ==> *final(self) == *old(self),
    {
        if page_is_allowed(self.role_user, page) {
            self.current_page = page;
        }
    }
}

/// Whether a user of role `role` may see `page`: user management is for
/// enrollers and administrators, the other pages for everybody.
pub open spec fn page_allowed(role: Role, page: Page) -> bool {
    page == Page::Enrollment ==> (role == Role::ENROLLEUR || role == Role::ADMIN)
}

/// Whether a user of role `role` may see `page`.
pub fn page_is_allowed(role: Role, page: Page) -> (r: bool)
    ensures
        r == page_allowed(role, page),
{
    match page {
        Page::Enrollment => role == Role::ENROLLEUR || role == Role::ADMIN,
        _ => true,
    }
}

} // verus!
