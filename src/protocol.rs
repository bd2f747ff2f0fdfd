use vstd::prelude::*;

use crate::share_protocol::UsbResponse;
use crate::text::join;

verus! {

/// State of a token as recorded by the server.
#[derive(PartialEq, Eq, Structural, Clone, Copy, Debug)]
pub enum StatusBindkey {
    ACTIVE,
    RESET,
    LOST,
    BROKEN,
}

/// The screen shown by the client.
#[derive(PartialEq, Eq, Structural, Clone, Copy, Debug)]
pub enum Page {
    Login,
    Home,
    Enrollment,
    Volume,
}

/// What a user is allowed to do.
#[derive(PartialEq, Eq, Structural, Clone, Copy, Debug)]
pub enum Role {
    USER,
    ENROLLEUR,
    ADMIN,
    NONE,
}

/// Commands of the first token firmware, spoken as JSON lines.
pub enum Command {
    GetStatus,
    StartEnrollment { username: String },
    Unlock { token: String },
}

/// An event delivered to the client's main loop, from the interface or from
/// a finished background task. Identifiers of users and sessions are the
/// 128-bit value of their UUID.
pub enum ApiMessage {
    EnrollmentSuccess(String),
    EnrollmentUsbSuccess(UsbResponse),
    ModificationUsbSuccess(UsbResponse),
    LoginError(String),
    EnrollmentError(String),
    ReceivedChallenge(String, u128),
    SignedChallenge(String, u128),
    LoginSuccess(Role, String, String, String),
    VolumeCreationSuccess(UsbResponse),
    VolumeCreationStatus(String),
    VolumeInfoReceived(UsbResponse),
    FetchUsers,
    FetchUsersError(String),
    UserFetched(Vec<User>),
    LogOutSuccess,
    LogOutError(String),
    DeleteUserError(String),
    DeleteUser(u128),
    UserDeleted,
}

/// The server's answer to a login request: a challenge for the token.
pub struct ChallengeResponse {
    pub auth_challenge: String,
    pub session_id: u128,
}

/// The server's answer to an accepted login.
pub struct LoginSuccessResponse {
    pub server_token: String,
    pub role: Role,
    pub first_name: String,
    pub local_token: String,
}

/// Body of a user registration.
pub struct RegisterPayload {
    pub first_name: String,
    pub last_name: String,
    pub email: String,
    pub password: String,
    pub user_role: Role,
    pub bindkey_uid: String,
    pub bindkey_status: StatusBindkey,
    pub public_key: String,
}

/// Body of a change of a user's role.
pub struct ModifyPayload {
    pub email: String,
    pub user_role: Role,
}

/// Body of the server-side check of a volume name.
pub struct VolumeInitInfo {
    pub name: String,
    pub disk_id: String,
}

/// The server's answer to a volume name check.
pub struct VolumeInitResponse {
    pub volume_id: String,
    pub exists: bool,
}

/// Body that records a volume created on the token.
pub struct VolumeCreatedInfo {
    pub disk_id: String,
    pub name: String,
    pub size_bytes: u32,
    pub encrypted_key: String,
    pub id: String,
}

/// Body of a logout.
pub struct LogOut {
    pub server_token: String,
}

/// A user as listed by the server.
pub struct User {
    pub id: u128,
    pub first_name: String,
    pub last_name: String,
    pub email: String,
    pub role: Role,
}

/// Port of the server's HTTPS service.
pub const SERVER_PORT: u16 = 8080;

/// Seconds after which a request to the server is abandoned.
pub const REQUEST_TIMEOUT_SECS: u64 = 10;

/// Name under which the server's certificate is issued.
pub const API_HOST: &'static str = "api.bindkey.local";

/// The server address used when no address file is found.
pub open spec fn default_server_ip() -> Seq<char> {
    "172.16.253.17"@
}

/// A text without its leading and trailing white space.
pub uninterp spec fn trimmed(s: Seq<char>) -> Seq<char>;

/// Relies on `str::trim`: the text without leading and trailing white space.
#[verifier::external_body]
fn trim_text(s: &str) -> (r: String)
    ensures
        r@ == trimmed(s@),
{
    s.trim().to_string()
}

/// The text of the server's address: the contents of the address file
/// without surrounding white space, or the default when there is no file.
pub fn server_ip_text(contents: Option<String>) -> (r: String)
    ensures
        match contents {
            Some(c) => r@ == trimmed(c@),
            None => r@ == default_server_ip(),
        },
{
    match contents {
        Some(c) => trim_text(c.as_str()),
        None => String::from_str("172.16.253.17"),
    }
}

/// The message that rejects the server address `ip`.
pub fn invalid_ip_message(ip: &str, reason: &str) -> (r: String)
    ensures
        r@ == "IP invalide '"@ + ip@ + "': "@ + reason@,
{
    let a = join("IP invalide '", ip);
    let b = join(a.as_str(), "': ");
    join(b.as_str(), reason)
}

} // verus!
