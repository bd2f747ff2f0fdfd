use vstd::prelude::*;

use crate::protocol::{ApiMessage, ModifyPayload, RegisterPayload, VolumeCreatedInfo, VolumeInitInfo};

verus! {

/// Work that the client's decisions hand to the outside world: a request to
/// the server, an exchange with the token, or an event to deliver to the
/// main loop. Each finished piece of work comes back as an `ApiMessage`.
pub enum Effect {
    /// Nothing to do.
    Nothing,
    /// Deliver an event to the main loop.
    Deliver(ApiMessage),
    /// Deliver an event to the main loop after a pause, standing in for the
    /// token while the hardware step is simulated.
    DeliverLater(ApiMessage, u64),
    /// Write a line to the console.
    Print(String),
    /// Register a new user (POST, with the session's bearer token).
    Register { url: String, token: String, user: RegisterPayload },
    /// Change a user's role (POST, with the session's bearer token).
    Modify { url: String, token: String, change: ModifyPayload },
    /// Ask the token on `port_name` to sign, sending it the line `command`.
    SignChallenge { port_name: String, command: String, session_id: u128 },
    /// Send the signed challenge to the server (POST).
    VerifySignature { url: String, session_id: u128, signature: String },
    /// Record a volume created on the token (POST, with the bearer token).
    RecordVolume { url: String, token: String, volume: VolumeCreatedInfo },
    /// Fetch the list of users (GET, with the bearer token).
    ListUsers { url: String, token: String },
    /// Delete a user (DELETE, with the bearer token).
    RemoveUser { url: String, token: String },
    /// Log in without the token (POST of email and hashed password).
    AdminLogin { url: String, email: String, password: String },
    /// Read the token's serial number on `port_name`; the login goes on with
    /// the other fields once it is read.
    TokenLogin { port_name: String, url: String, email: String, password: String },
    /// Ask the server for a challenge (POST of email, hashed password and the
    /// token's serial number).
    RequestChallenge { url: String, email: String, password: String, bindkey_id: String },
    /// Ask the token on `port_name` for the new user's identity and public key.
    Enroll { port_name: String },
    /// Ask the server whether a volume name is free on a disk (POST, with the
    /// bearer token); if it is, the volume is created on the token.
    CheckVolume { url: String, token: String, query: VolumeInitInfo },
}

/// How a request to the server ended.
pub enum ServerReply<T> {
    /// The server accepted the request, and its answer was read.
    Accepted(T),
    /// The server accepted the request, but its answer could not be read; the
    /// reason is given.
    Unreadable(String),
    /// The server refused the request; its status is given as text.
    Refused(String),
    /// The request did not reach the server; the reason is given.
    Unreachable(String),
}

/// How a request to the server whose answer carries nothing ended.
pub enum StatusReply {
    /// The server accepted the request.
    Success,
    /// The server refused the request; its status is given as text.
    Refused(String),
    /// The request did not reach the server; the reason is given.
    Unreachable(String),
}

/// How a line exchange with the token ended.
pub enum PortExchange {
    /// No token port is known.
    NoPort,
    /// The port could not be opened; the reason is given.
    OpenFailed(String),
    /// The token answered with these key and value pairs.
    Replied(Vec<(String, String)>),
    /// Writing or reading the port failed; the reason is given.
    Failed(String),
}

} // verus!
