//! Client-side logic of the BindKey desktop application: the messages
//! exchanged with the server and with the USB token, the application state
//! and how it reacts to each event, form validation and password hashing.
//!
//! Every decision is a function from the state and an event to the next
//! state and the work to start (`effect::Effect`); the program around the
//! library performs that work and hands each result back as an event.

pub mod api_service;
pub mod config;
pub mod demo;
pub mod effect;
pub mod enrollment;
pub mod event_handler;
pub mod login;
pub mod password;
pub mod protocol;
pub mod share_protocol;
pub mod state;
pub mod text;
pub mod usb_service;
pub mod validation;
pub mod volumes;
