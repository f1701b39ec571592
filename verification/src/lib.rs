//! The verified core of a remote-desktop system: dirty-tile screen encoding,
//! the relay server's rooms and sessions, and the desktop application's
//! session, input and clipboard decisions.

pub mod auth;
pub mod capture;
pub mod clipboard;
pub mod commands;
pub mod delta;
pub mod encoding;
pub mod identity;
pub mod input;
pub mod messages;
pub mod registry;
pub mod relay_client;
pub mod relay_laws;
pub mod service;
pub mod state;
pub mod text;
pub mod tiles;
