//! Verified core of a room-based chat service: the live session registry,
//! the broadcast dispatcher, the session lifecycle, participant verification
//! and the decisions of chat creation.

pub mod auth;
pub mod chat_service;
pub mod config;
pub mod errors;
pub mod ident;
pub mod message_service;
pub mod models;
pub mod registry;
pub mod response;
pub mod session;
pub mod verification;
pub mod wire;
