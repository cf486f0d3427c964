//! The records that the service stores and the requests that create them.
//!
//! Identifiers are held as the numbers of their UUIDs, and moments as seconds
//! since the Unix epoch.

use vstd::prelude::*;

verus! {

/// A chat, as stored.
#[derive(Debug)]
pub struct Chat {
    pub uid: u128,
    pub name: Option<String>,
    pub created_at: i64,
    pub updated_at: i64,
}

/// A request to create a chat.
#[derive(Debug)]
pub struct CreateChatDTO {
    pub participants: Vec<u128>,
    pub name: Option<String>,
}

/// The membership of one user in one chat, as stored.
#[derive(Clone, Copy, Debug)]
pub struct ChatParticipant {
    pub chat_uid: u128,
    pub user_uid: u128,
    pub joined_at: i64,
}

/// A message, as stored.
#[derive(Debug)]
pub struct Message {
    pub uid: u128,
    pub chat_uid: u128,
    pub user_uid: u128,
    pub content: String,
    pub created_at: i64,
}

/// A request to store a message.
#[derive(Debug)]
pub struct CreateMessageDTO {
    pub chat_uid: u128,
    pub user_uid: u128,
    pub content: String,
}

/// A request to sign up.
#[derive(Debug)]
pub struct UserDTO {
    pub username: String,
    pub email: String,
    pub password: String,
}

/// A request to log in.
#[derive(Debug)]
pub struct LoginDTO {
    pub email: String,
    pub password: String,
}

/// Where the identity service is reached, and how long one call may take.
#[derive(Debug)]
pub struct GrpcClientConfig {
    pub url: String,
    pub timeout_millis: u64,
}

} // verus!
