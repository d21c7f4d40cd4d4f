//! The values exchanged between the chat client and the chat server. Their
//! JSON form is produced and read by the programs around the library.

use vstd::prelude::*;

verus! {

/// Sent by the server on every new connection: whether it asks for authentication.
#[derive(Clone, Copy, Debug)]
pub struct AuthRequired {
    pub requires_auth: bool,
}

/// A message of an authenticated user.
#[derive(Debug)]
pub struct ChatMessage {
    pub message_id: i64,
    pub user_id: i64,
    pub channel_id: i64,
    pub content: String,
    pub timestamp: i64,
}

/// A message of a user who only gave a name.
#[derive(Debug)]
pub struct ChatMessageUnAuth {
    pub content: String,
    pub timestamp: i64,
    pub username: String,
}

/// A client's request for a batch of messages of a channel older than a time.
#[derive(Clone, Copy, Debug)]
pub struct MessageRequest {
    pub channel_id: i64,
    pub authentication: bool,
    pub older_than: i64,
    pub count: u64,
}

/// A registered user.
#[derive(Debug)]
pub struct User {
    pub user_id: i64,
    pub display_name: String,
}

impl Clone for ChatMessage {
    fn clone(&self) -> (copy: Self)
        ensures
            copy == *self,
    {
        ChatMessage {
            message_id: self.message_id,
            user_id: self.user_id,
            channel_id: self.channel_id,
            content: self.content.clone(),
            timestamp: self.timestamp,
        }
    }
}

impl Clone for ChatMessageUnAuth {
    fn clone(&self) -> (copy: Self)
        ensures
            copy == *self,
    {
        ChatMessageUnAuth {
            content: self.content.clone(),
            timestamp: self.timestamp,
            username: self.username.clone(),
        }
    }
}

impl Clone for User {
    fn clone(&self) -> (copy: Self)
        ensures
            copy == *self,
    {
        User { user_id: self.user_id, display_name: self.display_name.clone() }
    }
}

} // verus!
