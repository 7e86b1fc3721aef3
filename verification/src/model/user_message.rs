//! Messages users wrote in a thread the bot answers in.
use chrono::NaiveDateTime;
use vstd::prelude::*;

use crate::chat::{ChatMessage, ChatRole};

verus! {

/// A user's message, as stored in the `user_messages` table.
#[derive(Debug, Clone)]
pub struct UserMessage {
    pub id: u64,
    pub thread_id: u64,
    pub message_id: u64,
    pub user_id: u64,
    pub content: String,
    pub created_at: NaiveDateTime,
    pub updated_at: NaiveDateTime,
}

/// The values a new row of `user_messages` is inserted with.
#[derive(Debug)]
pub struct InsertInput<'a> {
    pub thread_id: u64,
    pub message_id: u64,
    pub user_id: u64,
    pub content: &'a str,
}

impl<'a> InsertInput<'a> {
    pub fn new(thread_id: u64, message_id: u64, user_id: u64, content: &'a str) -> (input: Self)
        ensures
            input.thread_id == thread_id,
            input.message_id == message_id,
            input.user_id == user_id,
            input.content@ == content@,
    {
        Self { thread_id, message_id, user_id, content }
    }
}

impl From<UserMessage> for ChatMessage {
    fn from(message: UserMessage) -> (turn: ChatMessage) {
        ChatMessage { role: ChatRole::User, text: message.content }
    }
}

impl vstd::std_specs::convert::FromSpecImpl<UserMessage> for ChatMessage {
    open spec fn obeys_from_spec() -> bool {
        true
    }

    open spec fn from_spec(message: UserMessage) -> ChatMessage {
        ChatMessage { role: ChatRole::User, text: message.content }
    }
}

} // verus!
