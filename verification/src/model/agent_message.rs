//! The model's answers to users' messages.
use chrono::NaiveDateTime;
use vstd::prelude::*;

use crate::chat::{ChatMessage, ChatRole};

verus! {

/// An answer of the model, as stored in the `agent_messages` table.
#[derive(Debug)]
pub struct AgentMessage {
    pub id: u64,
    pub message_id: u64,
    pub user_message_id: u64,
    pub content: String,
    pub created_at: NaiveDateTime,
    pub updated_at: NaiveDateTime,
}

/// The values a new row of `agent_messages` is inserted with.
#[derive(Debug)]
pub struct InsertInput<'a> {
    pub user_message_id: u64,
    pub message_id: u64,
    pub content: &'a str,
}

impl<'a> InsertInput<'a> {
    pub fn new(user_message_id: u64, message_id: u64, content: &'a str) -> (input: Self)
        ensures
            input.user_message_id == user_message_id,
            input.message_id == message_id,
            input.content@ == content@,
    {
        Self { user_message_id, message_id, content }
    }
}

impl From<AgentMessage> for ChatMessage {
    fn from(message: AgentMessage) -> (turn: ChatMessage) {
        ChatMessage { role: ChatRole::Assistant, text: message.content }
    }
}

impl vstd::std_specs::convert::FromSpecImpl<AgentMessage> for ChatMessage {
    open spec fn obeys_from_spec() -> bool {
        true
    }

    open spec fn from_spec(message: AgentMessage) -> ChatMessage {
        ChatMessage { role: ChatRole::Assistant, text: message.content }
    }
}

} // verus!
