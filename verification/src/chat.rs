//! The conversation turns handed to the language model.
//!
//! A turn is either something a user said or something the model answered,
//! each carrying one piece of text; the application turns these into the
//! model provider's message values.
use vstd::prelude::*;

verus! {

/// Who spoke a turn of the conversation.
#[derive(Debug, Clone, Copy, PartialEq, Eq, Structural)]
pub enum ChatRole {
    User,
    Assistant,
}

/// One turn of the conversation: a single text from a user or from the model.
#[derive(Debug, Clone, PartialEq, Eq)]
pub struct ChatMessage {
    pub role: ChatRole,
    pub text: String,
}

impl ChatMessage {
    /// A turn spoken by a user.
    pub fn user(text: String) -> (m: ChatMessage)
        ensures
            m.role == ChatRole::User,
            m.text@ == text@,
    {
        ChatMessage { role: ChatRole::User, text }
    }

    /// A turn answered by the model.
    pub fn assistant(text: String) -> (m: ChatMessage)
        ensures
            m.role == ChatRole::Assistant,
            m.text@ == text@,
    {
        ChatMessage { role: ChatRole::Assistant, text }
    }
}

} // verus!
