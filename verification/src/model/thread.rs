//! Threads the bot answers in, and the messages exchanged in them.
use chrono::NaiveDateTime;
use vstd::prelude::*;

use crate::chat::{ChatMessage, ChatRole};

verus! {

/// A thread the bot opened, as stored in the `threads` table.
#[derive(Debug)]
pub struct Thread {
    pub id: u64,
    pub guild_id: u64,
    pub channel_id: u64,
    pub created_at: NaiveDateTime,
}

/// The values a new row of `threads` is inserted with.
#[derive(Debug)]
pub struct InsertInput {
    guild_id: u64,
    channel_id: u64,
}

impl View for InsertInput {
    /// The guild id and the channel id of the thread.
    type V = (u64, u64);

    closed spec fn view(&self) -> (u64, u64) {
        (self.guild_id, self.channel_id)
    }
}

impl InsertInput {
    pub fn new(guild_id: u64, channel_id: u64) -> (input: Self)
        ensures
            input@ == (guild_id, channel_id),
    {
        Self { guild_id, channel_id }
    }

    /// The guild the thread belongs to.
    pub fn guild_id(&self) -> (id: u64)
        ensures
            id == self@.0,
    {
        self.guild_id
    }

    /// The channel id of the thread itself.
    pub fn channel_id(&self) -> (id: u64)
        ensures
            id == self@.1,
    {
        self.channel_id
    }
}

/// Who wrote a message of a thread; stored in lower case (`user`, `agent`).
#[derive(Debug, Clone, Copy, PartialEq, Eq, Structural)]
pub enum MessageSender {
    User,
    Agent,
}

/// The stored label of a sender.
pub open spec fn sender_label(sender: MessageSender) -> Seq<char> {
    match sender {
        MessageSender::User => seq!['u', 's', 'e', 'r'],
        MessageSender::Agent => seq!['a', 'g', 'e', 'n', 't'],
    }
}

/// The sender whose stored label is `label`, if any.
pub open spec fn sender_of_label(label: Seq<char>) -> Option<MessageSender> {
    if label == sender_label(MessageSender::User) {
        Some(MessageSender::User)
    } else if label == sender_label(MessageSender::Agent) {
        Some(MessageSender::Agent)
    } else {
        None
    }
}

impl MessageSender {
    /// The label this sender is stored under.
    pub fn label(&self) -> (label: &'static str)
        ensures
            label@ == sender_label(*self),
    {
        match self {
            MessageSender::User => {
                proof { reveal_strlit("user"); }
                "user"
            },
            MessageSender::Agent => {
                proof { reveal_strlit("agent"); }
                "agent"
            },
        }
    }

    /// Reads a stored label back; `None` for anything but `user` and `agent`.
    pub fn from_label(label: &str) -> (sender: Option<MessageSender>)
        ensures
            sender == sender_of_label(label@),
    {
        let label = String::from_str(label);
        let user = String::from_str(MessageSender::User.label());
        let agent = String::from_str(MessageSender::Agent.label());
        if label == user {
            Some(MessageSender::User)
        } else if label == agent {
            Some(MessageSender::Agent)
        } else {
            None
        }
    }
}

/// Reading back the label a sender is stored under gives that sender.
pub proof fn lemma_sender_label_round_trip(sender: MessageSender)
    ensures
        sender_of_label(sender_label(sender)) == Some(sender),
{
    assert(sender_label(MessageSender::User) != sender_label(MessageSender::Agent)) by {
        assert(sender_label(MessageSender::User).len() != sender_label(MessageSender::Agent).len());
    }
}

/// A message of a thread, from a user or from the model, in the order of
/// `created_at`.
#[derive(Debug)]
pub struct Message {
    pub sender: MessageSender,
    pub content: String,
    pub created_at: NaiveDateTime,
}

/// The conversation turn a stored message of a thread becomes: the model's
/// messages are its own turns, the users' messages are user turns.
pub open spec fn chat_turn(message: Message) -> ChatMessage {
    ChatMessage {
        role: match message.sender {
            MessageSender::Agent => ChatRole::Assistant,
            MessageSender::User => ChatRole::User,
        },
        text: message.content,
    }
}

impl From<Message> for ChatMessage {
    fn from(message: Message) -> (turn: ChatMessage) {
        match message.sender {
            MessageSender::Agent => ChatMessage { role: ChatRole::Assistant, text: message.content },
            MessageSender::User => ChatMessage { role: ChatRole::User, text: message.content },
        }
    }
}

impl vstd::std_specs::convert::FromSpecImpl<Message> for ChatMessage {
    open spec fn obeys_from_spec() -> bool {
        true
    }

    open spec fn from_spec(message: Message) -> ChatMessage {
        chat_turn(message)
    }
}

} // verus!
