use chrono::{NaiveDate, NaiveDateTime};
use ss_discord_bot::chat::{ChatMessage, ChatRole};
use ss_discord_bot::model::agent_message::{self, AgentMessage};
use ss_discord_bot::model::thread::{self, Message, MessageSender};
use ss_discord_bot::model::user_message::{self, UserMessage};

fn moment() -> NaiveDateTime {
    NaiveDate::from_ymd_opt(2025, 4, 1).unwrap().and_hms_opt(12, 30, 0).unwrap()
}

#[test]
fn thread_insert_input_keeps_ids() {
    let input = thread::InsertInput::new(11, 22);
    assert_eq!(input.guild_id(), 11);
    assert_eq!(input.channel_id(), 22);
}

#[test]
fn user_message_insert_input_keeps_fields() {
    let input = user_message::InsertInput::new(1, 2, 3, "こんにちは");
    assert_eq!(input.thread_id, 1);
    assert_eq!(input.message_id, 2);
    assert_eq!(input.user_id, 3);
    assert_eq!(input.content, "こんにちは");
}

#[test]
fn agent_message_insert_input_keeps_fields() {
    let input = agent_message::InsertInput::new(5, 6, "answer");
    assert_eq!(input.user_message_id, 5);
    assert_eq!(input.message_id, 6);
    assert_eq!(input.content, "answer");
}

#[test]
fn sender_labels_are_lowercase() {
    assert_eq!(MessageSender::User.label(), "user");
    assert_eq!(MessageSender::Agent.label(), "agent");
}

#[test]
fn sender_label_round_trip() {
    for sender in [MessageSender::User, MessageSender::Agent] {
        assert_eq!(MessageSender::from_label(sender.label()), Some(sender));
    }
}

#[test]
fn unknown_sender_labels_are_refused() {
    assert_eq!(MessageSender::from_label("User"), None);
    assert_eq!(MessageSender::from_label("assistant"), None);
    assert_eq!(MessageSender::from_label(""), None);
}

#[test]
fn thread_message_becomes_turn_of_its_sender() {
    let agent = Message { sender: MessageSender::Agent, content: "a".to_string(), created_at: moment() };
    let user = Message { sender: MessageSender::User, content: "u".to_string(), created_at: moment() };
    assert_eq!(ChatMessage::from(agent), ChatMessage { role: ChatRole::Assistant, text: "a".to_string() });
    assert_eq!(ChatMessage::from(user), ChatMessage { role: ChatRole::User, text: "u".to_string() });
}

#[test]
fn stored_messages_become_turns() {
    let user = UserMessage {
        id: 1,
        thread_id: 2,
        message_id: 3,
        user_id: 4,
        content: "question".to_string(),
        created_at: moment(),
        updated_at: moment(),
    };
    let agent = AgentMessage {
        id: 9,
        message_id: 8,
        user_message_id: 1,
        content: "answer".to_string(),
        created_at: moment(),
        updated_at: moment(),
    };
    assert_eq!(ChatMessage::from(user.clone()), ChatMessage::user("question".to_string()));
    assert_eq!(ChatMessage::from(agent), ChatMessage::assistant("answer".to_string()));
    assert_eq!(user.content, "question");
}
