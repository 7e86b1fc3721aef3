use chrono::NaiveDate;
use ss_discord_bot::chat::{ChatMessage, ChatRole};
use ss_discord_bot::discord::channel::{Channel, ChannelType};
use ss_discord_bot::discord::events::messages::{
    append_chunk, chat_history, is_bot_in_thread, is_message_from_bot, is_thread, IncomingMessage,
    MessageAction, MessageFlow, MessageStage, REPLY_BYTE_LIMIT,
};
use ss_discord_bot::model::thread::{Message, MessageSender, Thread};

const BOT: u64 = 100;
const USER: u64 = 200;
const CHANNEL: u64 = 300;

fn incoming(author_id: u64) -> IncomingMessage {
    IncomingMessage { message_id: 42, author_id, content: "質問です".to_string() }
}

fn stored_thread(id: u64) -> Thread {
    let created_at = NaiveDate::from_ymd_opt(2025, 1, 2).unwrap().and_hms_opt(3, 4, 5).unwrap();
    Thread { id, guild_id: 1, channel_id: CHANNEL, created_at }
}

fn thread_channel() -> Channel {
    Channel::Guild { id: CHANNEL, kind: ChannelType::PublicThread }
}

/// Runs the flow up to streaming, for a user's message in a stored thread
/// the bot is a member of.
fn streaming_flow() -> MessageFlow {
    let (flow, action) = MessageFlow::begin(BOT, incoming(USER));
    assert_eq!(action, MessageAction::FetchChannel);
    let (flow, action) = flow.on_channel(thread_channel());
    assert_eq!(action, MessageAction::FetchThreadMembers { channel_id: CHANNEL });
    let (flow, action) = flow.on_thread_members(&[USER, BOT]);
    assert_eq!(action, MessageAction::FindThread { channel_id: CHANNEL });
    let thread = stored_thread(7);
    let (flow, action) = flow.on_thread(Some(&thread));
    assert_eq!(
        action,
        MessageAction::StartReply {
            thread_id: 7,
            prompt: "質問です".to_string(),
            placeholder: "生成中...".to_string(),
        }
    );
    let (flow, action) = flow.on_reply_started(55);
    assert_eq!(action, MessageAction::AwaitChunk);
    flow
}

#[test]
fn message_from_bot_is_recognised() {
    assert!(is_message_from_bot(BOT, BOT));
    assert!(!is_message_from_bot(BOT, USER));
}

#[test]
fn only_thread_channels_are_threads() {
    for kind in [ChannelType::PublicThread, ChannelType::PrivateThread, ChannelType::NewsThread] {
        assert!(is_thread(&Channel::Guild { id: 1, kind }));
    }
    for kind in [ChannelType::Text, ChannelType::Forum, ChannelType::News, ChannelType::Unknown(99)] {
        assert!(!is_thread(&Channel::Guild { id: 1, kind }));
    }
    assert!(!is_thread(&Channel::Private { id: 1 }));
}

#[test]
fn bot_membership_is_found_anywhere_in_the_list() {
    assert!(is_bot_in_thread(BOT, &[1, 2, BOT]));
    assert!(is_bot_in_thread(BOT, &[BOT]));
    assert!(!is_bot_in_thread(BOT, &[1, 2, 3]));
    assert!(!is_bot_in_thread(BOT, &[]));
}

#[test]
fn history_keeps_order_and_senders() {
    let at = NaiveDate::from_ymd_opt(2025, 1, 1).unwrap().and_hms_opt(0, 0, 0).unwrap();
    let messages = vec![
        Message { sender: MessageSender::User, content: "q1".to_string(), created_at: at },
        Message { sender: MessageSender::Agent, content: "a1".to_string(), created_at: at },
        Message { sender: MessageSender::User, content: "q2".to_string(), created_at: at },
    ];
    let history = chat_history(&messages);
    assert_eq!(
        history,
        vec![
            ChatMessage { role: ChatRole::User, text: "q1".to_string() },
            ChatMessage { role: ChatRole::Assistant, text: "a1".to_string() },
            ChatMessage { role: ChatRole::User, text: "q2".to_string() },
        ]
    );
    assert!(chat_history(&Vec::new()).is_empty());
}

#[test]
fn append_chunk_keeps_reply_under_limit() {
    let mut reply = String::new();
    assert!(append_chunk(&mut reply, "abc"));
    assert_eq!(reply, "abc");
    let big = "x".repeat(REPLY_BYTE_LIMIT - 3);
    assert!(!append_chunk(&mut reply, &big));
    assert_eq!(reply, "abc");
    let fits = "y".repeat(REPLY_BYTE_LIMIT - 4);
    assert!(append_chunk(&mut reply, &fits));
    assert_eq!(reply.len(), REPLY_BYTE_LIMIT - 1);
    assert!(!append_chunk(&mut reply, "z"));
}

#[test]
fn append_chunk_counts_bytes_not_characters() {
    // Each of these characters takes three bytes in UTF-8.
    let mut reply = "あ".repeat(1333);
    assert_eq!(reply.len(), 3999);
    assert!(!append_chunk(&mut reply, "い"));
    assert_eq!(reply.len(), 3999);
}

#[test]
fn own_message_is_ignored() {
    let (flow, action) = MessageFlow::begin(BOT, incoming(BOT));
    assert_eq!(action, MessageAction::Stop);
    assert_eq!(flow.stage(), &MessageStage::Finished);
}

#[test]
fn message_outside_threads_is_ignored() {
    let (flow, _) = MessageFlow::begin(BOT, incoming(USER));
    let (flow, action) = flow.on_channel(Channel::Guild { id: CHANNEL, kind: ChannelType::Text });
    assert_eq!(action, MessageAction::Stop);
    assert_eq!(flow.stage(), &MessageStage::Finished);
    let (_, action) = MessageFlow::begin(BOT, incoming(USER)).0.on_channel(Channel::Private { id: 1 });
    assert_eq!(action, MessageAction::Stop);
}

#[test]
fn thread_without_the_bot_is_ignored() {
    let (flow, _) = MessageFlow::begin(BOT, incoming(USER));
    let (flow, _) = flow.on_channel(thread_channel());
    let (_, action) = flow.on_thread_members(&[USER]);
    assert_eq!(action, MessageAction::Stop);
}

#[test]
fn unknown_thread_is_ignored() {
    let (flow, _) = MessageFlow::begin(BOT, incoming(USER));
    let (flow, _) = flow.on_channel(thread_channel());
    let (flow, _) = flow.on_thread_members(&[BOT]);
    let (flow, action) = flow.on_thread(None);
    assert_eq!(action, MessageAction::Stop);
    assert_eq!(flow.stage(), &MessageStage::Finished);
}

#[test]
fn streamed_answer_is_edited_and_stored() {
    let flow = streaming_flow();
    let (flow, action) = flow.on_chunk("こんにちは");
    assert_eq!(action, MessageAction::EditReply { reply_id: 55, text: "こんにちは".to_string() });
    let (flow, action) = flow.on_chunk("、世界");
    assert_eq!(action, MessageAction::EditReply { reply_id: 55, text: "こんにちは、世界".to_string() });
    let (flow, action) = flow.on_stream_end();
    assert_eq!(
        action,
        MessageAction::SaveUserMessage {
            thread_id: 7,
            message_id: 42,
            user_id: USER,
            content: "質問です".to_string(),
        }
    );
    let (flow, action) = flow.on_user_message_saved(900);
    assert_eq!(
        action,
        MessageAction::SaveAgentMessage {
            user_message_id: 900,
            message_id: 55,
            content: "こんにちは、世界".to_string(),
        }
    );
    assert_eq!(flow.stage(), &MessageStage::Finished);
}

#[test]
fn chunk_that_overflows_the_reply_is_dropped() {
    let flow = streaming_flow();
    let (flow, _) = flow.on_chunk("start");
    let (flow, action) = flow.on_chunk(&"x".repeat(REPLY_BYTE_LIMIT));
    assert_eq!(action, MessageAction::AwaitChunk);
    let (flow, action) = flow.on_chunk(" end");
    assert_eq!(action, MessageAction::EditReply { reply_id: 55, text: "start end".to_string() });
    let (flow, _) = flow.on_stream_end();
    let (_, action) = flow.on_user_message_saved(1);
    match action {
        MessageAction::SaveAgentMessage { content, .. } => assert_eq!(content, "start end"),
        other => panic!("unexpected action {:?}", other),
    }
}

#[test]
fn stored_answer_never_reaches_the_limit() {
    let mut flow = streaming_flow();
    for _ in 0..50 {
        let (next, action) = flow.on_chunk(&"ab".repeat(97));
        if let MessageAction::EditReply { text, .. } = &action {
            assert!(text.len() < REPLY_BYTE_LIMIT);
        }
        flow = next;
    }
    let (flow, _) = flow.on_stream_end();
    let (_, action) = flow.on_user_message_saved(1);
    match action {
        MessageAction::SaveAgentMessage { content, .. } => {
            assert!(content.len() < REPLY_BYTE_LIMIT);
            assert_eq!(content.len(), 194 * 20);
        }
        other => panic!("unexpected action {:?}", other),
    }
}

#[test]
fn events_out_of_order_stop_the_flow() {
    let (flow, _) = MessageFlow::begin(BOT, incoming(USER));
    let (flow, action) = flow.on_chunk("early");
    assert_eq!(action, MessageAction::Stop);
    let (_, action) = flow.on_stream_end();
    assert_eq!(action, MessageAction::Stop);
}
