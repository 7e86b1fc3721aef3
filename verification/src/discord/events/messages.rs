//! Answering a message posted in one of the bot's threads.
//!
//! The answer runs as a sequence of outside steps (fetch the channel, list
//! the thread's members, look the thread up, stream the model's answer,
//! store both messages). [`MessageFlow`] decides each step from the result
//! of the previous one; the application performs the steps.
use vstd::prelude::*;

use crate::chat::{ChatMessage, ChatRole};
use crate::discord::channel::{channel_id_of, is_thread_channel, Channel, ChannelType};
use crate::model::thread::{chat_turn, Message, MessageSender, Thread};
use crate::text::{byte_len, lemma_byte_len_concat};

verus! {

/// An answer posted on Discord must stay under this many bytes.
pub const REPLY_BYTE_LIMIT: usize = 4000;

/// The handler of messages posted where the bot can read them.
pub struct Messages;

/// A message the bot received, as far as answering it needs.
#[derive(Debug, Clone, PartialEq, Eq)]
pub struct IncomingMessage {
    pub message_id: u64,
    pub author_id: u64,
    pub content: String,
}

/// Whether the bot itself wrote the message.
pub fn is_message_from_bot(bot_id: u64, author_id: u64) -> (from_bot: bool)
    ensures
        from_bot == (bot_id == author_id),
{
    bot_id == author_id
}

/// Whether the channel is a thread (public, private or news thread of a guild).
pub fn is_thread(channel: &Channel) -> (thread: bool)
    ensures
        thread == is_thread_channel(*channel),
        thread == (*channel matches Channel::Guild { kind, .. } && (kind == ChannelType::PublicThread
            || kind == ChannelType::PrivateThread || kind == ChannelType::NewsThread)),
{
    match channel {
        Channel::Guild { kind, .. } => match kind {
            ChannelType::PublicThread | ChannelType::PrivateThread | ChannelType::NewsThread => true,
            _ => false,
        },
        Channel::Private { .. } => false,
    }
}

/// Whether the bot is among the members of the thread.
pub fn is_bot_in_thread(bot_id: u64, thread_members: &[u64]) -> (member: bool)
    ensures
        member == thread_members@.contains(bot_id),
{
    let mut i: usize = 0;
    while i < thread_members.len()
        invariant
            0 <= i <= thread_members@.len(),
            forall|j: int| 0 <= j < i ==> thread_members@[j] != bot_id,
        decreases thread_members@.len() - i,
    {
        if thread_members[i] == bot_id {
            assert(thread_members@[i as int] == bot_id);
            return true;
        }
        i = i + 1;
    }
    false
}

/// The conversation so far, one turn per stored message, in the same order.
pub fn chat_history(messages: &Vec<Message>) -> (history: Vec<ChatMessage>)
    ensures
        history@.len() == messages@.len(),
        forall|i: int| 0 <= i < messages@.len() ==> #[trigger] history@[i] == chat_turn(messages@[i]),
{
    let mut history: Vec<ChatMessage> = Vec::new();
    let mut i: usize = 0;
    while i < messages.len()
        invariant
            0 <= i <= messages@.len(),
            history@.len() == i,
            forall|j: int| 0 <= j < i ==> #[trigger] history@[j] == chat_turn(messages@[j]),
        decreases messages@.len() - i,
    {
        let message = &messages[i];
        let role = match message.sender {
            MessageSender::Agent => ChatRole::Assistant,
            MessageSender::User => ChatRole::User,
        };
        history.push(ChatMessage { role, text: message.content.clone() });
        i = i + 1;
    }
    history
}

/// The answer after one more streamed chunk: the chunk is appended when the
/// answer then stays under [`REPLY_BYTE_LIMIT`] bytes, and dropped otherwise.
pub open spec fn reply_after_chunk(reply: Seq<char>, chunk: Seq<char>) -> Seq<char> {
    if byte_len(reply) + byte_len(chunk) < REPLY_BYTE_LIMIT {
        reply + chunk
    } else {
        reply
    }
}

/// The answer after a sequence of streamed chunks, taken in order.
pub open spec fn reply_after_chunks(reply: Seq<char>, chunks: Seq<Seq<char>>) -> Seq<char>
    decreases chunks.len(),
{
    if chunks.len() == 0 {
        reply
    } else {
        reply_after_chunks(reply_after_chunk(reply, chunks[0]), chunks.drop_first())
    }
}

/// Appends a streamed chunk to the answer when the answer stays under the
/// limit; returns whether it did.
pub fn append_chunk(reply: &mut String, chunk: &str) -> (appended: bool)
    ensures
        appended == (byte_len(old(reply)@) + byte_len(chunk@) < REPLY_BYTE_LIMIT),
        final(reply)@ == reply_after_chunk(old(reply)@, chunk@),
        appended ==> final(reply)@ == old(reply)@ + chunk@,
        !appended ==> final(reply)@ == old(reply)@,
{
    let reply_len = reply.as_str().as_bytes().len();
    let chunk_len = chunk.as_bytes().len();
    if reply_len < REPLY_BYTE_LIMIT && chunk_len < REPLY_BYTE_LIMIT - reply_len {
        reply.append(chunk);
        true
    } else {
        false
    }
}

/// A chunk that fits is appended whole, whatever characters it holds, and
/// one that does not fit leaves the answer as it was.
pub proof fn lemma_chunk_that_fits_is_appended_whole(reply: Seq<char>, chunk: Seq<char>)
    ensures
        byte_len(reply) + byte_len(chunk) < REPLY_BYTE_LIMIT ==> reply_after_chunk(reply, chunk) == reply + chunk,
        byte_len(reply) + byte_len(chunk) >= REPLY_BYTE_LIMIT ==> reply_after_chunk(reply, chunk) == reply,
{
}

/// An answer that starts under the limit stays under it, whatever is streamed.
pub proof fn lemma_reply_stays_within_limit(reply: Seq<char>, chunks: Seq<Seq<char>>)
    requires
        byte_len(reply) < REPLY_BYTE_LIMIT,
    ensures
        byte_len(reply_after_chunks(reply, chunks)) < REPLY_BYTE_LIMIT,
    decreases chunks.len(),
{
    if chunks.len() > 0 {
        lemma_byte_len_concat(reply, chunks[0]);
        lemma_reply_stays_within_limit(reply_after_chunk(reply, chunks[0]), chunks.drop_first());
    }
}

/// Streaming only ever appends: the answer so far is a prefix of the final one.
pub proof fn lemma_reply_only_grows(reply: Seq<char>, chunks: Seq<Seq<char>>)
    ensures
        reply.is_prefix_of(reply_after_chunks(reply, chunks)),
    decreases chunks.len(),
{
    if chunks.len() > 0 {
        let next = reply_after_chunk(reply, chunks[0]);
        lemma_reply_only_grows(next, chunks.drop_first());
        assert(reply.is_prefix_of(next));
    }
}

/// Where the answer to a message stands.
#[derive(Debug, Clone, PartialEq, Eq)]
pub enum MessageStage {
    /// The message was not written by the bot; its channel is being fetched.
    AwaitingChannel { bot_id: u64, message: IncomingMessage },
    /// The channel is a thread; its members are being listed.
    AwaitingMembers { bot_id: u64, message: IncomingMessage, channel_id: u64 },
    /// The bot is a member; the thread is being looked up in the database.
    AwaitingThread { message: IncomingMessage, channel_id: u64 },
    /// The thread is known; the model is asked and a placeholder answer posted.
    AwaitingReply { message: IncomingMessage, thread_id: u64 },
    /// The model's answer is streaming into the posted answer.
    Streaming { message: IncomingMessage, thread_id: u64, reply_id: u64, text: String },
    /// The user's message is being stored.
    AwaitingUserMessage { reply_id: u64, text: String },
    /// Nothing is left to do.
    Finished,
}

/// What the application does next.
#[derive(Debug, Clone, PartialEq, Eq)]
pub enum MessageAction {
    /// Stop handling the message.
    Stop,
    /// Fetch the channel the message was posted in.
    FetchChannel,
    /// List the members of the thread.
    FetchThreadMembers { channel_id: u64 },
    /// Look up the stored thread of this channel.
    FindThread { channel_id: u64 },
    /// Load the thread's conversation, ask the model with `prompt` as the
    /// new user turn, and post `placeholder` as the answer to edit later.
    StartReply { thread_id: u64, prompt: String, placeholder: String },
    /// Wait for the next streamed chunk.
    AwaitChunk,
    /// Edit the posted answer to `text`.
    EditReply { reply_id: u64, text: String },
    /// Store the user's message.
    SaveUserMessage { thread_id: u64, message_id: u64, user_id: u64, content: String },
    /// Store the model's answer to the stored user's message.
    SaveAgentMessage { user_message_id: u64, message_id: u64, content: String },
}

/// The answer to one message, step by step.
pub struct MessageFlow {
    stage: MessageStage,
}

impl View for MessageFlow {
    type V = MessageStage;

    closed spec fn view(&self) -> MessageStage {
        self.stage
    }
}

/// The placeholder posted while the model's answer is being generated.
pub open spec fn placeholder_text() -> Seq<char> {
    "生成中..."@
}

/// The flow is finished and the application stops.
pub open spec fn stopped(next: MessageStage, action: MessageAction) -> bool {
    next == MessageStage::Finished && action == MessageAction::Stop
}

/// The first step: a message the bot wrote itself is not answered; for any
/// other, its channel is fetched.
pub open spec fn began(bot_id: u64, message: IncomingMessage, next: MessageStage, action: MessageAction) -> bool {
    if message.author_id == bot_id {
        stopped(next, action)
    } else {
        next == (MessageStage::AwaitingChannel { bot_id, message }) && action == MessageAction::FetchChannel
    }
}

/// After the channel is fetched: only threads are answered in; their
/// members are listed next.
pub open spec fn after_channel(stage: MessageStage, channel: Channel, next: MessageStage, action: MessageAction) -> bool {
    match stage {
        MessageStage::AwaitingChannel { bot_id, message } => if is_thread_channel(channel) {
            &&& next == (MessageStage::AwaitingMembers { bot_id, message, channel_id: channel_id_of(channel) })
            &&& action == (MessageAction::FetchThreadMembers { channel_id: channel_id_of(channel) })
        } else {
            stopped(next, action)
        },
        _ => stopped(next, action),
    }
}

/// After the members are listed: only threads the bot is a member of are
/// answered in; the stored thread is looked up next.
pub open spec fn after_thread_members(
    stage: MessageStage,
    thread_members: Seq<u64>,
    next: MessageStage,
    action: MessageAction,
) -> bool {
    match stage {
        MessageStage::AwaitingMembers { bot_id, message, channel_id } => if thread_members.contains(bot_id) {
            &&& next == (MessageStage::AwaitingThread { message, channel_id })
            &&& action == (MessageAction::FindThread { channel_id })
        } else {
            stopped(next, action)
        },
        _ => stopped(next, action),
    }
}

/// After the thread is looked up (`thread_id`, when it is stored): only
/// stored threads are answered in; the model is asked with the message's
/// text and the placeholder is posted.
pub open spec fn after_thread(stage: MessageStage, thread_id: Option<u64>, next: MessageStage, action: MessageAction) -> bool {
    match stage {
        MessageStage::AwaitingThread { message, .. } => match thread_id {
            Some(thread_id) => {
                &&& next == (MessageStage::AwaitingReply { message, thread_id })
                &&& action matches MessageAction::StartReply { thread_id: asked, prompt, placeholder }
                &&& asked == thread_id
                &&& prompt@ == message.content@
                &&& placeholder@ == placeholder_text()
            },
            None => stopped(next, action),
        },
        _ => stopped(next, action),
    }
}

/// After the placeholder is posted as the message `reply_id`: the answer
/// starts empty and the first chunk is awaited.
pub open spec fn after_reply_started(stage: MessageStage, reply_id: u64, next: MessageStage, action: MessageAction) -> bool {
    match stage {
        MessageStage::AwaitingReply { message, thread_id } => {
            &&& next matches MessageStage::Streaming { message: m, thread_id: t, reply_id: r, text }
            &&& m == message && t == thread_id && r == reply_id && text@.len() == 0
            &&& action == MessageAction::AwaitChunk
        },
        _ => stopped(next, action),
    }
}

/// After a chunk of the answer arrives: it is appended when the answer stays
/// under [`REPLY_BYTE_LIMIT`] bytes, and the posted answer is edited to the
/// new text; otherwise it is dropped and the next chunk awaited.
pub open spec fn after_chunk(stage: MessageStage, chunk: Seq<char>, next: MessageStage, action: MessageAction) -> bool {
    match stage {
        MessageStage::Streaming { message, thread_id, reply_id, text } => {
            &&& next matches MessageStage::Streaming { message: m, thread_id: t, reply_id: r, text: new_text }
            &&& m == message && t == thread_id && r == reply_id
            &&& new_text@ == reply_after_chunk(text@, chunk)
            &&& if byte_len(text@) + byte_len(chunk) < REPLY_BYTE_LIMIT {
                &&& action matches MessageAction::EditReply { reply_id: edited, text: shown }
                &&& edited == reply_id && shown@ == new_text@
            } else {
                action == MessageAction::AwaitChunk
            }
        },
        _ => stopped(next, action),
    }
}

/// After the answer ends: the user's message is stored first.
pub open spec fn after_stream_end(stage: MessageStage, next: MessageStage, action: MessageAction) -> bool {
    match stage {
        MessageStage::Streaming { message, thread_id, reply_id, text } => {
            &&& next == (MessageStage::AwaitingUserMessage { reply_id, text })
            &&& action == (MessageAction::SaveUserMessage {
                thread_id,
                message_id: message.message_id,
                user_id: message.author_id,
                content: message.content,
            })
        },
        _ => stopped(next, action),
    }
}

/// After the user's message is stored as `user_message_id`: the answer is
/// stored against it and the posted message, and the flow is finished.
pub open spec fn after_user_message_saved(
    stage: MessageStage,
    user_message_id: u64,
    next: MessageStage,
    action: MessageAction,
) -> bool {
    match stage {
        MessageStage::AwaitingUserMessage { reply_id, text } => {
            &&& next == MessageStage::Finished
            &&& action == (MessageAction::SaveAgentMessage { user_message_id, message_id: reply_id, content: text })
        },
        _ => stopped(next, action),
    }
}

/// The id of a looked-up thread, when it is stored.
pub open spec fn stored_thread_id(thread: Option<&Thread>) -> Option<u64> {
    match thread {
        Some(thread) => Some(thread.id),
        None => None,
    }
}

impl MessageFlow {
    /// The answer streamed so far stays under the limit.
    #[verifier::type_invariant]
    spec fn reply_within_limit(self) -> bool {
        match self.stage {
            MessageStage::Streaming { text, .. } => byte_len(text@) < REPLY_BYTE_LIMIT,
            MessageStage::AwaitingUserMessage { text, .. } => byte_len(text@) < REPLY_BYTE_LIMIT,
            _ => true,
        }
    }

    /// Where the answer stands.
    pub fn stage(&self) -> (stage: &MessageStage)
        ensures
            *stage == self@,
    {
        &self.stage
    }

    fn finish() -> (result: (MessageFlow, MessageAction))
        ensures
            stopped(result.0@, result.1),
    {
        (MessageFlow { stage: MessageStage::Finished }, MessageAction::Stop)
    }

    /// Starts answering `message`, received by the bot `bot_id`.
    pub fn begin(bot_id: u64, message: IncomingMessage) -> (result: (MessageFlow, MessageAction))
        ensures
            began(bot_id, message, result.0@, result.1),
    {
        if is_message_from_bot(bot_id, message.author_id) {
            Self::finish()
        } else {
            (
                MessageFlow { stage: MessageStage::AwaitingChannel { bot_id, message } },
                MessageAction::FetchChannel,
            )
        }
    }

    /// The channel of the message was fetched.
    pub fn on_channel(self, channel: Channel) -> (result: (MessageFlow, MessageAction))
        ensures
            after_channel(self@, channel, result.0@, result.1),
    {
        match self.stage {
            MessageStage::AwaitingChannel { bot_id, message } => {
                if is_thread(&channel) {
                    let channel_id = channel.id();
                    (
                        MessageFlow { stage: MessageStage::AwaitingMembers { bot_id, message, channel_id } },
                        MessageAction::FetchThreadMembers { channel_id },
                    )
                } else {
                    Self::finish()
                }
            },
            _ => Self::finish(),
        }
    }

    /// The members of the thread were listed.
    pub fn on_thread_members(self, thread_members: &[u64]) -> (result: (MessageFlow, MessageAction))
        ensures
            after_thread_members(self@, thread_members@, result.0@, result.1),
    {
        match self.stage {
            MessageStage::AwaitingMembers { bot_id, message, channel_id } => {
                if is_bot_in_thread(bot_id, thread_members) {
                    (
                        MessageFlow { stage: MessageStage::AwaitingThread { message, channel_id } },
                        MessageAction::FindThread { channel_id },
                    )
                } else {
                    Self::finish()
                }
            },
            _ => Self::finish(),
        }
    }

    /// The thread was looked up; `None` when it is not stored.
    pub fn on_thread(self, thread: Option<&Thread>) -> (result: (MessageFlow, MessageAction))
        ensures
            after_thread(self@, stored_thread_id(thread), result.0@, result.1),
    {
        match self.stage {
            MessageStage::AwaitingThread { message, .. } => match thread {
                Some(thread) => {
                    let prompt = message.content.clone();
                    proof { reveal_strlit("生成中..."); }
                    let placeholder = String::from_str("生成中...");
                    (
                        MessageFlow { stage: MessageStage::AwaitingReply { message, thread_id: thread.id } },
                        MessageAction::StartReply { thread_id: thread.id, prompt, placeholder },
                    )
                },
                None => Self::finish(),
            },
            _ => Self::finish(),
        }
    }

    /// The placeholder answer was posted as the message `reply_id`.
    pub fn on_reply_started(self, reply_id: u64) -> (result: (MessageFlow, MessageAction))
        ensures
            after_reply_started(self@, reply_id, result.0@, result.1),
    {
        match self.stage {
            MessageStage::AwaitingReply { message, thread_id } => {
                let text = String::new();
                proof { assert(byte_len(text@) == 0); }
                (
                    MessageFlow { stage: MessageStage::Streaming { message, thread_id, reply_id, text } },
                    MessageAction::AwaitChunk,
                )
            },
            _ => Self::finish(),
        }
    }

    /// A chunk of the model's answer arrived. Whatever it holds, the text
    /// shown stays under the limit.
    pub fn on_chunk(self, chunk: &str) -> (result: (MessageFlow, MessageAction))
        ensures
            after_chunk(self@, chunk@, result.0@, result.1),
            result.1 matches MessageAction::EditReply { text, .. } ==> byte_len(text@) < REPLY_BYTE_LIMIT,
    {
        proof { use_type_invariant(&self); }
        match self.stage {
            MessageStage::Streaming { message, thread_id, reply_id, text } => {
                let mut text = text;
                let ghost before = text@;
                let appended = append_chunk(&mut text, chunk);
                proof { lemma_byte_len_concat(before, chunk@); }
                if appended {
                    let shown = text.clone();
                    (
                        MessageFlow { stage: MessageStage::Streaming { message, thread_id, reply_id, text } },
                        MessageAction::EditReply { reply_id, text: shown },
                    )
                } else {
                    (
                        MessageFlow { stage: MessageStage::Streaming { message, thread_id, reply_id, text } },
                        MessageAction::AwaitChunk,
                    )
                }
            },
            _ => Self::finish(),
        }
    }

    /// The model's answer ended.
    pub fn on_stream_end(self) -> (result: (MessageFlow, MessageAction))
        ensures
            after_stream_end(self@, result.0@, result.1),
    {
        proof { use_type_invariant(&self); }
        match self.stage {
            MessageStage::Streaming { message, thread_id, reply_id, text } => {
                (
                    MessageFlow { stage: MessageStage::AwaitingUserMessage { reply_id, text } },
                    MessageAction::SaveUserMessage {
                        thread_id,
                        message_id: message.message_id,
                        user_id: message.author_id,
                        content: message.content,
                    },
                )
            },
            _ => Self::finish(),
        }
    }

    /// The user's message was stored under `user_message_id`. The answer
    /// stored next is under the limit.
    pub fn on_user_message_saved(self, user_message_id: u64) -> (result: (MessageFlow, MessageAction))
        ensures
            after_user_message_saved(self@, user_message_id, result.0@, result.1),
            result.1 matches MessageAction::SaveAgentMessage { content, .. } ==> byte_len(content@) < REPLY_BYTE_LIMIT,
    {
        proof { use_type_invariant(&self); }
        match self.stage {
            MessageStage::AwaitingUserMessage { reply_id, text } => (
                MessageFlow { stage: MessageStage::Finished },
                MessageAction::SaveAgentMessage { user_message_id, message_id: reply_id, content: text },
            ),
            _ => Self::finish(),
        }
    }
}

/// An answer is started exactly for a message someone other than the bot
/// wrote, in a thread channel the bot is a member of, that is stored; it is
/// then asked with the message's text, for that thread.
pub proof fn lemma_answer_started_only_when_admitted(
    bot_id: u64,
    message: IncomingMessage,
    channel: Channel,
    thread_members: Seq<u64>,
    thread_id: Option<u64>,
    stages: Seq<MessageStage>,
    actions: Seq<MessageAction>,
)
    requires
        stages.len() == 4,
        actions.len() == 4,
        began(bot_id, message, stages[0], actions[0]),
        after_channel(stages[0], channel, stages[1], actions[1]),
        after_thread_members(stages[1], thread_members, stages[2], actions[2]),
        after_thread(stages[2], thread_id, stages[3], actions[3]),
    ensures
        (actions[3] is StartReply) <==> {
            &&& message.author_id != bot_id
            &&& is_thread_channel(channel)
            &&& thread_members.contains(bot_id)
            &&& thread_id is Some
        },
        actions[3] matches MessageAction::StartReply { thread_id: asked, prompt, .. } ==> thread_id == Some(asked)
            && prompt@ == message.content@,
{
}

/// Streaming chunks one after another leaves the answer equal to the
/// chunks that fit, appended in order, and an answer that started under the
/// limit stays under it.
pub proof fn lemma_streamed_answer(
    stages: Seq<MessageStage>,
    actions: Seq<MessageAction>,
    chunks: Seq<Seq<char>>,
)
    requires
        stages.len() == chunks.len() + 1,
        actions.len() == chunks.len(),
        stages[0] is Streaming,
        forall|i: int| 0 <= i < chunks.len() ==> after_chunk(#[trigger] stages[i], chunks[i], stages[i + 1], actions[i]),
    ensures
        stages.last() matches MessageStage::Streaming { message, thread_id, reply_id, text } && {
            &&& stages[0] matches MessageStage::Streaming { message: m, thread_id: t, reply_id: r, text: first }
            &&& m == message && t == thread_id && r == reply_id
            &&& text@ == reply_after_chunks(first@, chunks)
            &&& byte_len(first@) < REPLY_BYTE_LIMIT ==> byte_len(text@) < REPLY_BYTE_LIMIT
        },
    decreases chunks.len(),
{
    if chunks.len() > 0 {
        let rest = stages.drop_first();
        assert forall|i: int| 0 <= i < chunks.drop_first().len() implies after_chunk(
            #[trigger] rest[i],
            chunks.drop_first()[i],
            rest[i + 1],
            actions.drop_first()[i],
        ) by {
            assert(after_chunk(stages[i + 1], chunks[i + 1], stages[i + 2], actions[i + 1]));
        }
        assert(after_chunk(stages[0], chunks[0], stages[1], actions[0]));
        lemma_streamed_answer(rest, actions.drop_first(), chunks.drop_first());
        if let MessageStage::Streaming { text: first, .. } = stages[0] {
            if byte_len(first@) < REPLY_BYTE_LIMIT {
                lemma_byte_len_concat(first@, chunks[0]);
            }
        }
    } else {
        if let MessageStage::Streaming { text, .. } = stages[0] {
            assert(reply_after_chunks(text@, chunks) == text@);
        }
    }
}

} // verus!
