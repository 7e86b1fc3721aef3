//! The channels the bot reads messages from.
use vstd::prelude::*;

verus! {

/// The kind of a Discord channel (`type` in the channel object).
#[derive(Debug, Clone, Copy, PartialEq, Eq, Structural)]
pub enum ChannelType {
    Text,
    Private,
    Voice,
    GroupDm,
    Category,
    News,
    NewsThread,
    PublicThread,
    PrivateThread,
    Stage,
    Directory,
    Forum,
    /// A kind this bot does not know, by its number.
    Unknown(u8),
}

/// A channel a message was posted in: one of a guild, or a direct message.
#[derive(Debug, Clone, Copy, PartialEq, Eq, Structural)]
pub enum Channel {
    Guild { id: u64, kind: ChannelType },
    Private { id: u64 },
}

impl Channel {
    /// The channel's id.
    pub fn id(&self) -> (id: u64)
        ensures
            id == channel_id_of(*self),
            *self matches Channel::Guild { id: given, .. } ==> id == given,
            *self matches Channel::Private { id: given } ==> id == given,
    {
        match self {
            Channel::Guild { id, .. } => *id,
            Channel::Private { id } => *id,
        }
    }
}

/// The id of a channel.
pub open spec fn channel_id_of(channel: Channel) -> u64 {
    match channel {
        Channel::Guild { id, .. } => id,
        Channel::Private { id } => id,
    }
}

/// A thread: a guild channel of one of the three thread kinds.
pub open spec fn is_thread_channel(channel: Channel) -> bool {
    match channel {
        Channel::Guild { kind, .. } => kind == ChannelType::PublicThread
            || kind == ChannelType::PrivateThread || kind == ChannelType::NewsThread,
        Channel::Private { .. } => false,
    }
}

/// A channel's id is the id it was given, whatever its kind.
pub proof fn lemma_channel_id_is_given_id(id: u64, kind: ChannelType)
    ensures
        channel_id_of(Channel::Guild { id, kind }) == id,
        channel_id_of(Channel::Private { id }) == id,
{
}

/// Exactly the public, private and news threads of a guild are threads: a
/// guild channel of any other kind, and any direct message channel, is not.
pub proof fn lemma_only_thread_kinds_are_threads(id: u64, kind: ChannelType)
    ensures
        is_thread_channel(Channel::Guild { id, kind: ChannelType::PublicThread }),
        is_thread_channel(Channel::Guild { id, kind: ChannelType::PrivateThread }),
        is_thread_channel(Channel::Guild { id, kind: ChannelType::NewsThread }),
        kind != ChannelType::PublicThread && kind != ChannelType::PrivateThread
            && kind != ChannelType::NewsThread ==> !is_thread_channel(Channel::Guild { id, kind }),
        !is_thread_channel(Channel::Private { id }),
{
}

} // verus!
