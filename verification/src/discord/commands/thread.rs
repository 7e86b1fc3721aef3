//! `/thread`: opens a public thread to ask questions in, and stores it so
//! that the bot answers there.
use vstd::prelude::*;

use crate::model::thread::InsertInput;

verus! {

/// Why a thread could not be stored.
#[derive(Debug, Clone, Copy, PartialEq, Eq, Structural)]
pub enum ThreadError {
    /// The command was not used in a guild.
    NotInGuild,
}

/// The message reported for an error.
pub open spec fn error_text(error: ThreadError) -> Seq<char> {
    match error {
        ThreadError::NotInGuild => "想定外のエラーが発生しました"@,
    }
}

impl ThreadError {
    /// The message reported to the user.
    pub fn message(&self) -> (text: String)
        ensures
            text@ == error_text(*self),
    {
        match self {
            ThreadError::NotInGuild => {
                proof { reveal_strlit("想定外のエラーが発生しました"); }
                String::from_str("想定外のエラーが発生しました")
            },
        }
    }
}

/// The row stored for the new thread `channel_id` of the guild the command
/// was used in; an error when it was used outside a guild.
pub fn record(guild_id: Option<u64>, channel_id: u64) -> (input: Result<InsertInput, ThreadError>)
    ensures
        match guild_id {
            Some(guild_id) => input matches Ok(input) && input@ == (guild_id, channel_id),
            None => input == Err::<InsertInput, ThreadError>(ThreadError::NotInGuild),
        },
{
    match guild_id {
        Some(guild_id) => Ok(InsertInput::new(guild_id, channel_id)),
        None => Err(ThreadError::NotInGuild),
    }
}

} // verus!
