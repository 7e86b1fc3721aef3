//! The bot's slash commands.
pub mod ping;
pub mod random_music;
pub mod ss;
pub mod thread;

use vstd::prelude::*;

verus! {

/// The slash commands of the bot.
pub struct Commands;

/// One slash command.
#[derive(Debug, Clone, Copy, PartialEq, Eq, Structural)]
pub enum Command {
    /// `/ping`: answers `Pong!`.
    Ping,
    /// `/random_music`: shares a random track of a followed artist.
    RandomMusic,
    /// `/ss`: opens a thread to ask questions in.
    Ss,
    /// `/thread`: opens a thread to ask questions in and stores it.
    Thread,
}

/// The name a command is registered under.
pub open spec fn command_name(command: Command) -> Seq<char> {
    match command {
        Command::Ping => "ping"@,
        Command::RandomMusic => "random_music"@,
        Command::Ss => "ss"@,
        Command::Thread => "thread"@,
    }
}

impl Command {
    /// The name the command is registered under.
    pub fn name(&self) -> (name: &'static str)
        ensures
            name@ == command_name(*self),
    {
        match self {
            Command::Ping => {
                proof { reveal_strlit("ping"); }
                "ping"
            },
            Command::RandomMusic => {
                proof { reveal_strlit("random_music"); }
                "random_music"
            },
            Command::Ss => {
                proof { reveal_strlit("ss"); }
                "ss"
            },
            Command::Thread => {
                proof { reveal_strlit("thread"); }
                "thread"
            },
        }
    }
}

} // verus!
