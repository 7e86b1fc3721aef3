//! The command framework.
use vstd::prelude::*;

use crate::discord::commands::Command;

verus! {

/// The framework that dispatches slash commands and events.
pub struct Framework;

impl Framework {
    /// The commands registered, in order: `/ping`, `/random_music`, `/thread`.
    pub fn commands() -> (commands: Vec<Command>)
        ensures
            commands@ == seq![Command::Ping, Command::RandomMusic, Command::Thread],
    {
        let mut commands: Vec<Command> = Vec::new();
        commands.push(Command::Ping);
        commands.push(Command::RandomMusic);
        commands.push(Command::Thread);
        commands
    }
}

} // verus!
