//! The client that runs the command framework.
use vstd::prelude::*;

use super::GatewayIntent;

verus! {

/// The Discord client of the bot.
pub struct Client;

impl Client {
    /// The intents the client subscribes to: guild messages and their
    /// content, guilds, and guild members.
    pub fn intents() -> (intents: Vec<GatewayIntent>)
        ensures
            intents@ == seq![
                GatewayIntent::GuildMessages,
                GatewayIntent::MessageContent,
                GatewayIntent::Guilds,
                GatewayIntent::GuildMembers,
            ],
    {
        let mut intents: Vec<GatewayIntent> = Vec::new();
        intents.push(GatewayIntent::GuildMessages);
        intents.push(GatewayIntent::MessageContent);
        intents.push(GatewayIntent::Guilds);
        intents.push(GatewayIntent::GuildMembers);
        intents
    }
}

} // verus!
