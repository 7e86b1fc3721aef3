//! The Discord gateway client.
pub mod client;
pub mod framework;

use vstd::prelude::*;

verus! {

/// A gateway intent: a group of events the client subscribes to.
#[derive(Debug, Clone, Copy, PartialEq, Eq, Structural)]
pub enum GatewayIntent {
    Guilds,
    GuildMembers,
    GuildMessages,
    MessageContent,
}

/// The intents of a client driven by a plain event handler: guild messages
/// and their content.
pub fn handler_intents() -> (intents: Vec<GatewayIntent>)
    ensures
        intents@ == seq![GatewayIntent::GuildMessages, GatewayIntent::MessageContent],
{
    let mut intents: Vec<GatewayIntent> = Vec::new();
    intents.push(GatewayIntent::GuildMessages);
    intents.push(GatewayIntent::MessageContent);
    intents
}

} // verus!
