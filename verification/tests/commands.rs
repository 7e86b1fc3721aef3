use ss_discord_bot::discord::channel::ChannelType;
use ss_discord_bot::discord::commands::thread::{record, ThreadError};
use ss_discord_bot::discord::commands::{ping, ss, Command};
use ss_discord_bot::infrastructure::database::pool::MAX_CONNECTIONS;
use ss_discord_bot::infrastructure::discord::client::Client;
use ss_discord_bot::infrastructure::discord::framework::Framework;
use ss_discord_bot::infrastructure::discord::{handler_intents, GatewayIntent};
use ss_discord_bot::infrastructure::llm::{agent::Agent, client};
use ss_discord_bot::infrastructure::mcp::server::{Mcp, Server};
use ss_discord_bot::infrastructure::mcp::toolset::ToolSet;

#[test]
fn ping_answers_pong() {
    assert_eq!(ping::reply(), "Pong!");
}

#[test]
fn thread_name_holds_interaction_id() {
    assert_eq!(ss::thread_name(1234567890123), "SSくん-1234567890123");
    assert_eq!(ss::thread_name(0), "SSくん-0");
}

#[test]
fn thread_texts_and_kind() {
    assert_eq!(ss::creating_notice(), "スレッドを作成します");
    assert_eq!(ss::greeting(), "質問してみましょう");
    assert_eq!(ss::thread_kind(), ChannelType::PublicThread);
}

#[test]
fn thread_record_needs_a_guild() {
    let input = record(Some(5), 6).unwrap();
    assert_eq!((input.guild_id(), input.channel_id()), (5, 6));
    let error = record(None, 6).unwrap_err();
    assert_eq!(error, ThreadError::NotInGuild);
    assert_eq!(error.message(), "想定外のエラーが発生しました");
}

#[test]
fn command_names() {
    assert_eq!(Command::Ping.name(), "ping");
    assert_eq!(Command::RandomMusic.name(), "random_music");
    assert_eq!(Command::Ss.name(), "ss");
    assert_eq!(Command::Thread.name(), "thread");
    assert_eq!(Framework::commands(), vec![Command::Ping, Command::RandomMusic, Command::Thread]);
}

#[test]
fn client_intents() {
    assert_eq!(
        Client::intents(),
        vec![GatewayIntent::GuildMessages, GatewayIntent::MessageContent, GatewayIntent::Guilds, GatewayIntent::GuildMembers]
    );
    assert_eq!(handler_intents(), vec![GatewayIntent::GuildMessages, GatewayIntent::MessageContent]);
}

#[test]
fn agent_settings() {
    let settings = Agent::settings();
    assert_eq!(settings.max_tokens, 25000);
    assert_eq!(settings.dynamic_tools, 30);
    let preamble = settings.preamble.unwrap();
    assert!(preamble.contains("使用可能なツールがある場合は、ツールを使用してください。"));
    assert!(preamble.starts_with('\n'));
    let plain = client::settings();
    assert_eq!((plain.max_tokens, plain.dynamic_tools, plain.preamble), (25000, 10, None));
}

#[test]
fn tool_server_settings() {
    assert_eq!(Server::bind_address(), "127.0.0.1:8000");
    assert_eq!(ToolSet::server_url(), "http://localhost:8000/sse");
    assert_eq!(Mcp::new(), Mcp);
    assert_eq!(Mcp::mcp(), "MCP サーバーを使っています");
    assert_eq!(MAX_CONNECTIONS, 5);
}
