# ss_discord_bot

A Discord bot that answers questions asked in its threads with a language
model (keeping each thread's conversation in MySQL), shares a random track
of a followed Spotify artist, and serves a small tool server the model can
call.

- `src/` is the library, verified with Verus: the decisions the bot takes
  and the values it sends, each with its contract.
  - `discord/events/messages.rs`: answering a message in a thread, step by
    step (`MessageFlow`), with the answer kept under 4000 bytes.
  - `discord/commands/`: the slash commands' replies, thread names and the
    random picks of `/random_music`.
  - `spotify/`, `client/spotify/`: paging through followed artists and the
    token request.
  - `model/`: the stored rows and the conversation turns they become.
  - `infrastructure/`: client intents, registered commands, model settings
    and the tool server's addresses.
  - `text.rs`: decimal rendering and UTF-8 byte lengths.
- `app/` is the program around it: Discord (serenity, poise), the database
  (sqlx), HTTP (reqwest), the model provider (rig) and the tool server
  (rmcp). It performs the steps the library decides.
- `tests/` runs the library on concrete values.
