# Orion Bot

The Discord bot of Orion Hosting: slash commands (help, ping, account, docs,
troubleshoot, and the owners' config, user and panels commands), a status
message that follows the Orion services, and a support chatbot.

## Layout

- `src/` is the verified library. Every function carries a contract that
  Verus proves, except the small trusted wrappers (marked
  `#[verifier::external_body]`) around calls into std, the regex crate,
  serde_json and twilight-model: their contracts, stated in their doc
  comments, are assumed, and the proofs of their callers rest on them.
  - `builders/`: Discord message components and their builders.
  - `framework/`: command metadata, what a handler reads of an interaction,
    replies, command errors, the command registry and the registration plan.
  - `orion_api/`: the Orion API data model, request paths and error reading.
  - `bot/`: the bot's own rules: locales, cards and panels, the troubleshoot
    menu, documentation lookup, the status message, the chatbot's decisions,
    command dispatch and error answers, and the command metadata.
  - `text.rs`: character-level string helpers.
- `tests/`: tests of the library.
- `app/`: the program around the library: configuration, the gateway loop,
  Discord and HTTP calls, the background services and the HTTP API.
