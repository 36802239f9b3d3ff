# lightleap

The Fates List API: the rules that requests to the bot and server list must
pass, and the answers built from what the database and outside services hold.

- `src/` is the library, verified with Verus. Each module states in its
  contracts what it decides: the checks a bot passes before it is added or
  edited (`bot_checks`, run as a step-by-step machine), imports from other bot
  lists (`imports`), votes and their webhooks (`votes`, `converters`), server
  invites (`servers`), reviews, packs, profiles, appeals, the gateway
  commands, and the reference documentation of the enums and routes. The few
  calls into outside crates (markdown rendering, HTML sanitizing, HMAC, hex,
  UUIDs, decimals, random tokens, ordered maps) sit behind small trusted
  wrappers whose contracts say what the crates document.
- `tests/` runs the library on concrete values, with the outside crates
  linked.
- `app/` is the HTTP server around the library: the routes, the Postgres
  queries, Redis, the calls to Discord and the other services, and the JSON
  forms of the records.
