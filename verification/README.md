# sq_streamhook

A Twitch chat bot's logic, verified with Verus.

- `src/` is the verified library: URL building (`lib.rs`), the OAuth texts and
  the application and user token refresh flows as state machines (`auth.rs`),
  the redirect handling (`server.rs`), the SQL of the token database
  (`database.rs`), the Helix requests and answers (`twitch_api.rs`), the
  configuration store (`config.rs`) and the command line dispatch (`cli.rs`).
- `app/` is the program around it: clap, serde, sqlx, reqwest, axum and tokio
  do the I/O and drive the library's state machines.
- `tests/` exercises the library on concrete values.
