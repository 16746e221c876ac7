# tiygate_client

The verified core of the TiyGate desktop client and of its SQLite
maintenance task, written in Verus.

- `src/maintenance.rs` — maintenance settings (defaults, environment,
  runtime settings), the vacuum decision, the background loop as a
  state machine (including the exit for non-SQLite databases), and a
  maintenance pass as a state machine that asks for one database operation
  at a time; proofs that a pass stays safe, that a failed statement ends it,
  and that it ends with the stated report.
- `src/client_config.rs` — the local client configuration, its random
  hex secrets, and the changes the setup commands make to it.
- `src/commands.rs` — what the setup commands decide: wizard visibility,
  secret validation, readers that fall back on lock failure, the sidecar's
  database URL.
- `src/provider.rs` — the OpenAI provider's metadata and egress endpoint choice.
- `src/text.rs` — character-level helpers with exact specifications
  (`trim`, `parse::<u64>`, `parse::<bool>`, segment and substring search).
- `app/` — the file, environment, database and locking code around the library.
- `tests/` — executable tests of the library.
