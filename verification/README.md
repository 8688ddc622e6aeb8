# open4x

The lobby, account store and client tooling of open4x, with their logic
written as a Verus library whose contracts are proved.

## Layout

- `src/` — the verified library.
  - `text` — character-level helpers: hex and decimal text of integers,
    hex parsing, substring search, splitting.
  - `model`, `store`, `mem_store` — player ids, identities, accounts; the
    row encoding of identities; an in-memory account store whose every
    operation is stated over a map from player ids to accounts, with the
    store's invariant (one owner per identity key) and its laws.
  - `mailer` — the mail-transport interface and the development mailer's
    log lines.
  - `orchestrator`, `games`, `me` — the lobby's REST decisions: request
    checks, bootstrap parameters, which reply each store outcome gets.
  - `api_auth`, `api_games`, `api_me` — the browser-side REST bindings
    (paths, verbs, bodies).
  - `cli`, `sdk` — the command-line client's server mode and the SDK's
    request paths and error text.
  - `ui` — the lobby SPA's navigation, wizard steps, widget classes, the
    thumbnail cache, and the mappings its screens render from.
- `tests/` — tests of the library on concrete values.
- `app/` — the lobby binary and the I/O around the library: the axum
  handlers, the sqlite account store, the HTTP calls to the game server,
  the blocking CLI client and the SDK endpoint calls.
