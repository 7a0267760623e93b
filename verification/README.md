# leaves 🍂

A self-hostable file hosting service: an HTTP API that stores uploaded files
for users holding an API token, and a command line client for it.

This crate is the verified core, written in Verus:

- `src/api/common/auth.rs` reads `Authorization: Basic <email>/token:<token>`
  header values; its contract is exact over the header's bytes, and the laws
  there show that the header the client builds is read back as the same
  email and token.
- `src/api/common/middleware/token_valid.rs` and `src/api/routes/` hold the
  decisions of the middleware and of every request handler (status codes,
  failures, new file ids, new API tokens, answers), as functions and
  step functions from stage and event to next stage and action.
- `src/api/migrations/` builds the SQLite schema with `barrel`.
- `src/http_client/` holds the client's settings, the paths and credentials
  of its calls and how it reads answer statuses.
- `src/cli/` holds the command line client's saved login and the decisions
  of its commands, as step functions that `app/` runs, performing the
  prompts, file reads and HTTP calls they ask for.
- `src/text.rs` holds the character-level string operations (trimming,
  decimal numbers, searching) that the contracts speak of.

`app/` is the unverified program around it: `leaves serve` runs the server
(tide, r2d2/rusqlite, the file system), any other invocation is the command
line client (isahc, the user's data directory, prompts).
