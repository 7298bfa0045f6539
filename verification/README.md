# rustdesk-api

A minimal self-hosted API server for [RustDesk](https://rustdesk.com), with its rules verified
by [Verus](https://github.com/verus-lang/verus).

Users log in from the RustDesk client, and every workstation registered with the server appears
in their address book. Workstations register themselves: a client that is configured with an API
server posts its id, host name and operating system, and then sends heartbeats. Every user has
two address books: "All Workstations", which is the same for everyone and cannot be edited, and a
personal one. Sessions are kept by the server: `user rm` and `user passwd` end those of the account
at once.

## Layout

| Place | Contents |
|---|---|
| `src/api/` | the HTTP endpoints and the routing table |
| `src/auth.rs` | passwords and session tokens |
| `src/db.rs` | rows, and what is computed around reading and writing them |
| `src/query.rs` | what the server asks of its database, and what it gets back |
| `src/document.rs`, `src/json.rs` | JSON from outside, and JSON to send |
| `src/cli.rs` | account and device management from the command line |
| `src/startup.rs`, `src/config.rs` | the start of the server and its configuration |
| `src/shim.rs` | a TCP shim that unblocks logged-in clients of an open-source ID server |
| `src/tables.rs` | a model of the database |
| `src/laws/` | what holds of the server as a whole |
| `app/` | sockets, SQLite, the terminal and the environment around the library |
| `tests/` | tests of the library |

The library makes decisions and never waits. An endpoint returns a `Step`: either the response,
or a query together with what it waits for. Whoever runs the server carries the query out and
hands the reply to `api::resume`. Commands (`cli::Turn`), the start (`startup::Boot`) and the shim
work in the same way.

Every function states exactly what it returns; of tokens and guids that are drawn, and of the
clock, only what holds of every outcome. `src/laws/` relates them: for instance that a
registered workstation is in everyone's address book, that a personal book is only touched after
its owner was confirmed, that status 401 means exactly that there is no valid session, and that
renaming a tag reaches every peer of the book. Laws about whole requests are stated over the
model in `src/tables.rs`; those in `src/laws/access.rs` hold whatever the database replies.

What is relied on without proof are the calls into `serde_json`, `argon2`, `rand_core` and a few
functions of the standard library. Each stands in a small item whose comment says what it claims.

## Configuration

| Variable | Default | Meaning |
|---|---|---|
| `RDAPI_BIND` | `0.0.0.0:21114` | Listen address |
| `RDAPI_DB` | `sqlite://rustdesk-api.db` | SQLite path |
| `RDAPI_TOKEN_TTL_DAYS` | `30` | Session lifetime |
| `RDAPI_DEVICE_STALE_DAYS` | `0` | Hide devices not seen in N days; `0` shows all |
| `RDAPI_ADMIN_USER` | | First-boot admin, ignored once any user exists |
| `RDAPI_ADMIN_PASSWORD` | | First-boot admin password |
