# dispatch

The verified core of a small chat service (a REST + websocket backend, a terminal
client and an echo server), written in Verus.

- `src/` — the library, verified by Verus:
  - `response`: the raw HTTP responses the server writes;
  - `request`: routing of raw requests by method and path;
  - `auth`, `endpoints`, `token`: credential checks and the sign-in / sign-up replies,
    with session tokens signed and checked by jwt-simple;
  - `registry`: the users connected to the chat and the recipients of a broadcast;
  - `session`: the websocket session protocol (token, chat, leave) and the echo rule;
  - `message`, `connection`: chat messages, their on-screen layout, connections;
  - `client`: the client's status lines and input handling;
  - `text`: string helpers specified after std (`contains`, `trim_end`, white space).
- `tests/` — tests run against the compiled library.
- `app/` — the programs: sockets, database, tasks and the terminal UI around the library
  (`app server`, `app client`, `app echo`).
