# dcp

The verified core of a small decentralized chat platform: a WebSocket chat
server with an SQLite message store, and a terminal client.

- `src/` is the library, verified with Verus:
  - `messages`: the values client and server exchange;
  - `clock`: timestamps, the local wall-clock text shown for them and the
    reading of stored time texts (through the `time` crate);
  - `oldest`: the oldest message time a client has seen;
  - `server`, `history`, `session`: one server connection, from the
    announcement through the history stream to storing and relaying posts;
  - `client`, `ui`, `text`: the terminal client's history exchange and screen.
- `app/` holds the programs around it (`dcp server`, `dcp test-client`,
  `dcp client`): network, database, terminal and JSON work.
- `tests/` exercises the library on concrete values.
