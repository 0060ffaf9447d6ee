# friendlyfire

A service for sharing pictures and videos between desktop clients: a relay server
relays the clients' websocket messages and stores uploads for two minutes, and each
client uploads media, announces it, and shows what the others announce.

- `src/` is the verified library (Verus): the relay server's session decisions and
  upload handling (`relay`), the client's server URLs (`server_state`, `urls`), the
  steps of connecting and disconnecting (`connection`), media sending (`media`), the
  JSON messages (`messages`), the settings store's errors (`store`), and the earlier
  client's `;`-separated text protocol (`frames`, with the number texts in `numbers`).
- `app/` is the relay server program (axum and tokio) around the library.
- `tests/` runs the library on concrete values.
