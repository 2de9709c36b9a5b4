# rpot

A verified library for a very basic RCON (remote console) honeypot that
logs the passwords and commands clients send it.

- `src/` is the library, verified with Verus: the packet format
  (`de_serialize`, `conversions`, `conventions`, `wire`), the replies
  (`generator`, `handlers`), the per-connection decisions (`session`), and
  the Discord webhook log (`webhook`, `webhook_model`, `logging`, `events`).
- `app/` is the server around it: TCP with tokio, HTTP to the webhook with
  reqwest, JSON with serde.
- `tests/` runs the library on concrete packets.

The server binds to `RPOT_BIND_ADDR`:`RPOT_BIND_PORT` (default
`0.0.0.0:25575`) and reports to the webhook at `RPOT_WEBHOOK_URL` when set.
