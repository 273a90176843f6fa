# asterisk_rs

Clients for the three Asterisk PBX interfaces, with the protocol logic
verified by Verus.

- `src/ami`: the Asterisk Manager Interface. The line codec (`codec`, with
  its byte grammar in `wire`, and in `framing` the proof that a written frame
  is read back as the message it encodes), typed actions (`action`) and events (`event`),
  response and event-list correlation with its memory limits (`response`),
  the login exchange and message routing (`session`), client settings
  (`client`), header redaction (`redact`) and the call tracker (`tracker`).
- `src/agi`: the Asterisk Gateway Interface. Command formatting (`command`,
  `commands`), response parsing (`response`), the request prelude
  (`request`), the command round-trip state of a channel (`channel`) and
  server settings (`server`).
- `src/ari`: the Asterisk REST Interface. Configuration and its URLs
  (`config`), resource paths (`resources`) and event data (`event`).
- `src/text.rs`, `src/secret.rs`: text helpers and secrets kept in wiped
  memory.

`app/` holds the parts that do I/O: TCP connections, the FastAGI server loop,
tokio codecs, JSON (de)serialization of ARI events and error types for
callers. It drives the state machines of `src/` and converts between their
plain values and the network.
