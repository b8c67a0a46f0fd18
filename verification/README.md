# daemonizable

Applications that spawn themselves as a background daemon and keep a typed RPC
channel to it.

The foreground process re-executes its own binary twice: a short-lived first
stage starts a new session, and the second stage becomes the daemon. One socket
pair connects the two ends. It carries two stage tokens, then the daemon's build
id, then length-prefixed messages.

## Layout

- `src/` is the verified library. It holds every decision and does no I/O itself:
  a function takes what happened and returns what to do next.
  - `channel`: framing, the poisoning rules of both halves, and receives and sends
    with a deadline, on sockets and on pipes; `channel::laws` relates what is sent
    to what is received.
  - `rpc`: the two ends of a daemon's channel.
  - `spawn`: the stage tokens and their dispatch, the path to re-execute, the
    order of a spawn and its clean-up, the build-id handshake, the peer's
    credentials, and the claim of the inherited descriptor.
  - `app`: the startup sequences of the two stages, and of a daemon in a single
    image that is handed a payload.
  - `stdio`: redirecting the standard streams to `/dev/null`.
  - `attribute`: the `main` attribute.
  - `echo_app`: a small application on top of it, with its helpers.
  - `error`, `time`, `text`, `utf8`: errors and their texts, deadlines, numbers
    and lines of text, bytes as text.
- `tests/` runs the library on simulated sockets, clocks and descriptor tables.
- `app/` carries the decisions out on real sockets, descriptors and processes, and
  holds the typed, serde-generic interface.

Calls into other crates from `src/` (`postcard` for messages, `syn` for the
attribute) and into the parts of the standard library without a specification
stand behind small functions whose contracts are assumed; each says what it
assumes.
