# libsgc-rs

A client library for the simple-graphics-controller daemon (`@sgc`), the process
that owns a machine's display and input devices and hands them out as revocable
leases. The session is written in Verus: what it sends, holds, closes and tells
is stated in contracts and proved.

- `src/` is the session. It does no I/O: every call returns a `Step` that says
  what to do, and `resume` takes what came of it.
  - `session` is the machine that the contracts speak of; `client` implements it.
  - `driver` holds the steps, actions and replies.
  - `frame`, `wait`, `lease`, `protocol` and `error` are its parts.
  - `laws` holds what is proved of the session as a whole: where every
    descriptor goes, what is answered, in which order things are told, how long
    an acquire waits, and that frames survive any cut of the stream.
- `app/` drives a session over a real Unix socket.
- `tests/` runs sessions against a daemon in memory.

The wire codec is the `simple-graphics-protocol` crate. The three functions at
the end of `src/protocol.rs` are the only ones that are trusted: they call that
crate, and their contracts say what is believed of it.
