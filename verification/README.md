# telegram_bot

A client for the Telegram Bot API whose decisions are proved with Verus.

- `src/` is the verified library:
  - `duration.rs`: spans of time as whole seconds and sub-second nanoseconds.
  - `stream.rs`: the long-polling update stream as a state machine. Given how
    the request in flight ended, it says what to do next (send `getUpdates`
    from the right offset, report an error and pause, or hand out buffered
    updates), with the stream's laws proved over its spec functions.
  - `api.rs`: the configuration of an `Api` handle (token and connector), the
    handle itself, and how a timed request settles.
  - `connector/hyper.rs`: the hyper-backed connector's client, and how a
    Telegram request becomes an HTTP request and an HTTP response body a
    Telegram one.
- `app/` holds the asynchronous parts: the `Connector` trait and its hyper
  implementation, sending requests, the `futures::Stream` that drives the
  verified stream, and the error type.
- `tests/` runs the library on concrete values.
