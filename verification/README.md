# editor_support

Verified pieces of an editor's UI logic, written in Verus.

- `src/blink.rs`: the cursor-blink state machine. Each call returns the
  effects it asks for (repaint, start a timer with an epoch and a delay);
  the model of every step is an open spec function, and the laws (stale
  timers are ignored, pausing defers blinking, enabling shows the cursor, ...)
  are proof functions over those steps.
- `src/fetch.rs`: the URL picker's model and the decoding of a fetched page:
  URL normalization, status and `Content-Type` checks, plain text and JSON
  bodies, and the choice of HTML handlers.
- `src/notification.rs`: the heading of the update notice, with decimal
  version numbers.
- `src/pixels.rs`: premultiplied BGRA to straight RGBA conversion.
- `src/uds.rs`: the decisions of a poll of incoming socket connections.
- `src/text.rs`: character-level prefix, substring and equality checks.
- `app/`: the glue that runs the effects: UI framework models and views,
  timers, HTTP, HTML-to-Markdown conversion and Windows sockets.
