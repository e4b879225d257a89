# ballista_tui

The decision logic of the Ballista terminal dashboard, verified with Verus.

- `src/event.rs`: the events the main loop receives, and the state machine of
  the background task that forwards ticks and key presses to it.
- `src/key_queue.rs`: the queue of keys reported by a browser terminal.
- `src/dashboard.rs`: the tables and popups that loaded scheduler data
  replaces, and how a reload keeps scroll positions and sort settings.
- `src/session.rs`: how the main loop reacts to the next input event.
- `app/`: the tokio tasks, terminal and browser plumbing that run these
  decisions (not verified).
