# agent_server

The decision logic of a desktop agent server, verified with Verus.

- `src/a11y.rs` — the accessibility tree and its searches (editor and send
  button, chat frames, message text, the chat list).
- `src/send_message.rs` — the send-message plan as a transition function, with
  its laws (popups first, bounded retries, input only into the named chat).
- `src/finder_short_link.rs` — identity and cookie validation, the short-link
  request, and which replies and links are believed.
- `src/video_downloads.rs` — request validation, stored rows, re-queueing,
  which operations a run may claim, the course of a run, and the judging of a
  downloader run.
- `src/exec.rs` — the environment helper programs run with, and their results.
- `src/json.rs`, `src/text.rs` — JSON values (parsed with `serde_json`) and
  character-level helpers.

`app/` holds the HTTP handlers, the database, process spawning, the clock and
the desktop driver. It performs the I/O each step needs and hands the results
to the library, which decides what happens next.
