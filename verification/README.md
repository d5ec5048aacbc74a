# Agent of Empires

The logic of a dashboard for coding agents, verified with
[Verus](https://github.com/verus-lang/verus): web push notifications, the sounds
that status changes make, and the terminal user interface.

- `src/` is the verified library. It reads no clock, no file and no terminal:
  what it needs to know comes in as arguments, and what is to be done comes out
  as values.
  - `push/`: when a session's state is worth a push (`dwell`), what is sent to
    whom (`notify`), who asked for it (`store`), the server's key pair (`vapid`),
    encodings and hashes (`codec`), the requests of browsers (`handlers`), and
    what holds of all that (`laws`).
  - `sound`: which sound a change of status makes.
  - `tui/`: keys and pastes (`keys`), the application (`app`), work on sessions
    (`actions`), the main loop (`event_loop`), updates (`update`), the previews
    (`preview`), the help overlay (`help`), deletions in the background
    (`deletion_poller`).
- `tests/` runs the library.
- `app/` is ordinary Rust around it: files, HTTP, the terminal and threads.

Functions named `law_..` state what holds across functions. Calls into other
crates stand in functions marked `external_body`; the comment above each says
what is taken on trust.
