# woodpecker

A local session controller for tick-driven games: it launches a game process,
speaks a line-based JSON protocol with it, correlates requests with their
answers, records the commands of a session to a file and replays such a file,
and offers the game side a virtual keyboard, pointer, text input and
screenshots that only take effect during explicit tick warps.

## Layout

- `src/` — the verified library (Verus). The session's decisions live here
  with their contracts; what JSON text denotes (the schemas of commands,
  messages and recording lines) is read in `app/` and handed over as plain
  values:
  - `error`, `protocol`, `command`, `history`: error codes, wire messages,
    commands and the persisted shape of outcomes;
  - `session`, `coordinator`: the shared session state (results, abandoned
    requests, the bounded event queue and history) and the coordinator's
    handshake, admission, correlation and supervision decisions;
  - `recording`, `loader`, `replay`: the recording state machine, the
    recording file format read line by line into a plan, and the replay
    state machine with its execution barriers and stop handling;
  - `bridge`, `keyboard`, `pointer`, `text_input`, `window`: the game-side
    tick warps, readiness handshake and virtual input devices;
  - `screenshot`, `capture`: screenshot paths, target selection, frame
    verification, output readiness and the capture queue;
  - `launch`: launch configuration checks, the package that `cargo metadata`
    output resolves to, and run arguments;
  - `inspect`: entity queries (type path validation, selection and order),
    the hierarchy projection and the order of an entity's components;
  - `text`, `json`, `paths`: small text, JSON and path helpers.
- `tests/` — tests of the library on concrete values.
- `app/` — ordinary Rust around the library: the game process and its pipes,
  the coordinator thread, recording and screenshot files, reading recordings
  back, and the JSON forms of the library's types.
