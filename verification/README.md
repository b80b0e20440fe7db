# quell

A game template's verified core, written in Verus.

- `src/` is the library. Its decisions are verified: the free camera's input
  gating, cursor capture and release, keeping input contexts in step with the
  selected camera and the window's focus, the tracking camera's input check,
  the camera test's switching and help text, the player's pending movement,
  the world screen's loading, the dev console's toggle, focus styling and
  `screen` command, and the layout and priorities of the input contexts.
  Plugins do not touch the engine: each one appends registrations to a plan
  (`registry::App`), and its contract states exactly which.
- `app/` is the program: it installs the plan into the engine and holds the
  engine systems, which read the world, call the library's decisions and write
  back. Float work (orbit, zoom, following, movement math, gizmos) stays there.
- `tests/` drives the decisions frame by frame against stand-ins for the
  engine, and checks each decision and law on concrete values.
