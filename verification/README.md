# botc_mcp

An engine for *Blood on the Clocktower* (Trouble Brewing), a tool server that offers it over
JSON-RPC, and a harness that seats language-model agents at one table. The library is verified
with Verus: every executable function in `src/` carries a contract over a mathematical model of
its data.

## Layout

- `src/game/` — the rules: setup, nights, days, abilities, winning. `GameView` is the model of a
  game; each action is a spec function from one `GameView` to the next. `laws.rs` holds what
  follows for every game.
- `src/comms.rs`, `src/auth.rs`, `src/store.rs`, `src/rng.rs` — the public and private records,
  tokens, the table of games, seeded draws.
- `src/tools/`, `src/mcp_server/` — the tools by name, their arguments and replies, JSON-RPC.
- `src/harness/` — who is due next, durable wakes, the socket protocol, agent sessions and
  streams, model statistics and balanced seating; `tui/` is what the screen shows and how it
  answers to keys.
- `src/json.rs`, `src/text.rs` — JSON values and text, with their models.
- `app/` — terminal, sockets, processes, files and clocks around the library.
- `tests/` — concrete games, sessions and screens.

## What is trusted

A few outside functions are called behind contracts that are believed rather than proved: the
ChaCha generator and its `rand` adapters (`rng.rs`), UUIDs (`auth.rs`), reading and printing JSON
(`json.rs`), the `Debug` form of a string (`harness/wake.rs`), line wrapping
(`harness/tui/stream_pane.rs`) and `String::push` (`text.rs`). Each says in its doc comment what
is claimed of it.
