# raycer

A small multiplayer car-combat game. This crate holds the game's rules and its
lobby protocol as a verified library; the 3D engine, physics, sockets and user
interface sit in `app/`.

## Layout

- `src/` — the library, verified by Verus:
  - `net/protocol.rs`: wire messages, settings, peer addresses.
  - `net/server.rs`: the hosting server's state and its handling of client
    messages. Its well-formedness (`GameServer::wf`) is kept by every message.
  - `net/client.rs`: the client's state, input numbering, discovery list and
    the plan that keeps remote cars in line with a snapshot.
  - `game.rs`: game phases, the opponent/health selectors, the referee
    (`check_game_state`).
  - `car.rs`, `blaster.rs`: model selectors, damage, health squares, telemetry
    history, wheel naming.
  - `ai.rs`: opponents' loadouts and when they blow up.
  - `telemetry.rs`: the telemetry recorder.
- `tests/` — tests of the library on concrete values.
- `app/` — the bevy application: systems, rendering, physics (floating point),
  sockets and serialisation, calling into the library for each decision.
