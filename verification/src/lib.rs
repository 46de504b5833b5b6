//! Game rules, lobby protocol and server/client state machines of the
//! raycer multiplayer car-combat game, with their contracts.
pub mod ai;
pub mod blaster;
pub mod car;
pub mod game;
pub mod net;
mod rng;
pub mod telemetry;
