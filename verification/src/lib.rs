//! Core simulation for a two-player paddle-and-ball game: a fixed
//! rectangular arena, two paddles moved by discrete up/down intents, and a
//! ball that bounces off the horizontal walls and the paddles and scores a
//! point when it fully leaves the field on either side.
//!
//! All geometry is measured in whole pixels (`i32`) and all frame times in
//! whole milliseconds, so every transition of the simulation is exact
//! integer arithmetic. Each executable type has a ghost model over `int`
//! (its view), and the single per-frame entry point, `game::GameState::step`,
//! is proved equal to a mathematical transition function on that model.

pub mod ball;
pub mod game;
pub mod geom;
pub mod laws;
pub mod paddle;
