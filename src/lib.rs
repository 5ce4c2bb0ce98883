//! Control logic for an interactive spaceship-simulator prop: a tick-driven
//! directive game, ship subsystem tracking, a distance accumulator and
//! debounced switch inputs.

pub mod time;
pub mod controls;
pub mod toggle_switch;
pub mod messages;
mod rng;
pub mod ship_state;
pub mod ship_distance;
pub mod game_logic;
pub mod game_state;
pub mod game;
pub mod client;
pub mod dispatch;
