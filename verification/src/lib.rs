//! Game logic of a two-player kart race: menus, countdown, laps, spin-outs,
//! pausing and victory, as a verified frame-by-frame state machine.

pub mod frames;
pub mod racer;
pub mod menu;
pub mod game;
pub mod laws;
