//! Game rules of a small arena game, held apart from any engine.
//!
//! Every quantity is a whole number: time in microseconds, lengths and
//! speeds in thousandths of a world unit, boost energy in ten-millionths of
//! a full charge.  The host converts at its edge and calls one pass per
//! frame.

pub mod timer;
pub mod fixed;
pub mod vector;
pub mod random;
pub mod boost;
pub mod movement;
pub mod actor;
pub mod enemy;
pub mod enemy_movement;
pub mod score;
pub mod enemy_falling;
pub mod player;
pub mod win;
pub mod powerup;
pub mod ui;
pub mod states;
pub mod camera;
pub mod enemy_spawning;
pub mod cube;
