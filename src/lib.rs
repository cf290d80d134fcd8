//! Simulation core of a small side-scrolling shooter: bounded bullet queues,
//! the player and the enemy, collision passes, scoring and the game state machine.

pub mod audio;
pub mod enemy;
pub mod game;
pub mod geometry;
pub mod joystick;
pub mod player;
pub mod shots;
