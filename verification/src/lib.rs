//! Simulation core of a two-player paddle-and-ball game.
//!
//! All quantities are integers. Lengths and speeds are counted in ticks,
//! [`fixed::UNIT`] of which make one unit of the play field; times are counted
//! in microseconds.

pub mod ball;
pub mod fixed;
pub mod game;
pub mod geometry;
pub mod input;
pub mod player;

pub use crate::ball::Ball;
pub use crate::game::{FrameEvents, GameState, MyGame};
pub use crate::geometry::{intersects, Vec2};
pub use crate::input::{Direction, KeyCode, PlayerDirection};
pub use crate::player::Player;
