//! From keys to what a player asks of a paddle.

use vstd::prelude::*;

verus! {

/// The way a paddle is asked to go.
#[derive(Clone, Copy, Debug, PartialEq, Eq, Structural)]
pub enum Direction {
    Up,
    Down,
}

/// A key of the keyboard, as far as the game tells keys apart.
#[derive(Clone, Copy, Debug, PartialEq, Eq, Structural)]
pub enum KeyCode {
    W,
    S,
    Up,
    Down,
    /// Any key that steers no paddle.
    Other,
}

/// A direction, together with the player who asks for it.
#[derive(Clone, Copy, Debug, PartialEq, Eq, Structural)]
pub enum PlayerDirection {
    PlayerOne(Direction),
    PlayerTwo(Direction),
}

impl PlayerDirection {
    /// The fixed table of keys: `W` and `S` steer the first paddle, the two
    /// arrows the second.
    pub open spec fn of_key(key: KeyCode) -> Option<PlayerDirection> {
        match key {
            KeyCode::W => Some(PlayerDirection::PlayerOne(Direction::Up)),
            KeyCode::S => Some(PlayerDirection::PlayerOne(Direction::Down)),
            KeyCode::Up => Some(PlayerDirection::PlayerTwo(Direction::Up)),
            KeyCode::Down => Some(PlayerDirection::PlayerTwo(Direction::Down)),
            KeyCode::Other => None,
        }
    }

    /// Looks a key up in the table.
    pub fn from_keycode(key: KeyCode) -> (intent: Option<PlayerDirection>)
        ensures
            intent == Self::of_key(key),
            intent is None <==> key == KeyCode::Other,
    {
        match key {
            KeyCode::W => Some(PlayerDirection::PlayerOne(Direction::Up)),
            KeyCode::S => Some(PlayerDirection::PlayerOne(Direction::Down)),
            KeyCode::Up => Some(PlayerDirection::PlayerTwo(Direction::Up)),
            KeyCode::Down => Some(PlayerDirection::PlayerTwo(Direction::Down)),
            KeyCode::Other => None,
        }
    }
}

} // verus!
