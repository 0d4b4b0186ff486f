//! The ball.

use vstd::prelude::*;
use crate::fixed::{divide, magnitude, quotient, saturate, saturated};
use crate::geometry::Vec2;

verus! {

/// Radius of the ball.
pub const BALL_RADIUS: i64 = 5_000_000;

/// Horizontal speed of the ball when a round begins, in ticks per second.
pub const SERVE_SPEED: i64 = 150_000_000;

/// Frames that the ball's motion takes one second to be made of, however
/// long a frame really lasts.
pub const FRAMES_PER_SECOND: i64 = 60;

/// The ball: where the corner of its bounding square is, and how fast it
/// goes, in ticks per second.
#[derive(Clone, Copy, Debug, PartialEq, Eq, Structural)]
pub struct Ball {
    pub pos: Vec2,
    pub vel: Vec2,
}

/// Where a coordinate is one frame later at speed `vel`.
pub open spec fn advanced(pos: int, vel: int) -> int {
    saturated(pos + quotient(vel, FRAMES_PER_SECOND as int))
}

/// The middle of a field of the given size.
pub open spec fn centre(width: int, height: int) -> Vec2 {
    Vec2 { x: quotient(width, 2) as i64, y: quotient(height, 2) as i64 }
}

fn advance_coordinate(pos: i64, vel: i64) -> (r: i64)
    ensures
        r == advanced(pos as int, vel as int),
{
    saturate(pos as i128 + divide(vel as i128, FRAMES_PER_SECOND as i128))
}

impl Ball {
    /// The ball as a round begins: in the middle of the field, going right.
    pub open spec fn served(width: int, height: int) -> Ball {
        Ball { pos: centre(width, height), vel: Vec2 { x: SERVE_SPEED, y: 0 } }
    }

    /// The ball one frame later, had nothing been in its way.
    pub open spec fn after_frame(self) -> Ball {
        Ball {
            pos: Vec2 {
                x: advanced(self.pos.x as int, self.vel.x as int) as i64,
                y: advanced(self.pos.y as int, self.vel.y as int) as i64,
            },
            vel: self.vel,
        }
    }

    /// Puts the ball in the middle of the field, going right at the serving
    /// speed.
    pub fn serve(width: i64, height: i64) -> (ball: Ball)
        ensures
            ball == Ball::served(width as int, height as int),
            ball.vel.x == SERVE_SPEED,
            ball.vel.y == 0,
            magnitude(width - 2 * ball.pos.x) <= 1,
            magnitude(height - 2 * ball.pos.y) <= 1,
    {
        Ball { pos: Vec2 { x: width / 2, y: height / 2 }, vel: Vec2 { x: SERVE_SPEED, y: 0 } }
    }

    /// Moves the ball by one sixtieth of its speed.
    pub fn advance(&mut self)
        ensures
            *final(self) == old(self).after_frame(),
    {
        self.pos.x = advance_coordinate(self.pos.x, self.vel.x);
        self.pos.y = advance_coordinate(self.pos.y, self.vel.y);
    }
}

} // verus!
