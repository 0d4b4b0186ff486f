//! A paddle and the player who steers it.

use vstd::prelude::*;
use crate::ball::BALL_RADIUS;
use crate::fixed::{divide, magnitude, quotient, saturate, saturated};
use crate::geometry::{meets, touches, Vec2};
use crate::input::Direction;

verus! {

/// Width of a paddle.
pub const PADDLE_WIDTH: i64 = 10_000_000;

/// Height of a paddle.
pub const PADDLE_HEIGHT: i64 = 200_000_000;

/// Speed that a held key asks of a paddle, in ticks per frame.
pub const PADDLE_SPEED: i64 = 30_000_000;

/// Microseconds in which a paddle would make up the whole difference to the
/// speed asked of it: a fifth of the difference is made up per second.
pub const SMOOTH_MICROS: u32 = 5_000_000;

/// A paddle: the corner it is anchored at, its speed along the wall, the
/// speed asked of it, and the points of its player.
#[derive(Clone, Copy, Debug, PartialEq, Eq, Structural)]
pub struct Player {
    pub pos: Vec2,
    pub vel: i64,
    pub target_vel: i64,
    pub score: u32,
}

/// The speed that `vel` becomes after `delta` microseconds on the way to
/// `target`.
pub open spec fn smoothed(vel: int, target: int, delta: int) -> int {
    vel + quotient((target - vel) * delta, SMOOTH_MICROS as int)
}

/// The horizontal speed of the ball after a paddle has sent it back: turned
/// round and a twentieth faster.
pub open spec fn returned(vel_x: int) -> int {
    saturated(quotient(-21 * vel_x, 20))
}

/// The speed that `vel` becomes after `n` frames of `delta` microseconds
/// each on the way to `target`.
pub open spec fn smoothed_n(vel: int, target: int, delta: int, n: nat) -> int
    decreases n,
{
    if n == 0 {
        vel
    } else {
        smoothed(smoothed_n(vel, target, delta, (n - 1) as nat), target, delta)
    }
}

proof fn lemma_scaled_within(diff: int, delta: int, whole: int)
    by (nonlinear_arith)
    requires
        0 <= diff,
        0 < delta < whole,
    ensures
        0 <= diff * delta <= diff * whole,
        diff > 0 ==> diff * delta < diff * whole,
{
}

/// One frame shorter than five seconds takes a speed toward the speed asked
/// for and never past it. It takes it strictly nearer wherever the
/// difference, scaled by the length of the frame, amounts to a tick; where
/// it does not, the speed stays.
pub proof fn lemma_smoothed_approaches(vel: int, target: int, delta: int)
    requires
        0 < delta < SMOOTH_MICROS,
    ensures
        vel <= target ==> vel <= smoothed(vel, target, delta) <= target,
        vel >= target ==> target <= smoothed(vel, target, delta) <= vel,
        magnitude(target - vel) * delta >= SMOOTH_MICROS ==> magnitude(
            target - smoothed(vel, target, delta),
        ) < magnitude(target - vel),
        magnitude(target - vel) * delta < SMOOTH_MICROS ==> smoothed(vel, target, delta) == vel,
{
    let diff = magnitude(target - vel);
    lemma_scaled_within(diff, delta, SMOOTH_MICROS as int);
    if vel <= target {
        assert((target - vel) * delta == diff * delta);
    } else {
        assert(-((target - vel) * delta) == diff * delta) by (nonlinear_arith)
            requires
                diff == -(target - vel),
        ;
    }
}

/// Frame after frame, each shorter than five seconds, a speed goes toward a
/// fixed speed asked for in one direction only and never passes it.
pub proof fn lemma_smoothing_monotone(vel: int, target: int, delta: int, n: nat)
    requires
        0 < delta < SMOOTH_MICROS,
    ensures
        vel <= target ==> vel <= smoothed_n(vel, target, delta, n) <= smoothed_n(
            vel,
            target,
            delta,
            n + 1,
        ) <= target,
        vel >= target ==> target <= smoothed_n(vel, target, delta, n + 1) <= smoothed_n(
            vel,
            target,
            delta,
            n,
        ) <= vel,
    decreases n,
{
    if n > 0 {
        lemma_smoothing_monotone(vel, target, delta, (n - 1) as nat);
    }
    lemma_smoothed_approaches(smoothed_n(vel, target, delta, n), target, delta);
}

/// After as many frames as the speed was ticks away from the speed asked
/// for, what is left of the difference is too small for a frame to change:
/// scaled by the length of the frame it is less than a tick.
pub proof fn lemma_smoothing_settles(vel: int, target: int, delta: int, n: nat)
    requires
        0 < delta < SMOOTH_MICROS,
        n >= magnitude(target - vel),
    ensures
        magnitude(target - smoothed_n(vel, target, delta, n)) * delta < SMOOTH_MICROS,
{
    lemma_smoothing_closes(vel, target, delta, n);
    let left = magnitude(target - smoothed_n(vel, target, delta, n));
    if left * delta >= SMOOTH_MICROS {
        assert(left == 0);
    }
}

proof fn lemma_smoothing_closes(vel: int, target: int, delta: int, n: nat)
    requires
        0 < delta < SMOOTH_MICROS,
    ensures
        magnitude(target - smoothed_n(vel, target, delta, n)) * delta < SMOOTH_MICROS || magnitude(
            target - smoothed_n(vel, target, delta, n),
        ) <= magnitude(target - vel) - n,
    decreases n,
{
    if n > 0 {
        let before = smoothed_n(vel, target, delta, (n - 1) as nat);
        lemma_smoothing_closes(vel, target, delta, (n - 1) as nat);
        lemma_smoothed_approaches(before, target, delta);
    }
}

proof fn lemma_product_bound(a: int, b: int, bound_a: int, bound_b: int)
    by (nonlinear_arith)
    requires
        -bound_a <= a <= bound_a,
        0 <= b <= bound_b,
    ensures
        -(bound_a * bound_b) <= a * b <= bound_a * bound_b,
{
}

impl Player {
    /// A paddle at rest at the top of the field, `x` from its left edge,
    /// with no points.
    pub fn new(x: i64) -> (player: Player)
        ensures
            player == (Player { pos: Vec2 { x, y: 0 }, vel: 0, target_vel: 0, score: 0 }),
    {
        Player { pos: Vec2 { x, y: 0 }, vel: 0, target_vel: 0, score: 0 }
    }

    /// Whether the ball at `ball_pos` meets this paddle.
    pub open spec fn hits(self, ball_pos: Vec2) -> bool {
        touches(
            ball_pos.x + BALL_RADIUS,
            ball_pos.y + BALL_RADIUS,
            BALL_RADIUS as int,
            self.pos.x + PADDLE_WIDTH / 2,
            self.pos.y + PADDLE_HEIGHT / 2,
            PADDLE_WIDTH as int,
            PADDLE_HEIGHT as int,
        )
    }

    /// How far below the middle of this paddle the ball at `ball_pos` is.
    pub open spec fn offset(self, ball_pos: Vec2) -> int {
        ball_pos.y - (self.pos.y + PADDLE_HEIGHT / 2)
    }

    /// The velocity with which the ball leaves this paddle, or `ball_vel`
    /// where the two do not meet. A ball that was not rising leaves with its
    /// offset turned upside down, a rising ball with its offset as it is.
    pub open spec fn deflected(self, ball_pos: Vec2, ball_vel: Vec2) -> Vec2 {
        if self.hits(ball_pos) {
            Vec2 {
                x: returned(ball_vel.x as int) as i64,
                y: if ball_vel.y >= 0 {
                    saturated(-self.offset(ball_pos)) as i64
                } else {
                    saturated(self.offset(ball_pos)) as i64
                },
            }
        } else {
            ball_vel
        }
    }

    /// The speed after `delta` microseconds, before any wall is met.
    pub open spec fn next_vel(self, delta: u32) -> int {
        saturated(smoothed(self.vel as int, self.target_vel as int, delta as int))
    }

    /// Where the paddle would be after `delta` microseconds were there no
    /// walls.
    pub open spec fn next_y(self, delta: u32) -> int {
        saturated(self.pos.y + self.next_vel(delta))
    }

    /// Whether the paddle, moving for `delta` microseconds, is stopped by the
    /// top of the field.
    pub open spec fn meets_top(self, delta: u32) -> bool {
        self.next_y(delta) < 0
    }

    /// Whether the paddle, moving for `delta` microseconds, is stopped by the
    /// bottom of a field of the given height. The top is looked at first: a
    /// paddle that it stops is at zero when the bottom is looked at.
    pub open spec fn meets_bottom(self, height: i64, delta: u32) -> bool {
        (if self.meets_top(delta) {
            0
        } else {
            self.next_y(delta)
        }) > height - PADDLE_HEIGHT
    }

    /// Whether a wall stops the paddle.
    pub open spec fn clamped(self, height: i64, delta: u32) -> bool {
        self.meets_top(delta) || self.meets_bottom(height, delta)
    }

    /// The paddle after `delta` microseconds in a field of the given height.
    /// Its speed goes toward the speed asked of it, and it moves by its new
    /// speed. Where that would take it past a wall it is put at the wall, and
    /// both its speed and the speed asked of it become zero.
    pub open spec fn moved(self, height: i64, delta: u32) -> Player {
        if self.meets_bottom(height, delta) {
            Player {
                pos: Vec2 { x: self.pos.x, y: saturated(height - PADDLE_HEIGHT) as i64 },
                vel: 0,
                target_vel: 0,
                score: self.score,
            }
        } else if self.meets_top(delta) {
            Player { pos: Vec2 { x: self.pos.x, y: 0 }, vel: 0, target_vel: 0, score: self.score }
        } else {
            Player {
                pos: Vec2 { x: self.pos.x, y: self.next_y(delta) as i64 },
                vel: self.next_vel(delta) as i64,
                target_vel: self.target_vel,
                score: self.score,
            }
        }
    }

    /// The paddle after `n` frames of `delta` microseconds each in a field
    /// of the given height.
    pub open spec fn moved_n(self, height: i64, delta: u32, n: nat) -> Player
        decreases n,
    {
        if n == 0 {
            self
        } else {
            self.moved_n(height, delta, (n - 1) as nat).moved(height, delta)
        }
    }

    /// A paddle that is asked for one speed other than zero during `n`
    /// frames, each shorter than five seconds, and is still asked for it
    /// after them, so that no wall has stopped it: its speed has gone toward
    /// the speed asked for in one direction only, and has not passed it.
    pub proof fn lemma_speed_converges(self, height: i64, delta: u32, n: nat)
        requires
            0 < delta < SMOOTH_MICROS,
            self.target_vel != 0,
            self.moved_n(height, delta, n).target_vel == self.target_vel,
        ensures
            self.moved_n(height, delta, n).vel == smoothed_n(
                self.vel as int,
                self.target_vel as int,
                delta as int,
                n,
            ),
            self.vel <= self.target_vel ==> self.vel <= self.moved_n(height, delta, n).vel
                <= self.target_vel,
            self.vel >= self.target_vel ==> self.target_vel <= self.moved_n(height, delta, n).vel
                <= self.vel,
            n > 0 && self.vel <= self.target_vel ==> self.moved_n(height, delta, (n - 1) as nat).vel
                <= self.moved_n(height, delta, n).vel,
            n > 0 && self.vel >= self.target_vel ==> self.moved_n(height, delta, (n - 1) as nat).vel
                >= self.moved_n(height, delta, n).vel,
        decreases n,
    {
        if n > 0 {
            let before = self.moved_n(height, delta, (n - 1) as nat);
            assert(self.moved_n(height, delta, n) == before.moved(height, delta));
            assert(before.target_vel == self.target_vel);
            self.lemma_speed_converges(height, delta, (n - 1) as nat);
            lemma_smoothed_approaches(before.vel as int, before.target_vel as int, delta as int);
            lemma_smoothing_monotone(self.vel as int, self.target_vel as int, delta as int, (n - 1) as nat);
        } else {
            lemma_smoothing_monotone(self.vel as int, self.target_vel as int, delta as int, 0);
        }
    }

    fn intersects_ball(&self, ball_pos: Vec2) -> (hit: bool)
        ensures
            hit == self.hits(ball_pos),
    {
        meets(
            ball_pos.x as i128 + BALL_RADIUS as i128,
            ball_pos.y as i128 + BALL_RADIUS as i128,
            BALL_RADIUS,
            self.pos.x as i128 + (PADDLE_WIDTH / 2) as i128,
            self.pos.y as i128 + (PADDLE_HEIGHT / 2) as i128,
            PADDLE_WIDTH,
            PADDLE_HEIGHT,
        )
    }

    /// Sends the ball back where it meets this paddle, and says whether it
    /// did.
    pub fn update_collision(&self, ball_pos: Vec2, ball_vel: &mut Vec2) -> (hit: bool)
        ensures
            hit == self.hits(ball_pos),
            *final(ball_vel) == self.deflected(ball_pos, *old(ball_vel)),
            !hit ==> *final(ball_vel) == *old(ball_vel),
            hit && old(ball_vel).x > 0 ==> final(ball_vel).x < 0,
            hit && old(ball_vel).x < 0 ==> final(ball_vel).x > 0,
            hit ==> (magnitude(final(ball_vel).x as int) > magnitude(old(ball_vel).x as int) <==> (
                magnitude(old(ball_vel).x as int) >= 20 && old(ball_vel).x > -i64::MAX)),
    {
        if self.intersects_ball(ball_pos) {
            let diff: i128 = ball_pos.y as i128 - (self.pos.y as i128 + (PADDLE_HEIGHT / 2) as i128);
            let vel_x: i64 = ball_vel.x;
            let vel_y: i64 = ball_vel.y;
            ball_vel.x = saturate(divide(-(21 * (vel_x as i128)), 20));
            ball_vel.y = if vel_y >= 0 {
                saturate(-diff)
            } else {
                saturate(diff)
            };
            true
        } else {
            false
        }
    }

    /// The speed that a held key asks for. Upward speeds are negative.
    pub open spec fn asked(direction: Direction) -> int {
        match direction {
            Direction::Up => -PADDLE_SPEED,
            Direction::Down => PADDLE_SPEED as int,
        }
    }

    /// Asks the paddle to go up or down at full speed.
    pub fn handle_input_down(&mut self, direction: Direction)
        ensures
            *final(self) == (Player { target_vel: Player::asked(direction) as i64, ..*old(self) }),
            final(self).target_vel == Player::asked(direction),
    {
        self.target_vel = match direction {
            Direction::Up => -PADDLE_SPEED,
            Direction::Down => PADDLE_SPEED,
        };
    }

    /// Asks the paddle to come to rest.
    pub fn handle_input_up(&mut self)
        ensures
            *final(self) == (Player { target_vel: 0, ..*old(self) }),
    {
        self.target_vel = 0;
    }

    /// Moves the paddle for `delta` microseconds in a field of the given
    /// height.
    pub fn move_to_velocity(&mut self, height: i64, delta: u32)
        ensures
            *final(self) == old(self).moved(height, delta),
            old(self).clamped(height, delta) ==> final(self).vel == 0 && final(self).target_vel == 0,
            !old(self).clamped(height, delta) ==> final(self).target_vel == old(self).target_vel,
            height >= PADDLE_HEIGHT ==> 0 <= final(self).pos.y <= height - PADDLE_HEIGHT,
            final(self).pos.x == old(self).pos.x,
            final(self).score == old(self).score,
    {
        let diff: i128 = self.target_vel as i128 - self.vel as i128;
        proof {
            lemma_product_bound(diff as int, delta as int, 0x1_0000_0000_0000_0000, 0x1_0000_0000);
        }
        let step: i128 = divide(diff * (delta as i128), SMOOTH_MICROS as i128);
        self.vel = saturate(self.vel as i128 + step);
        self.pos.y = saturate(self.pos.y as i128 + self.vel as i128);
        if self.pos.y < 0 {
            self.pos.y = 0;
            self.target_vel = 0;
            self.vel = 0;
        }
        let limit: i128 = height as i128 - PADDLE_HEIGHT as i128;
        if self.pos.y as i128 > limit {
            self.pos.y = saturate(limit);
            self.target_vel = 0;
            self.vel = 0;
        }
    }
}

} // verus!
