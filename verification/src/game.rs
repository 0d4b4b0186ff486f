//! The match: two paddles, a ball, and the state of the round.
//!
//! The match does not read a clock, the size of the window or the keyboard,
//! and plays no sound. Its caller hands it the size of the field, the time
//! and the keys, and gets back what happened in the frame.

use vstd::prelude::*;
use crate::ball::Ball;
use crate::fixed::{saturate, saturated};
use crate::geometry::Vec2;
use crate::input::{KeyCode, PlayerDirection};
use crate::player::{Player, PADDLE_HEIGHT};

verus! {

/// Microseconds for which a round that is over stays on show.
pub const DWELL_MICROS: u64 = 3_000_000;

/// Distance of a paddle's anchor from its side of the field.
pub const PADDLE_INSET: i64 = 16_000_000;

/// Whether a round is being played, or who won the last one and when.
#[derive(Clone, Copy, Debug, PartialEq, Eq, Structural)]
pub enum GameState {
    Play,
    Over { player_one_won: bool, time: u64 },
}

/// What happened in one frame. The caller plays the sound of a hit for each
/// paddle that was hit, then that of the wall, then that of a lost ball for
/// each point.
#[derive(Clone, Copy, Debug, PartialEq, Eq, Structural)]
pub struct FrameEvents {
    pub paddle_one_hit: bool,
    pub paddle_two_hit: bool,
    pub wall_bounce: bool,
    pub point_one: bool,
    pub point_two: bool,
}

/// The whole match.
#[derive(Clone, Copy, Debug, PartialEq, Eq, Structural)]
pub struct MyGame {
    pub player_one: Player,
    pub player_two: Player,
    pub ball: Ball,
    pub game_state: GameState,
}

/// Microseconds from `since` to `now`, none where `now` is the earlier.
pub open spec fn elapsed(since: u64, now: u64) -> int {
    if now >= since {
        now - since
    } else {
        0
    }
}

/// A score with one more point, short of the largest score there is.
pub open spec fn with_point(score: u32) -> u32 {
    if score < u32::MAX {
        (score + 1) as u32
    } else {
        score
    }
}

/// Whether a ball at height `y` is at the top or the bottom of the field.
pub open spec fn at_wall(y: i64, height: i64) -> bool {
    y <= 0 || y >= height
}

/// The velocity `vel` with its vertical part turned round.
pub open spec fn bounced(vel: Vec2) -> Vec2 {
    Vec2 { x: vel.x, y: saturated(-vel.y) as i64 }
}

fn add_point(score: u32) -> (r: u32)
    ensures
        r == with_point(score),
{
    if score < u32::MAX {
        score + 1
    } else {
        score
    }
}

impl FrameEvents {
    /// A frame in which nothing happened.
    pub open spec fn nothing() -> FrameEvents {
        FrameEvents {
            paddle_one_hit: false,
            paddle_two_hit: false,
            wall_bounce: false,
            point_one: false,
            point_two: false,
        }
    }
}

impl MyGame {
    /// The match as it begins in a field of the given size.
    pub open spec fn started(width: i64, height: i64) -> MyGame {
        MyGame {
            player_one: Player { pos: Vec2 { x: PADDLE_INSET, y: 0 }, vel: 0, target_vel: 0, score: 0 },
            player_two: Player {
                pos: Vec2 { x: saturated(width - PADDLE_INSET) as i64, y: 0 },
                vel: 0,
                target_vel: 0,
                score: 0,
            },
            ball: Ball::served(width as int, height as int),
            game_state: GameState::Play,
        }
    }

    /// Where the ball is at the end of a frame of play.
    pub open spec fn ball_pos_played(self) -> Vec2 {
        self.ball.after_frame().pos
    }

    /// The velocity of the ball at the end of a frame of play: the first
    /// paddle may send it back, then the second, then a wall.
    pub open spec fn ball_vel_played(self, height: i64) -> Vec2 {
        let pos = self.ball_pos_played();
        let vel = self.player_two.deflected(pos, self.player_one.deflected(pos, self.ball.vel));
        if at_wall(pos.y, height) {
            bounced(vel)
        } else {
            vel
        }
    }

    /// Whether a frame of play gives the first player a point: the ball has
    /// reached the right edge.
    pub open spec fn point_one(self, width: i64) -> bool {
        self.ball_pos_played().x >= width
    }

    /// Whether a frame of play gives the second player a point: the ball has
    /// reached the left edge.
    pub open spec fn point_two(self) -> bool {
        self.ball_pos_played().x <= 0
    }

    /// The state after a frame of play that ends at time `now`.
    pub open spec fn state_played(self, width: i64, now: u64) -> GameState {
        if self.point_two() {
            GameState::Over { player_one_won: false, time: now }
        } else if self.point_one(width) {
            GameState::Over { player_one_won: true, time: now }
        } else {
            self.game_state
        }
    }

    /// The match after one frame of play.
    pub open spec fn played(self, width: i64, height: i64, delta: u32, now: u64) -> MyGame {
        MyGame {
            player_one: (Player {
                score: if self.point_one(width) {
                    with_point(self.player_one.score)
                } else {
                    self.player_one.score
                },
                ..self.player_one
            }).moved(height, delta),
            player_two: (Player {
                score: if self.point_two() {
                    with_point(self.player_two.score)
                } else {
                    self.player_two.score
                },
                ..self.player_two
            }).moved(height, delta),
            ball: Ball { pos: self.ball_pos_played(), vel: self.ball_vel_played(height) },
            game_state: self.state_played(width, now),
        }
    }

    /// What happens in one frame of play.
    pub open spec fn play_events(self, width: i64, height: i64) -> FrameEvents {
        let pos = self.ball_pos_played();
        FrameEvents {
            paddle_one_hit: self.player_one.hits(pos),
            paddle_two_hit: self.player_two.hits(pos),
            wall_bounce: at_wall(pos.y, height),
            point_one: self.point_one(width),
            point_two: self.point_two(),
        }
    }

    /// Whether the round that is over has been on show for longer than the
    /// dwell at time `now`.
    pub open spec fn dwell_over(self, now: u64) -> bool {
        self.game_state matches GameState::Over { time, .. } && elapsed(time, now) > DWELL_MICROS
    }

    /// The match as the next round begins: the ball is served, the paddles
    /// are at rest where they were, the points stay.
    pub open spec fn restarted(self, width: i64, height: i64) -> MyGame {
        MyGame {
            player_one: Player { vel: 0, target_vel: 0, ..self.player_one },
            player_two: Player { vel: 0, target_vel: 0, ..self.player_two },
            ball: Ball::served(width as int, height as int),
            game_state: GameState::Play,
        }
    }

    /// The match after one frame.
    pub open spec fn updated(self, width: i64, height: i64, delta: u32, now: u64) -> MyGame {
        match self.game_state {
            GameState::Play => self.played(width, height, delta, now),
            GameState::Over { .. } => if self.dwell_over(now) {
                self.restarted(width, height)
            } else {
                self
            },
        }
    }

    /// What happens in one frame.
    pub open spec fn update_events(self, width: i64, height: i64) -> FrameEvents {
        match self.game_state {
            GameState::Play => self.play_events(width, height),
            GameState::Over { .. } => FrameEvents::nothing(),
        }
    }

    /// The match after a key has gone down.
    pub open spec fn key_pressed(self, key: KeyCode) -> MyGame {
        if self.game_state is Play {
            match PlayerDirection::of_key(key) {
                Some(PlayerDirection::PlayerOne(direction)) => MyGame {
                    player_one: Player {
                        target_vel: Player::asked(direction) as i64,
                        ..self.player_one
                    },
                    ..self
                },
                Some(PlayerDirection::PlayerTwo(direction)) => MyGame {
                    player_two: Player {
                        target_vel: Player::asked(direction) as i64,
                        ..self.player_two
                    },
                    ..self
                },
                None => self,
            }
        } else {
            self
        }
    }

    /// The match after a key has come up.
    pub open spec fn key_released(self, key: KeyCode) -> MyGame {
        if self.game_state is Play {
            match PlayerDirection::of_key(key) {
                Some(PlayerDirection::PlayerOne(_)) => MyGame {
                    player_one: Player { target_vel: 0, ..self.player_one },
                    ..self
                },
                Some(PlayerDirection::PlayerTwo(_)) => MyGame {
                    player_two: Player { target_vel: 0, ..self.player_two },
                    ..self
                },
                None => self,
            }
        } else {
            self
        }
    }

    /// Begins a match in a field of the given size: the paddles at the top
    /// of their sides, the ball served, no points.
    pub fn new(width: i64, height: i64) -> (game: MyGame)
        ensures
            game == MyGame::started(width, height),
            game.game_state is Play,
            game.player_one.score == 0 && game.player_two.score == 0,
    {
        MyGame {
            player_one: Player::new(PADDLE_INSET),
            player_two: Player::new(saturate(width as i128 - PADDLE_INSET as i128)),
            ball: Ball::serve(width, height),
            game_state: GameState::Play,
        }
    }

    /// Plays one frame that lasts `delta` microseconds and ends at time
    /// `now`, in a field of the given size: the ball moves, the paddles and
    /// the walls send it back, points are given, and the paddles move.
    pub fn play_update(&mut self, width: i64, height: i64, delta: u32, now: u64) -> (events: FrameEvents)
        ensures
            *final(self) == old(self).played(width, height, delta, now),
            events == old(self).play_events(width, height),
            final(self).game_state is Over <==> old(self).game_state is Over || events.point_one
                || events.point_two,
            events.point_one && !events.point_two ==> final(self).game_state == (GameState::Over {
                player_one_won: true,
                time: now,
            }),
            events.point_two ==> final(self).game_state == (GameState::Over {
                player_one_won: false,
                time: now,
            }),
            final(self).player_one.score == (if events.point_one {
                with_point(old(self).player_one.score)
            } else {
                old(self).player_one.score
            }),
            final(self).player_two.score == (if events.point_two {
                with_point(old(self).player_two.score)
            } else {
                old(self).player_two.score
            }),
            final(self).game_state is Play ==> 0 < final(self).ball.pos.x < width,
            height >= PADDLE_HEIGHT ==> 0 <= final(self).player_one.pos.y <= height - PADDLE_HEIGHT && 0
                <= final(self).player_two.pos.y <= height - PADDLE_HEIGHT,
    {
        self.ball.advance();
        let pos = self.ball.pos;
        let mut vel = self.ball.vel;
        let paddle_one_hit = self.player_one.update_collision(pos, &mut vel);
        let paddle_two_hit = self.player_two.update_collision(pos, &mut vel);
        let wall_bounce = pos.y <= 0 || pos.y >= height;
        if wall_bounce {
            vel.y = saturate(-(vel.y as i128));
        }
        self.ball.vel = vel;
        let point_one = pos.x >= width;
        if point_one {
            self.player_one.score = add_point(self.player_one.score);
            self.game_state = GameState::Over { player_one_won: true, time: now };
        }
        let point_two = pos.x <= 0;
        if point_two {
            self.player_two.score = add_point(self.player_two.score);
            self.game_state = GameState::Over { player_one_won: false, time: now };
        }
        self.player_one.move_to_velocity(height, delta);
        self.player_two.move_to_velocity(height, delta);
        FrameEvents { paddle_one_hit, paddle_two_hit, wall_bounce, point_one, point_two }
    }

    /// Advances the match by one frame that lasts `delta` microseconds and
    /// ends at time `now`. While a round is played this is a frame of play.
    /// While a round is over nothing moves, and once it has been over for
    /// longer than the dwell the next round begins.
    pub fn update(&mut self, width: i64, height: i64, delta: u32, now: u64) -> (events: FrameEvents)
        ensures
            *final(self) == old(self).updated(width, height, delta, now),
            events == old(self).update_events(width, height),
            old(self).game_state is Over ==> events == FrameEvents::nothing(),
            old(self).game_state is Over && !old(self).dwell_over(now) ==> *final(self) == *old(self),
            old(self).dwell_over(now) ==> final(self).game_state is Play && final(self).ball
                == Ball::served(width as int, height as int),
            final(self).player_one.score >= old(self).player_one.score,
            final(self).player_two.score >= old(self).player_two.score,
            old(self).game_state is Play && final(self).game_state is Play ==> 0 < final(self).ball.pos.x
                < width,
            old(self).game_state is Play && height >= PADDLE_HEIGHT ==> 0 <= final(self).player_one.pos.y
                <= height - PADDLE_HEIGHT && 0 <= final(self).player_two.pos.y <= height - PADDLE_HEIGHT,
    {
        match self.game_state {
            GameState::Play => self.play_update(width, height, delta, now),
            GameState::Over { time, .. } => {
                if now > time && now - time > DWELL_MICROS {
                    self.game_state = GameState::Play;
                    self.ball = Ball::serve(width, height);
                    self.player_one.target_vel = 0;
                    self.player_one.vel = 0;
                    self.player_two.target_vel = 0;
                    self.player_two.vel = 0;
                }
                FrameEvents {
                    paddle_one_hit: false,
                    paddle_two_hit: false,
                    wall_bounce: false,
                    point_one: false,
                    point_two: false,
                }
            },
        }
    }

    /// Takes a key that has gone down: while a round is played, the paddle
    /// that the key steers is asked to go the key's way.
    pub fn key_down_event(&mut self, key: KeyCode)
        ensures
            *final(self) == old(self).key_pressed(key),
            old(self).game_state is Over || key == KeyCode::Other ==> *final(self) == *old(self),
    {
        if let GameState::Play = self.game_state {
            if let Some(direction) = PlayerDirection::from_keycode(key) {
                match direction {
                    PlayerDirection::PlayerOne(direction) => self.player_one.handle_input_down(direction),
                    PlayerDirection::PlayerTwo(direction) => self.player_two.handle_input_down(direction),
                }
            }
        }
    }

    /// Takes a key that has come up: while a round is played, the paddle
    /// that the key steers is asked to come to rest.
    pub fn key_up_event(&mut self, key: KeyCode)
        ensures
            *final(self) == old(self).key_released(key),
            old(self).game_state is Over || key == KeyCode::Other ==> *final(self) == *old(self),
    {
        if let GameState::Play = self.game_state {
            if let Some(direction) = PlayerDirection::from_keycode(key) {
                match direction {
                    PlayerDirection::PlayerOne(_) => self.player_one.handle_input_up(),
                    PlayerDirection::PlayerTwo(_) => self.player_two.handle_input_up(),
                }
            }
        }
    }
}

} // verus!
