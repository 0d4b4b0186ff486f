use ping_pong::ball::SERVE_SPEED;
use ping_pong::fixed::UNIT;
use ping_pong::game::{DWELL_MICROS, PADDLE_INSET};
use ping_pong::{Ball, FrameEvents, GameState, KeyCode, MyGame, Player, Vec2};

const WIDTH: i64 = 800 * UNIT;
const HEIGHT: i64 = 600 * UNIT;
const FRAME: u32 = 16_667;

const QUIET: FrameEvents = FrameEvents {
    paddle_one_hit: false,
    paddle_two_hit: false,
    wall_bounce: false,
    point_one: false,
    point_two: false,
};

fn game_with_ball(pos: Vec2, vel: Vec2) -> MyGame {
    let mut game = MyGame::new(WIDTH, HEIGHT);
    game.ball = Ball { pos, vel };
    game
}

#[test]
fn new_game_is_laid_out() {
    let game = MyGame::new(WIDTH, HEIGHT);
    assert_eq!(game.game_state, GameState::Play);
    assert_eq!(game.player_one, Player::new(16 * UNIT));
    assert_eq!(game.player_two, Player::new(784 * UNIT));
    assert_eq!(game.ball.pos, Vec2 { x: 400 * UNIT, y: 300 * UNIT });
    assert_eq!(game.ball.vel, Vec2 { x: 150 * UNIT, y: 0 });
    assert_eq!(PADDLE_INSET, 16 * UNIT);
    assert_eq!(SERVE_SPEED, 150 * UNIT);
    assert_eq!(DWELL_MICROS, 3_000_000);
}

#[test]
fn new_game_in_an_odd_or_tiny_field() {
    let game = MyGame::new(7, -7);
    assert_eq!(game.ball.pos, Vec2 { x: 3, y: -3 });
    assert_eq!(game.player_two.pos.x, 7 - 16 * UNIT);
    let least = MyGame::new(i64::MIN, i64::MAX);
    assert_eq!(least.player_two.pos.x, i64::MIN);
    assert_eq!(least.ball.pos, Vec2 { x: i64::MIN / 2, y: i64::MAX / 2 });
}

#[test]
fn ball_moves_a_sixtieth_of_its_speed_whatever_the_frame_lasts() {
    let mut quick = MyGame::new(WIDTH, HEIGHT);
    let mut slow = MyGame::new(WIDTH, HEIGHT);
    assert_eq!(quick.update(WIDTH, HEIGHT, 1, 10), QUIET);
    assert_eq!(slow.update(WIDTH, HEIGHT, 4_000_000, 10), QUIET);
    assert_eq!(quick.ball.pos, Vec2 { x: 402_500_000, y: 300 * UNIT });
    assert_eq!(slow.ball.pos, quick.ball.pos);
    assert_eq!(quick.ball.vel, Vec2 { x: 150 * UNIT, y: 0 });
}

#[test]
fn ball_motion_rounds_toward_zero() {
    let mut ball = Ball { pos: Vec2 { x: 0, y: 0 }, vel: Vec2 { x: 119, y: -119 } };
    ball.advance();
    assert_eq!(ball.pos, Vec2 { x: 1, y: -1 });
    assert_eq!(ball.vel, Vec2 { x: 119, y: -119 });
    let mut still = Ball { pos: Vec2 { x: 5, y: 5 }, vel: Vec2 { x: 59, y: -59 } };
    still.advance();
    assert_eq!(still.pos, Vec2 { x: 5, y: 5 });
}

#[test]
fn ball_motion_saturates() {
    let mut ball = Ball { pos: Vec2 { x: i64::MAX, y: i64::MIN }, vel: Vec2 { x: i64::MAX, y: i64::MIN } };
    ball.advance();
    assert_eq!(ball.pos, Vec2 { x: i64::MAX, y: i64::MIN });
}

#[test]
fn serve_puts_the_ball_in_the_middle() {
    assert_eq!(
        Ball::serve(WIDTH, HEIGHT),
        Ball { pos: Vec2 { x: 400 * UNIT, y: 300 * UNIT }, vel: Vec2 { x: 150 * UNIT, y: 0 } }
    );
    assert_eq!(Ball::serve(-5, 5).pos, Vec2 { x: -2, y: 2 });
}

#[test]
fn ball_at_right_edge_gives_player_one_the_round() {
    let mut game = game_with_ball(Vec2 { x: WIDTH, y: 123 * UNIT }, Vec2 { x: 150 * UNIT, y: 0 });
    let events = game.update(WIDTH, HEIGHT, FRAME, 77);
    assert_eq!(game.game_state, GameState::Over { player_one_won: true, time: 77 });
    assert_eq!(game.player_one.score, 1);
    assert_eq!(game.player_two.score, 0);
    assert_eq!(events, FrameEvents { point_one: true, ..QUIET });
}

#[test]
fn ball_reaching_the_right_edge_exactly_scores() {
    let mut game = game_with_ball(
        Vec2 { x: WIDTH - 2_500_000, y: 300 * UNIT },
        Vec2 { x: 150 * UNIT, y: 0 },
    );
    game.player_one.score = 41;
    let events = game.play_update(WIDTH, HEIGHT, FRAME, 5);
    assert!(events.point_one);
    assert_eq!(game.player_one.score, 42);
    assert_eq!(game.ball.pos.x, WIDTH);
    let mut short = game_with_ball(
        Vec2 { x: WIDTH - 2_500_001, y: 300 * UNIT },
        Vec2 { x: 150 * UNIT, y: 0 },
    );
    assert_eq!(short.play_update(WIDTH, HEIGHT, FRAME, 5), QUIET);
    assert_eq!(short.game_state, GameState::Play);
}

#[test]
fn ball_at_left_edge_gives_player_two_the_round() {
    let mut game = game_with_ball(Vec2 { x: 0, y: 500 * UNIT }, Vec2 { x: -150 * UNIT, y: 0 });
    let events = game.update(WIDTH, HEIGHT, FRAME, 9);
    assert_eq!(game.game_state, GameState::Over { player_one_won: false, time: 9 });
    assert_eq!(game.player_one.score, 0);
    assert_eq!(game.player_two.score, 1);
    assert_eq!(events, FrameEvents { point_two: true, ..QUIET });
}

#[test]
fn both_edges_are_tested_in_a_field_without_width() {
    let mut game = MyGame::new(0, HEIGHT);
    game.ball = Ball { pos: Vec2 { x: 0, y: 300 * UNIT }, vel: Vec2 { x: 0, y: 0 } };
    // Keep the paddles out of the ball's way.
    game.player_one.pos.x = 5_000 * UNIT;
    game.player_two.pos.x = 5_000 * UNIT;
    let events = game.update(0, HEIGHT, FRAME, 3);
    assert_eq!(events, FrameEvents { point_one: true, point_two: true, ..QUIET });
    assert_eq!(game.player_one.score, 1);
    assert_eq!(game.player_two.score, 1);
    assert_eq!(game.game_state, GameState::Over { player_one_won: false, time: 3 });
}

#[test]
fn score_stays_at_the_largest() {
    let mut game = game_with_ball(Vec2 { x: WIDTH, y: 300 * UNIT }, Vec2 { x: 150 * UNIT, y: 0 });
    game.player_one.score = u32::MAX;
    let events = game.update(WIDTH, HEIGHT, FRAME, 1);
    assert!(events.point_one);
    assert_eq!(game.player_one.score, u32::MAX);
}

#[test]
fn paddles_move_in_the_frame_that_ends_the_round() {
    let mut game = game_with_ball(Vec2 { x: WIDTH, y: 300 * UNIT }, Vec2 { x: 150 * UNIT, y: 0 });
    game.player_one.pos.y = 100 * UNIT;
    game.player_one.target_vel = 30 * UNIT;
    game.update(WIDTH, HEIGHT, 1_000_000, 1);
    assert!(matches!(game.game_state, GameState::Over { .. }));
    assert_eq!(game.player_one.vel, 6 * UNIT);
    assert_eq!(game.player_one.pos.y, 106 * UNIT);
}

#[test]
fn round_over_waits_for_the_dwell() {
    let mut game = MyGame::new(WIDTH, HEIGHT);
    game.ball = Ball { pos: Vec2 { x: 900 * UNIT, y: 17 }, vel: Vec2 { x: 190 * UNIT, y: -3 } };
    game.player_one.vel = 5;
    game.player_one.target_vel = 30 * UNIT;
    let ended = 10_000_000;
    game.game_state = GameState::Over { player_one_won: true, time: ended };
    let before = game;
    let events = game.update(WIDTH, HEIGHT, FRAME, ended + 2_900_000);
    assert_eq!(events, QUIET);
    assert_eq!(game, before);
    // Three seconds exactly are not yet longer than the dwell.
    game.update(WIDTH, HEIGHT, FRAME, ended + 3_000_000);
    assert_eq!(game, before);
    // A clock that went back counts as no time at all.
    game.update(WIDTH, HEIGHT, FRAME, ended - 5_000_000);
    assert_eq!(game, before);
}

#[test]
fn round_restarts_after_the_dwell() {
    let mut game = MyGame::new(WIDTH, HEIGHT);
    game.ball = Ball { pos: Vec2 { x: 900 * UNIT, y: 17 }, vel: Vec2 { x: 190 * UNIT, y: -3 } };
    game.player_one = Player { pos: Vec2 { x: 16 * UNIT, y: 250 * UNIT }, vel: 5, target_vel: 30 * UNIT, score: 4 };
    game.player_two = Player { pos: Vec2 { x: 784 * UNIT, y: 33 * UNIT }, vel: -5, target_vel: -30 * UNIT, score: 2 };
    let ended = 10_000_000;
    game.game_state = GameState::Over { player_one_won: true, time: ended };
    let events = game.update(WIDTH, HEIGHT, FRAME, ended + 3_100_000);
    assert_eq!(events, QUIET);
    assert_eq!(game.game_state, GameState::Play);
    assert_eq!(game.ball.pos, Vec2 { x: 400 * UNIT, y: 300 * UNIT });
    assert_eq!(game.ball.vel, Vec2 { x: 150 * UNIT, y: 0 });
    // The paddles come to rest where they are and keep their points.
    assert_eq!(
        game.player_one,
        Player { pos: Vec2 { x: 16 * UNIT, y: 250 * UNIT }, vel: 0, target_vel: 0, score: 4 }
    );
    assert_eq!(
        game.player_two,
        Player { pos: Vec2 { x: 784 * UNIT, y: 33 * UNIT }, vel: 0, target_vel: 0, score: 2 }
    );
}

#[test]
fn round_restarts_one_microsecond_after_the_dwell() {
    let mut game = MyGame::new(WIDTH, HEIGHT);
    game.game_state = GameState::Over { player_one_won: false, time: u64::MAX - 3_000_001 };
    game.update(WIDTH, HEIGHT, FRAME, u64::MAX);
    assert_eq!(game.game_state, GameState::Play);
}

#[test]
fn restart_uses_the_size_of_the_field_at_that_time() {
    let mut game = MyGame::new(WIDTH, HEIGHT);
    game.game_state = GameState::Over { player_one_won: false, time: 0 };
    game.update(1000 * UNIT, 500 * UNIT, FRAME, 3_000_001);
    assert_eq!(game.ball.pos, Vec2 { x: 500 * UNIT, y: 250 * UNIT });
}

#[test]
fn top_wall_turns_the_ball_without_speeding_it() {
    let mut game = game_with_ball(Vec2 { x: 400 * UNIT, y: 0 }, Vec2 { x: 150 * UNIT, y: -10 * UNIT });
    let events = game.update(WIDTH, HEIGHT, FRAME, 1);
    assert_eq!(game.ball.vel, Vec2 { x: 150 * UNIT, y: 10 * UNIT });
    assert_eq!(events, FrameEvents { wall_bounce: true, ..QUIET });
    assert_eq!(game.game_state, GameState::Play);
    // The ball itself moved before it was turned.
    assert_eq!(game.ball.pos, Vec2 { x: 402_500_000, y: -166_666 });
}

#[test]
fn bottom_wall_turns_the_ball() {
    let mut game = game_with_ball(
        Vec2 { x: 400 * UNIT, y: HEIGHT - 1 },
        Vec2 { x: -150 * UNIT, y: 60 },
    );
    let events = game.update(WIDTH, HEIGHT, FRAME, 1);
    assert_eq!(game.ball.pos.y, HEIGHT);
    assert_eq!(game.ball.vel, Vec2 { x: -150 * UNIT, y: -60 });
    assert!(events.wall_bounce);
}

#[test]
fn wall_turn_saturates() {
    let mut game = game_with_ball(Vec2 { x: 400 * UNIT, y: -UNIT }, Vec2 { x: 0, y: i64::MIN });
    game.update(WIDTH, HEIGHT, FRAME, 1);
    assert_eq!(game.ball.vel.y, i64::MAX);
}

#[test]
fn first_paddle_returns_the_ball_in_play() {
    let mut game = MyGame::new(WIDTH, HEIGHT);
    game.player_one.pos.y = 200 * UNIT;
    // After the frame the ball's position is (20, 250).
    game.ball = Ball { pos: Vec2 { x: 22_500_000, y: 250 * UNIT }, vel: Vec2 { x: -150 * UNIT, y: 0 } };
    let events = game.update(WIDTH, HEIGHT, FRAME, 1);
    assert_eq!(events, FrameEvents { paddle_one_hit: true, ..QUIET });
    assert_eq!(game.ball.pos, Vec2 { x: 20 * UNIT, y: 250 * UNIT });
    assert_eq!(game.ball.vel, Vec2 { x: 157_500_000, y: 50 * UNIT });
    assert_eq!(game.game_state, GameState::Play);
}

#[test]
fn second_paddle_returns_the_ball_in_play() {
    let mut game = MyGame::new(WIDTH, HEIGHT);
    game.player_two.pos.y = 100 * UNIT;
    game.ball = Ball { pos: Vec2 { x: 777_500_000, y: 260 * UNIT }, vel: Vec2 { x: 150 * UNIT, y: -60 } };
    let events = game.update(WIDTH, HEIGHT, FRAME, 1);
    assert_eq!(events, FrameEvents { paddle_two_hit: true, ..QUIET });
    // 260 less one tick, against the paddle's middle at 200; the ball was rising.
    assert_eq!(game.ball.vel, Vec2 { x: -157_500_000, y: 60 * UNIT - 1 });
}

#[test]
fn both_paddles_may_return_the_ball_in_one_frame() {
    let mut game = MyGame::new(WIDTH, HEIGHT);
    game.player_one.pos = Vec2 { x: 100 * UNIT, y: 200 * UNIT };
    game.player_two.pos = Vec2 { x: 100 * UNIT, y: 220 * UNIT };
    game.ball = Ball { pos: Vec2 { x: 100 * UNIT, y: 250 * UNIT }, vel: Vec2 { x: 6_000, y: 0 } };
    let events = game.update(WIDTH, HEIGHT, FRAME, 1);
    assert_eq!(events, FrameEvents { paddle_one_hit: true, paddle_two_hit: true, ..QUIET });
    // 6000 -> -6300 -> 6615. The first paddle turns the offset of -50 into a
    // speed of 50; the second, meeting a ball that is not rising, turns its
    // own offset of -70 round as well.
    assert_eq!(game.ball.vel, Vec2 { x: 6_615, y: 70 * UNIT });
}

#[test]
fn paddle_and_wall_in_one_frame() {
    let mut game = MyGame::new(WIDTH, HEIGHT);
    game.ball = Ball { pos: Vec2 { x: 20 * UNIT, y: 0 }, vel: Vec2 { x: -60, y: 0 } };
    let events = game.update(WIDTH, HEIGHT, FRAME, 1);
    assert_eq!(events, FrameEvents { paddle_one_hit: true, wall_bounce: true, ..QUIET });
    // Offset 0 - 100 turned round is 100; the wall turns it again.
    assert_eq!(game.ball.vel, Vec2 { x: 63, y: -100 * UNIT });
}

#[test]
fn keys_steer_the_paddles_during_play() {
    let mut game = MyGame::new(WIDTH, HEIGHT);
    game.key_down_event(KeyCode::W);
    assert_eq!(game.player_one.target_vel, -30 * UNIT);
    assert_eq!(game.player_two.target_vel, 0);
    game.key_down_event(KeyCode::Down);
    assert_eq!(game.player_two.target_vel, 30 * UNIT);
    game.key_down_event(KeyCode::S);
    assert_eq!(game.player_one.target_vel, 30 * UNIT);
    game.key_down_event(KeyCode::Up);
    assert_eq!(game.player_two.target_vel, -30 * UNIT);
    game.key_up_event(KeyCode::W);
    assert_eq!(game.player_one.target_vel, 0);
    assert_eq!(game.player_two.target_vel, -30 * UNIT);
    game.key_up_event(KeyCode::Down);
    assert_eq!(game.player_two.target_vel, 0);
    let before = game;
    game.key_down_event(KeyCode::Other);
    game.key_up_event(KeyCode::Other);
    assert_eq!(game, before);
}

#[test]
fn keys_are_ignored_while_the_round_is_over() {
    let mut game = MyGame::new(WIDTH, HEIGHT);
    game.player_one.target_vel = 30 * UNIT;
    game.game_state = GameState::Over { player_one_won: true, time: 0 };
    let before = game;
    game.key_down_event(KeyCode::W);
    game.key_down_event(KeyCode::Down);
    game.key_up_event(KeyCode::S);
    game.key_up_event(KeyCode::Up);
    assert_eq!(game, before);
}

#[test]
fn a_whole_round_is_played_and_restarted() {
    let mut game = MyGame::new(WIDTH, HEIGHT);
    game.player_two.pos.y = 400 * UNIT;
    let mut now: u64 = 0;
    let mut frames = 0;
    while game.game_state == GameState::Play {
        now += 16_667;
        game.update(WIDTH, HEIGHT, FRAME, now);
        assert!(game.ball.pos.x > 0);
        frames += 1;
        assert!(frames < 1_000);
    }
    // 400 units at 2.5 a frame.
    assert_eq!(frames, 160);
    assert_eq!(game.game_state, GameState::Over { player_one_won: true, time: now });
    assert_eq!((game.player_one.score, game.player_two.score), (1, 0));
    let ended = now;
    while game.game_state != GameState::Play {
        now += 16_667;
        game.update(WIDTH, HEIGHT, FRAME, now);
    }
    assert!(now - ended > 3_000_000);
    assert!(now - ended <= 3_000_000 + 16_667);
    assert_eq!(game.ball, Ball::serve(WIDTH, HEIGHT));
    assert_eq!((game.player_one.score, game.player_two.score), (1, 0));
}
