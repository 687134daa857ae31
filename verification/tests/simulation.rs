use pong::game::{Config, FrameInput, GameState, RoundState};
use pong::paddle::{PaddleInput, Side};

fn idle() -> FrameInput {
    FrameInput::idle()
}

fn left_keys(up: bool, down: bool) -> FrameInput {
    FrameInput {
        left: PaddleInput { up, down },
        right: PaddleInput { up: false, down: false },
    }
}

fn standard_game() -> GameState {
    GameState::new(Config::standard())
}

#[test]
fn initial_state_is_centred_serve() {
    let g = standard_game();
    assert!(g.is_well_formed());
    assert_eq!(g.ball.x, 0);
    assert_eq!(g.ball.y, 0);
    assert_eq!(g.ball.vx, 300);
    assert_eq!(g.ball.vy, 0);
    assert_eq!(g.left.y, 0);
    assert_eq!(g.right.y, 0);
    assert_eq!(g.score.left, 0);
    assert_eq!(g.score.right, 0);
    assert!(matches!(g.round, RoundState::InFlight));
    assert!(matches!(g.left.side, Side::Left));
    assert!(matches!(g.right.side, Side::Right));
}

#[test]
fn standard_config_values() {
    let c = Config::standard();
    assert_eq!(c.paddle_speed, 300);
    assert_eq!(c.serve_speed, 300);
    assert_eq!(c.max_speed, 1000);
    assert_eq!(c.speedup_percent, 100);
    assert!(c.is_well_formed());
}

#[test]
fn paddle_stays_clamped_however_long_a_key_is_held() {
    let mut g = standard_game();
    // park the ball so no point interrupts the long hold
    g.ball.vx = 0;
    for _ in 0..200 {
        g.step(left_keys(true, false), 50);
        // |y| + height/2 never exceeds half the arena height
        assert!(g.left.y.abs() + g.left.height / 2 <= 360);
    }
    // 200 frames of 50 ms at 300 px/s would travel 3000 px; the paddle
    // rests flush against the top instead.
    assert_eq!(g.left.y, 260);
    for _ in 0..200 {
        g.step(left_keys(false, true), 50);
        assert!(g.left.y.abs() + g.left.height / 2 <= 360);
    }
    assert_eq!(g.left.y, -260);
}

#[test]
fn no_input_leaves_paddles_in_place() {
    let mut g = standard_game();
    g.ball.vx = 0;
    g.step(left_keys(true, false), 100);
    let held = g.left.y;
    assert_eq!(held, 30);
    for _ in 0..10 {
        g.step(idle(), 16);
        assert_eq!(g.left.y, held);
        assert_eq!(g.right.y, 0);
    }
}

#[test]
fn both_keys_cancel_out() {
    let mut g = standard_game();
    g.step(left_keys(true, true), 100);
    assert_eq!(g.left.y, 0);
}

#[test]
fn dt_zero_moves_nothing() {
    let mut g = standard_game();
    let before = g;
    g.step(left_keys(true, false), 0);
    assert_eq!(g, before);
}

#[test]
fn ball_reflects_at_right_paddle_plane() {
    // Ball one pixel short of the contact plane at x = 640 - 60 = 580,
    // moving right at 300 px/s with the paddle in its way: the bounce
    // reverses vx exactly and the centre never passes the plane.
    let mut g = standard_game();
    g.ball.x = 581;
    g.ball.y = 0;
    g.ball.vx = 300;
    g.ball.vy = 0;
    g.step(idle(), 100);
    assert_eq!(g.ball.vx, -300);
    assert_eq!(g.ball.x, 580);
    assert_eq!(g.ball.vy, 0);
}

#[test]
fn ball_reflects_off_top_wall_and_is_clamped() {
    let mut g = standard_game();
    g.ball.x = 0;
    g.ball.y = 330;
    g.ball.vx = 0;
    g.ball.vy = 300;
    g.step(idle(), 100);
    // candidate centre 360 is past 340; it is clamped back and vy flips
    assert_eq!(g.ball.y, 340);
    assert_eq!(g.ball.vy, -300);
    g.ball.y = -330;
    g.ball.vy = -300;
    g.step(idle(), 100);
    assert_eq!(g.ball.y, -340);
    assert_eq!(g.ball.vy, 300);
}

#[test]
fn missed_ball_scores_exactly_once_and_resets() {
    let mut g = standard_game();
    // park the left paddle at the top so it cannot block the ball
    g.left.y = 260;
    g.ball.x = 0;
    g.ball.y = 0;
    g.ball.vx = -500;
    g.ball.vy = 0;
    g.step(idle(), 1000);
    assert_eq!(g.ball.x, -500);
    assert_eq!(g.score.right, 0);
    g.step(idle(), 1000);
    // the ball has fully left the field on the left: one point for the
    // right player, and the round settles
    assert_eq!(g.score.right, 1);
    assert_eq!(g.score.left, 0);
    assert!(matches!(g.round, RoundState::Scored(Side::Left)));
    assert_eq!(g.ball.x, -660);
    assert_eq!(g.ball.vx, 0);
    // the next frame serves from the centre toward the conceding side
    g.step(idle(), 1000);
    assert_eq!(g.ball.x, 0);
    assert_eq!(g.ball.y, 0);
    assert_eq!(g.ball.vx, -300);
    assert_eq!(g.ball.vy, 0);
    assert_eq!(g.left.y, 0);
    assert!(matches!(g.round, RoundState::InFlight));
    // and the tally rose exactly once
    assert_eq!(g.score.right, 1);
}

#[test]
fn right_exit_scores_for_left_and_serves_rightward() {
    let mut g = standard_game();
    g.right.y = 260;
    g.ball.x = 630;
    g.ball.y = 0;
    g.ball.vx = 300;
    g.ball.vy = 0;
    g.step(idle(), 100);
    // centre at 660: the trailing edge is exactly at the wall, not past it
    assert_eq!(g.ball.x, 660);
    assert!(matches!(g.round, RoundState::InFlight));
    g.step(idle(), 100);
    assert_eq!(g.score.left, 1);
    assert!(matches!(g.round, RoundState::Scored(Side::Right)));
    g.step(idle(), 100);
    assert_eq!(g.ball.vx, 300);
    assert_eq!(g.ball.x, 0);
}

#[test]
fn bounce_at_paddle_centre_is_flat() {
    let mut g = standard_game();
    g.ball.x = 575;
    g.ball.y = 0;
    g.ball.vx = 300;
    g.ball.vy = 0;
    g.step(idle(), 100);
    assert_eq!(g.ball.vx, -300);
    assert_eq!(g.ball.vy, 0);
    assert_eq!(g.ball.x, 580);
}

#[test]
fn bounce_near_paddle_edge_is_steep() {
    // near the top edge of the paddle the outgoing angle points up
    let mut g = standard_game();
    g.ball.x = 575;
    g.ball.y = 100;
    g.ball.vx = 300;
    g.ball.vy = 0;
    g.step(idle(), 100);
    assert_eq!(g.ball.vx, -300);
    assert_eq!(g.ball.vy, 300);
    // near the bottom edge it points down
    let mut h = standard_game();
    h.ball.x = 575;
    h.ball.y = -100;
    h.ball.vx = 300;
    h.ball.vy = 0;
    h.step(idle(), 100);
    assert_eq!(h.ball.vx, -300);
    assert_eq!(h.ball.vy, -300);
}

#[test]
fn rally_speed_never_exceeds_the_cap() {
    let config = Config {
        paddle_speed: 300,
        serve_speed: 300,
        max_speed: 1000,
        speedup_percent: 150,
    };
    assert!(config.is_well_formed());
    let mut g = GameState::new(config);
    let mut speeds: Vec<i32> = Vec::new();
    for _ in 0..8 {
        // put the ball just in front of whichever paddle it is flying at
        if g.ball.vx > 0 {
            g.ball.x = 575;
        } else {
            g.ball.x = -575;
        }
        g.ball.y = 0;
        g.step(idle(), 50);
        speeds.push(g.ball.vx.abs());
        assert!(g.ball.vx.abs() <= 1000);
    }
    // 300 grows by half per bounce until the cap holds it
    assert_eq!(speeds, vec![450, 675, 1000, 1000, 1000, 1000, 1000, 1000]);
}

#[test]
fn tally_saturates_instead_of_wrapping() {
    let mut g = standard_game();
    g.score.right = u32::MAX;
    g.left.y = 260;
    g.ball.x = -650;
    g.ball.y = 0;
    g.ball.vx = -500;
    g.ball.vy = 0;
    g.step(idle(), 100);
    assert!(matches!(g.round, RoundState::Scored(Side::Left)));
    assert_eq!(g.score.right, u32::MAX);
}

#[test]
fn well_formedness_check_rejects_bad_tuning() {
    let mut g = standard_game();
    assert!(g.is_well_formed());
    g.config.max_speed = 0;
    assert!(!g.is_well_formed());
    let mut h = standard_game();
    h.ball.x = 10_000;
    assert!(!h.is_well_formed());
}

#[test]
fn idle_frame_presses_no_keys() {
    let f = idle();
    assert!(!f.left.up && !f.left.down && !f.right.up && !f.right.down);
}
