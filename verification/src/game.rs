//! The whole simulation state and its per-frame transition.
//!
//! `GameState::step` performs one fixed-timestep tick: it applies the
//! frame's key intents to both paddles, advances the ball, reflects it off
//! the top and bottom walls and off any paddle it has reached, and settles
//! a point when the ball fully leaves the field on a side. The entire tick
//! is proved equal to the mathematical transition `GameModel::step_spec`
//! on the ghost model of the state.

use vstd::prelude::*;

verus! {

use crate::ball::{Ball, BallModel};
use crate::geom::{
    ANGLE_FACTOR,
    BALL_RADIUS,
    HALF_HEIGHT,
    HALF_WIDTH,
    PADDLE_INSET,
    SPEED_LIMIT,
    clamp_spec,
    clamp_to,
    travel,
    travel_dist,
};
use crate::paddle::{Paddle, PaddleInput, PaddleModel, Side};

/// The key intents of one frame, one pair per paddle.
#[derive(Clone, Copy, PartialEq, Eq, Structural, Debug)]
pub struct FrameInput {
    pub left: PaddleInput,
    pub right: PaddleInput,
}

impl FrameInput {
    /// A frame in which no key is pressed.
    pub fn idle() -> (r: FrameInput)
        ensures
            r == (FrameInput {
                left: PaddleInput { up: false, down: false },
                right: PaddleInput { up: false, down: false },
            }),
    {
        FrameInput { left: PaddleInput::idle(), right: PaddleInput::idle() }
    }
}

/// Ghost model of the tuning constants.
pub struct ConfigModel {
    pub paddle_speed: int,
    pub serve_speed: int,
    pub max_speed: int,
    pub speedup_percent: int,
}

impl ConfigModel {
    /// All speeds are positive, within the global limit, and the serve
    /// never starts the ball above the maximum; the bounce factor is at
    /// least one (100 percent) and at most a hundredfold.
    pub open spec fn wf(self) -> bool {
        &&& 0 < self.paddle_speed <= SPEED_LIMIT
        &&& 0 < self.serve_speed <= self.max_speed
        &&& 0 < self.max_speed <= SPEED_LIMIT
        &&& 100 <= self.speedup_percent <= 10000
    }
}

/// Tuning constants of a session: how fast paddles move, how fast the
/// ball is served, the hard cap on ball speed, and the multiplicative
/// speed-up (in percent) applied to the ball on every paddle bounce.
#[derive(Clone, Copy, PartialEq, Eq, Structural, Debug)]
pub struct Config {
    pub paddle_speed: i32,
    pub serve_speed: i32,
    pub max_speed: i32,
    pub speedup_percent: u32,
}

impl View for Config {
    type V = ConfigModel;

    open spec fn view(&self) -> ConfigModel {
        ConfigModel {
            paddle_speed: self.paddle_speed as int,
            serve_speed: self.serve_speed as int,
            max_speed: self.max_speed as int,
            speedup_percent: self.speedup_percent as int,
        }
    }
}

impl Config {
    /// The standard rules: serve and paddles at 300 pixels per second, the
    /// ball capped at 1000, and no speed-up on a bounce.
    pub fn standard() -> (c: Config)
        ensures
            c == (Config {
                paddle_speed: 300,
                serve_speed: 300,
                max_speed: 1000,
                speedup_percent: 100,
            }),
            c@.wf(),
    {
        Config { paddle_speed: 300, serve_speed: 300, max_speed: 1000, speedup_percent: 100 }
    }

    /// Decides well-formedness at run time, for callers outside the
    /// verified world.
    pub fn is_well_formed(&self) -> (b: bool)
        ensures
            b == self@.wf(),
    {
        0 < self.paddle_speed && self.paddle_speed <= SPEED_LIMIT && 0 < self.serve_speed
            && self.serve_speed <= self.max_speed && self.max_speed <= SPEED_LIMIT
            && 100 <= self.speedup_percent && self.speedup_percent <= 10000
    }
}

/// Ghost model of the score.
pub struct ScoreModel {
    pub left: int,
    pub right: int,
}

impl ScoreModel {
    pub open spec fn wf(self) -> bool {
        &&& 0 <= self.left <= u32::MAX
        &&& 0 <= self.right <= u32::MAX
    }
}

/// Points won by each player this session. A tally saturates at
/// `u32::MAX` instead of wrapping.
#[derive(Clone, Copy, PartialEq, Eq, Structural, Debug)]
pub struct Score {
    pub left: u32,
    pub right: u32,
}

impl View for Score {
    type V = ScoreModel;

    open spec fn view(&self) -> ScoreModel {
        ScoreModel { left: self.left as int, right: self.right as int }
    }
}

/// Where the ball is in the life of a round: in play, or settled after a
/// point with the side that conceded it recorded, waiting for the next
/// frame to serve.
#[derive(Clone, Copy, PartialEq, Eq, Structural, Debug)]
pub enum RoundState {
    InFlight,
    Scored(Side),
}

/// A tally one higher, saturating at `u32::MAX`.
pub open spec fn bump(s: int) -> int {
    if s < u32::MAX {
        s + 1
    } else {
        s
    }
}

/// Magnitude of the ball's horizontal speed after a bounce: scaled up by
/// `percent` and capped at `cap`.
pub open spec fn speed_up_spec(speed: int, percent: int, cap: int) -> int {
    let scaled = (speed * percent) / 100;
    if scaled > cap {
        cap
    } else {
        scaled
    }
}

/// The ball's square bounding box overlaps the paddle's rectangle.
pub open spec fn ball_meets_paddle(b: BallModel, p: PaddleModel) -> bool {
    &&& b.x + BALL_RADIUS >= p.min_x()
    &&& b.x - BALL_RADIUS <= p.max_x()
    &&& -(p.height / 2 + BALL_RADIUS) <= b.y - p.y <= p.height / 2 + BALL_RADIUS
}

/// Ghost model of the whole simulation state.
pub struct GameModel {
    pub config: ConfigModel,
    pub left: PaddleModel,
    pub right: PaddleModel,
    pub ball: BallModel,
    pub score: ScoreModel,
    pub round: RoundState,
}

impl GameModel {
    pub open spec fn wf(self) -> bool {
        &&& self.config.wf()
        &&& self.left.wf()
        &&& self.left.side is Left
        &&& self.right.wf()
        &&& self.right.side is Right
        &&& self.ball.wf(self.config.max_speed)
        &&& self.score.wf()
    }

    /// The new round that follows a point: both paddles back at the
    /// centre, the ball served from the origin toward the side that
    /// conceded, the score kept.
    pub open spec fn serve_state(self, conceder: Side) -> GameModel {
        GameModel {
            left: PaddleModel { y: 0, ..self.left },
            right: PaddleModel { y: 0, ..self.right },
            ball: BallModel {
                x: 0,
                y: 0,
                vx: if conceder is Left {
                    -self.config.serve_speed
                } else {
                    self.config.serve_speed
                },
                vy: 0,
            },
            round: RoundState::InFlight,
            ..self
        }
    }

    /// Both paddles after the frame's key intents, each clamped to the
    /// field.
    pub open spec fn paddles_updated(self, input: FrameInput, dt: int) -> GameModel {
        GameModel {
            left: PaddleModel {
                y: self.left.next_y(input.left, self.config.paddle_speed, dt),
                ..self.left
            },
            right: PaddleModel {
                y: self.right.next_y(input.right, self.config.paddle_speed, dt),
                ..self.right
            },
            ..self
        }
    }

    /// The ball advanced by `velocity * dt` and reflected off the top or
    /// bottom wall: on a crossing, the vertical velocity flips and the
    /// centre is clamped back inside, so the ball never rests past a wall.
    pub open spec fn ball_flown(self, dt: int) -> GameModel {
        let mx = self.ball.x + travel(self.ball.vx, dt);
        let cy = self.ball.y + travel(self.ball.vy, dt);
        let top = HALF_HEIGHT - BALL_RADIUS;
        let crossed = cy > top || cy < -top;
        GameModel {
            ball: BallModel {
                x: mx,
                y: clamp_spec(cy, -top as int, top as int),
                vx: self.ball.vx,
                vy: if crossed {
                    -self.ball.vy
                } else {
                    self.ball.vy
                },
            },
            ..self
        }
    }

    /// The ball after any paddle bounce. When the ball's box has reached a
    /// paddle's rectangle while moving toward it, the horizontal velocity
    /// reverses (sped up by the configured factor, capped at the maximum),
    /// the vertical velocity becomes proportional to the offset between
    /// ball centre and paddle centre at contact (capped likewise), and the
    /// centre is set back onto the paddle's face so it never rests inside
    /// the paddle.
    pub open spec fn after_paddle_bounce(self) -> GameModel {
        let b = self.ball;
        let cap = self.config.max_speed;
        if b.vx > 0 && ball_meets_paddle(b, self.right) {
            GameModel {
                ball: BallModel {
                    x: self.right.min_x() - BALL_RADIUS,
                    y: b.y,
                    vx: -speed_up_spec(b.vx, self.config.speedup_percent, cap),
                    vy: clamp_spec((b.y - self.right.y) * ANGLE_FACTOR, -cap, cap),
                },
                ..self
            }
        } else if b.vx < 0 && ball_meets_paddle(b, self.left) {
            GameModel {
                ball: BallModel {
                    x: self.left.max_x() + BALL_RADIUS,
                    y: b.y,
                    vx: speed_up_spec(-b.vx, self.config.speedup_percent, cap),
                    vy: clamp_spec((b.y - self.left.y) * ANGLE_FACTOR, -cap, cap),
                },
                ..self
            }
        } else {
            self
        }
    }

    /// Settlement of a point. When the ball has fully left the field on a
    /// side, the opposing player's tally rises by one, the round records
    /// the conceding side, and the ball comes to rest at the exit plane
    /// until the next frame serves.
    pub open spec fn after_exit(self) -> GameModel {
        let b = self.ball;
        if b.x - BALL_RADIUS > HALF_WIDTH {
            GameModel {
                ball: BallModel { x: HALF_WIDTH + BALL_RADIUS, y: b.y, vx: 0, vy: 0 },
                score: ScoreModel { left: bump(self.score.left), right: self.score.right },
                round: RoundState::Scored(Side::Right),
                ..self
            }
        } else if b.x + BALL_RADIUS < -HALF_WIDTH {
            GameModel {
                ball: BallModel { x: -(HALF_WIDTH + BALL_RADIUS), y: b.y, vx: 0, vy: 0 },
                score: ScoreModel { left: self.score.left, right: bump(self.score.right) },
                round: RoundState::Scored(Side::Left),
                ..self
            }
        } else {
            self
        }
    }

    /// One frame of the simulation: a settled round serves afresh;
    /// otherwise the paddles move, the ball flies and reflects off the
    /// horizontal walls, bounces off a reached paddle, and a full exit on
    /// a side scores.
    pub open spec fn step_spec(self, input: FrameInput, dt: int) -> GameModel {
        match self.round {
            RoundState::Scored(conceder) => self.serve_state(conceder),
            RoundState::InFlight => self.paddles_updated(input, dt).ball_flown(
                dt,
            ).after_paddle_bounce().after_exit(),
        }
    }

    /// The state a session starts from, given well-formed tuning: paddles
    /// centred, no points, the ball served from the origin toward the
    /// right.
    pub open spec fn initial_spec(c: ConfigModel) -> GameModel {
        GameModel {
            config: c,
            left: PaddleModel {
                side: Side::Left,
                y: 0,
                height: crate::geom::PADDLE_HEIGHT as int,
                width: crate::geom::PADDLE_WIDTH as int,
            },
            right: PaddleModel {
                side: Side::Right,
                y: 0,
                height: crate::geom::PADDLE_HEIGHT as int,
                width: crate::geom::PADDLE_WIDTH as int,
            },
            ball: BallModel { x: 0, y: 0, vx: c.serve_speed, vy: 0 },
            score: ScoreModel { left: 0, right: 0 },
            round: RoundState::InFlight,
        }
    }
}

/// `speed_up_spec` stays within `[0, cap]` whenever its inputs are
/// sensible, so a bounce can never drive the ball past the configured
/// maximum speed.
pub proof fn lemma_speed_up_bounds(speed: int, percent: int, cap: int)
    requires
        0 <= speed,
        0 <= percent,
        0 < cap,
    ensures
        0 <= speed_up_spec(speed, percent, cap) <= cap,
{
    assert(speed * percent >= 0) by (nonlinear_arith)
        requires
            0 <= speed,
            0 <= percent,
    ;
    assert((speed * percent) / 100 >= 0) by (nonlinear_arith)
        requires
            speed * percent >= 0,
    ;
}

/// Every step from a well-formed state lands in a well-formed state: the
/// paddles stay inside the field, the ball stays within its resting
/// bounds, its speed stays within the configured maximum, and the tallies
/// stay within range.
pub proof fn lemma_step_spec_wf(s: GameModel, input: FrameInput, dt: int)
    requires
        s.wf(),
    ensures
        s.step_spec(input, dt).wf(),
        s.step_spec(input, dt).config == s.config,
        s.step_spec(input, dt).left.side == s.left.side,
        s.step_spec(input, dt).right.side == s.right.side,
        s.step_spec(input, dt).left.height == s.left.height,
        s.step_spec(input, dt).right.height == s.right.height,
        s.step_spec(input, dt).left.width == s.left.width,
        s.step_spec(input, dt).right.width == s.right.width,
{
    match s.round {
        RoundState::Scored(_) => {
        }
        RoundState::InFlight => {
            let m3 = s.paddles_updated(input, dt).ball_flown(dt).after_paddle_bounce();
            let b = s.paddles_updated(input, dt).ball_flown(dt).ball;
            if b.vx > 0 && ball_meets_paddle(b, s.right) {
                lemma_speed_up_bounds(b.vx, s.config.speedup_percent, s.config.max_speed);
            } else if b.vx < 0 && ball_meets_paddle(b, s.left) {
                lemma_speed_up_bounds(-b.vx, s.config.speedup_percent, s.config.max_speed);
            }
            assert(m3.after_exit().wf());
        }
    }
}

/// One more point for the given tally, saturating at `u32::MAX`.
fn bump_score(s: u32) -> (r: u32)
    ensures
        r as int == bump(s as int),
{
    if s < u32::MAX {
        s + 1
    } else {
        s
    }
}

/// Magnitude of the ball's horizontal speed after a bounce.
fn boosted_speed(speed: i32, percent: u32, cap: i32) -> (r: i32)
    requires
        0 < speed <= SPEED_LIMIT,
        100 <= percent <= 10000,
        0 < cap <= SPEED_LIMIT,
    ensures
        r as int == speed_up_spec(speed as int, percent as int, cap as int),
{
    proof {
        assert((speed as u64) * (percent as u64) <= 100000u64 * 10000u64) by (nonlinear_arith)
            requires
                speed as u64 <= 100000u64,
                percent as u64 <= 10000u64,
        ;
    }
    let scaled: u64 = ((speed as u64) * (percent as u64)) / 100;
    if scaled > cap as u64 {
        cap
    } else {
        scaled as i32
    }
}

/// The whole simulation state of a session, stepped once per frame.
#[derive(Clone, Copy, PartialEq, Eq, Structural, Debug)]
pub struct GameState {
    pub config: Config,
    pub left: Paddle,
    pub right: Paddle,
    pub ball: Ball,
    pub score: Score,
    pub round: RoundState,
}

impl View for GameState {
    type V = GameModel;

    open spec fn view(&self) -> GameModel {
        GameModel {
            config: self.config@,
            left: self.left@,
            right: self.right@,
            ball: self.ball@,
            score: self.score@,
            round: self.round,
        }
    }
}

impl GameState {
    /// A fresh session under the given tuning: standard paddles at the
    /// centre of each side, no points, and the ball serving rightward.
    pub fn new(config: Config) -> (g: GameState)
        requires
            config@.wf(),
        ensures
            g@ == GameModel::initial_spec(config@),
            g@.wf(),
    {
        GameState {
            config,
            left: Paddle::new(Side::Left),
            right: Paddle::new(Side::Right),
            ball: Ball::serve(Side::Right, config.serve_speed),
            score: Score { left: 0, right: 0 },
            round: RoundState::InFlight,
        }
    }

    /// Decides well-formedness at run time, for callers outside the
    /// verified world.
    pub fn is_well_formed(&self) -> (b: bool)
        ensures
            b == self@.wf(),
    {
        if !self.config.is_well_formed() {
            return false;
        }
        let paddles_ok: bool = matches!(self.left.side, Side::Left) && matches!(
            self.right.side,
            Side::Right,
        ) && 0 < self.left.height && self.left.height <= crate::geom::ARENA_HEIGHT && 0
            < self.left.width && self.left.width <= crate::geom::ARENA_WIDTH && -(HALF_HEIGHT
            - self.left.height / 2) <= self.left.y && self.left.y <= HALF_HEIGHT - self.left.height
            / 2 && 0 < self.right.height && self.right.height <= crate::geom::ARENA_HEIGHT && 0
            < self.right.width && self.right.width <= crate::geom::ARENA_WIDTH && -(HALF_HEIGHT
            - self.right.height / 2) <= self.right.y && self.right.y <= HALF_HEIGHT
            - self.right.height / 2;
        let ball_ok: bool = -(HALF_WIDTH + BALL_RADIUS) <= self.ball.x && self.ball.x <= HALF_WIDTH
            + BALL_RADIUS && -(HALF_HEIGHT - BALL_RADIUS) <= self.ball.y && self.ball.y
            <= HALF_HEIGHT - BALL_RADIUS && -self.config.max_speed <= self.ball.vx && self.ball.vx
            <= self.config.max_speed && -self.config.max_speed <= self.ball.vy && self.ball.vy
            <= self.config.max_speed;
        paddles_ok && ball_ok
    }

    /// One fixed-timestep frame: applies the key intents to the paddles,
    /// advances and reflects the ball, resolves any paddle bounce, settles
    /// a full exit as a point, and serves afresh on the frame after a
    /// point. Equal, on the ghost model, to `GameModel::step_spec`.
    pub fn step(&mut self, input: FrameInput, dt_ms: u32)
        requires
            old(self)@.wf(),
        ensures
            final(self)@ == old(self)@.step_spec(input, dt_ms as int),
            final(self)@.wf(),
    {
        proof {
            lemma_step_spec_wf(old(self)@, input, dt_ms as int);
        }
        let round: RoundState = self.round;
        match round {
            RoundState::Scored(conceder) => {
                self.left.y = 0;
                self.right.y = 0;
                self.ball = Ball::serve(conceder, self.config.serve_speed);
                self.round = RoundState::InFlight;
            }
            RoundState::InFlight => {
                let speed: i32 = self.config.paddle_speed;
                self.left.update(input.left, speed, dt_ms);
                self.right.update(input.right, speed, dt_ms);
                let ghost m1 = old(self)@.paddles_updated(input, dt_ms as int);
                assert(self@ == m1);
                // Flight and the horizontal walls.
                let dx: i64 = travel_dist(self.ball.vx, dt_ms);
                let dy: i64 = travel_dist(self.ball.vy, dt_ms);
                let mx: i64 = self.ball.x as i64 + dx;
                let cy: i64 = self.ball.y as i64 + dy;
                let top: i32 = HALF_HEIGHT - BALL_RADIUS;
                if cy > top as i64 {
                    self.ball.y = top;
                    self.ball.vy = -self.ball.vy;
                } else if cy < -(top as i64) {
                    self.ball.y = -top;
                    self.ball.vy = -self.ball.vy;
                } else {
                    self.ball.y = cy as i32;
                }
                let ghost m2 = m1.ball_flown(dt_ms as int);
                assert(mx as int == m2.ball.x);
                assert(self.ball.y as int == m2.ball.y);
                assert(self.ball.vy as int == m2.ball.vy);
                // Paddle bounce and settlement of a point.
                let r_lo: i32 = HALF_WIDTH - PADDLE_INSET - self.right.width / 2;
                let r_hi: i32 = HALF_WIDTH - PADDLE_INSET + self.right.width / 2;
                let l_lo: i32 = -(HALF_WIDTH - PADDLE_INSET) - self.left.width / 2;
                let l_hi: i32 = -(HALF_WIDTH - PADDLE_INSET) + self.left.width / 2;
                let vx: i32 = self.ball.vx;
                let ball_y: i32 = self.ball.y;
                let r_off: i32 = ball_y - self.right.y;
                let r_reach: i32 = self.right.height / 2 + BALL_RADIUS;
                let l_off: i32 = ball_y - self.left.y;
                let l_reach: i32 = self.left.height / 2 + BALL_RADIUS;
                let hit_right: bool = vx > 0 && mx + BALL_RADIUS as i64 >= r_lo as i64 && mx
                    - BALL_RADIUS as i64 <= r_hi as i64 && -r_reach <= r_off && r_off <= r_reach;
                let hit_left: bool = vx < 0 && mx + BALL_RADIUS as i64 >= l_lo as i64 && mx
                    - BALL_RADIUS as i64 <= l_hi as i64 && -l_reach <= l_off && l_off <= l_reach;
                let cap: i32 = self.config.max_speed;
                if hit_right {
                    self.ball.x = r_lo - BALL_RADIUS;
                    self.ball.vx = -boosted_speed(vx, self.config.speedup_percent, cap);
                    self.ball.vy = clamp_to((r_off as i64) * (ANGLE_FACTOR as i64), -cap, cap);
                } else if hit_left {
                    self.ball.x = l_hi + BALL_RADIUS;
                    self.ball.vx = boosted_speed(-vx, self.config.speedup_percent, cap);
                    self.ball.vy = clamp_to((l_off as i64) * (ANGLE_FACTOR as i64), -cap, cap);
                } else if mx - BALL_RADIUS as i64 > HALF_WIDTH as i64 {
                    self.ball.x = HALF_WIDTH + BALL_RADIUS;
                    self.ball.vx = 0;
                    self.ball.vy = 0;
                    self.score.left = bump_score(self.score.left);
                    self.round = RoundState::Scored(Side::Right);
                } else if mx + (BALL_RADIUS as i64) < (-(HALF_WIDTH as i64)) {
                    self.ball.x = -(HALF_WIDTH + BALL_RADIUS);
                    self.ball.vx = 0;
                    self.ball.vy = 0;
                    self.score.right = bump_score(self.score.right);
                    self.round = RoundState::Scored(Side::Left);
                } else {
                    self.ball.x = mx as i32;
                }
                let ghost m3 = m2.after_paddle_bounce();
                assert(self@ == m3.after_exit());
            }
        }
    }
}

} // verus!
