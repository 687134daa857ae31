//! Paddles: a side marker, a per-frame movement intent, and the clamped
//! vertical update that keeps a paddle inside the field no matter how long
//! a direction key is held.

use vstd::prelude::*;

verus! {

use crate::geom::{
    ARENA_HEIGHT,
    ARENA_WIDTH,
    HALF_HEIGHT,
    HALF_WIDTH,
    PADDLE_HEIGHT,
    PADDLE_INSET,
    PADDLE_WIDTH,
    clamp_spec,
    clamp_to,
    travel,
    travel_dist,
};

/// Which side of the arena a paddle guards.
#[derive(Clone, Copy, PartialEq, Eq, Structural, Debug)]
pub enum Side {
    Left,
    Right,
}

/// The discrete movement intent read from the keys once per frame. Both
/// flags may be set; the update treats that as no intent at all.
#[derive(Clone, Copy, PartialEq, Eq, Structural, Debug)]
pub struct PaddleInput {
    pub up: bool,
    pub down: bool,
}

impl PaddleInput {
    /// The intent of a frame in which neither key is pressed.
    pub fn idle() -> (r: PaddleInput)
        ensures
            r == (PaddleInput { up: false, down: false }),
    {
        PaddleInput { up: false, down: false }
    }
}

/// Ghost model of a paddle, over unbounded integers.
pub struct PaddleModel {
    pub side: Side,
    pub y: int,
    pub height: int,
    pub width: int,
}

impl PaddleModel {
    /// Largest centre height at which the paddle still fits inside the
    /// field; the centre may range over `[-top_limit, top_limit]`.
    pub open spec fn top_limit(self) -> int {
        HALF_HEIGHT - self.height / 2
    }

    /// The paddle fits in the arena: its size is positive and no larger
    /// than the field, and its whole extent lies between the walls.
    pub open spec fn wf(self) -> bool {
        &&& 0 < self.height <= ARENA_HEIGHT
        &&& 0 < self.width <= ARENA_WIDTH
        &&& -self.top_limit() <= self.y <= self.top_limit()
    }

    /// x coordinate of the paddle's centre line, fixed by its side.
    pub open spec fn centre_x(self) -> int {
        if self.side is Left {
            -(HALF_WIDTH - PADDLE_INSET)
        } else {
            HALF_WIDTH - PADDLE_INSET
        }
    }

    /// Smallest x coordinate covered by the paddle's rectangle.
    pub open spec fn min_x(self) -> int {
        self.centre_x() - self.width / 2
    }

    /// Largest x coordinate covered by the paddle's rectangle.
    pub open spec fn max_x(self) -> int {
        self.centre_x() + self.width / 2
    }

    /// Centre height after one frame of input: unchanged when the two keys
    /// agree (neither pressed, or both pressed and cancelling), otherwise
    /// moved by the distance travelled at `speed` over `dt` and clamped so
    /// the paddle never leaves the field.
    pub open spec fn next_y(self, input: PaddleInput, speed: int, dt: int) -> int {
        if input.up == input.down {
            self.y
        } else {
            let d = travel(speed, dt);
            let cand = if input.up {
                self.y + d
            } else {
                self.y - d
            };
            clamp_spec(cand, -self.top_limit(), self.top_limit())
        }
    }
}

/// A player-controlled vertical rectangle, described by the height of its
/// centre above the arena's midline.
#[derive(Clone, Copy, PartialEq, Eq, Structural, Debug)]
pub struct Paddle {
    pub side: Side,
    pub y: i32,
    pub height: i32,
    pub width: i32,
}

impl View for Paddle {
    type V = PaddleModel;

    open spec fn view(&self) -> PaddleModel {
        PaddleModel {
            side: self.side,
            y: self.y as int,
            height: self.height as int,
            width: self.width as int,
        }
    }
}

impl Paddle {
    /// A standard paddle resting at the centre of its side.
    pub fn new(side: Side) -> (p: Paddle)
        ensures
            p == (Paddle { side, y: 0, height: PADDLE_HEIGHT, width: PADDLE_WIDTH }),
            p@.wf(),
    {
        Paddle { side, y: 0, height: PADDLE_HEIGHT, width: PADDLE_WIDTH }
    }

    /// Applies one frame of input: the centre moves by the distance
    /// travelled at `speed` pixels per second over `dt_ms` milliseconds,
    /// clamped so the paddle stays entirely inside the field. When both
    /// keys or neither are pressed the paddle does not move.
    pub fn update(&mut self, input: PaddleInput, speed: i32, dt_ms: u32)
        requires
            old(self)@.wf(),
            0 < speed,
        ensures
            final(self)@.y == old(self)@.next_y(input, speed as int, dt_ms as int),
            final(self).side == old(self).side,
            final(self).height == old(self).height,
            final(self).width == old(self).width,
            final(self)@.wf(),
    {
        if input.up != input.down {
            let d: i64 = travel_dist(speed, dt_ms);
            let cand: i64 = if input.up {
                self.y as i64 + d
            } else {
                self.y as i64 - d
            };
            let lim: i32 = HALF_HEIGHT - self.height / 2;
            self.y = clamp_to(cand, -lim, lim);
        }
    }
}

} // verus!
