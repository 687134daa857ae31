//! The ball: a centre position and a velocity vector, both in whole
//! pixels, together with the serve that puts it back into play after a
//! point.

use vstd::prelude::*;

verus! {

use crate::geom::{BALL_RADIUS, HALF_HEIGHT, HALF_WIDTH};
use crate::paddle::Side;

/// Ghost model of the ball, over unbounded integers.
pub struct BallModel {
    pub x: int,
    pub y: int,
    pub vx: int,
    pub vy: int,
}

impl BallModel {
    /// The ball's observable state is bounded: its centre never rests more
    /// than one radius beyond a side wall (where it comes to rest after a
    /// point), its vertical extent stays between the walls, and each
    /// velocity component is within the configured maximum speed.
    pub open spec fn wf(self, max_speed: int) -> bool {
        &&& -(HALF_WIDTH + BALL_RADIUS) <= self.x <= HALF_WIDTH + BALL_RADIUS
        &&& -(HALF_HEIGHT - BALL_RADIUS) <= self.y <= HALF_HEIGHT - BALL_RADIUS
        &&& -max_speed <= self.vx <= max_speed
        &&& -max_speed <= self.vy <= max_speed
    }
}

/// The moving entity of the game: centre position and velocity in pixels
/// and pixels per second.
#[derive(Clone, Copy, PartialEq, Eq, Structural, Debug)]
pub struct Ball {
    pub x: i32,
    pub y: i32,
    pub vx: i32,
    pub vy: i32,
}

impl View for Ball {
    type V = BallModel;

    open spec fn view(&self) -> BallModel {
        BallModel { x: self.x as int, y: self.y as int, vx: self.vx as int, vy: self.vy as int }
    }
}

impl Ball {
    /// A ball served from the centre of the arena: horizontal velocity of
    /// magnitude `serve_speed` toward the given side, no vertical motion.
    pub fn serve(toward: Side, serve_speed: i32) -> (b: Ball)
        requires
            0 < serve_speed,
        ensures
            b.x == 0,
            b.y == 0,
            b.vy == 0,
            b.vx as int == if toward is Left {
                -(serve_speed as int)
            } else {
                serve_speed as int
            },
    {
        let vx: i32 = match toward {
            Side::Left => -serve_speed,
            Side::Right => serve_speed,
        };
        Ball { x: 0, y: 0, vx, vy: 0 }
    }
}

} // verus!
