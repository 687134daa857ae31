//! Arena geometry and the elementary integer arithmetic the simulation is
//! built from: clamping a value into an interval and converting a velocity
//! in pixels per second plus an elapsed time in milliseconds into a whole
//! number of pixels travelled.

use vstd::prelude::*;

verus! {

/// Width of the play field in pixels.
pub const ARENA_WIDTH: i32 = 1280;

/// Height of the play field in pixels.
pub const ARENA_HEIGHT: i32 = 720;

/// Half-extent of the field on the x axis; the field spans
/// `[-HALF_WIDTH, HALF_WIDTH]` with the origin at its centre.
pub const HALF_WIDTH: i32 = 640;

/// Half-extent of the field on the y axis.
pub const HALF_HEIGHT: i32 = 360;

/// Horizontal extent of a standard paddle.
pub const PADDLE_WIDTH: i32 = 30;

/// Vertical extent of a standard paddle.
pub const PADDLE_HEIGHT: i32 = 200;

/// Diameter of the ball's square bounding box.
pub const BALL_DIAMETER: i32 = 40;

/// Half of the ball's bounding box; positions are ball centres.
pub const BALL_RADIUS: i32 = 20;

/// Distance from a side wall to the centre line of the paddle guarding it.
pub const PADDLE_INSET: i32 = 25;

/// Upper limit on every configured speed, in pixels per second. It keeps
/// all intermediate products of the simulation comfortably inside `i64`.
pub const SPEED_LIMIT: i32 = 100_000;

/// Vertical speed, in pixels per second, that a bounce imparts per pixel of
/// offset between the ball centre and the paddle centre.
pub const ANGLE_FACTOR: i32 = 3;

/// `v` restricted to the interval `[lo, hi]`.
pub open spec fn clamp_spec(v: int, lo: int, hi: int) -> int {
    if v < lo {
        lo
    } else if v > hi {
        hi
    } else {
        v
    }
}

/// Pixels travelled by a point moving at `v` pixels per second for `dt`
/// milliseconds, rounded toward zero so that slow motion never creeps past
/// an obstacle it would not reach.
pub open spec fn travel(v: int, dt: int) -> int {
    if v >= 0 {
        (v * dt) / 1000
    } else {
        -(((-v) * dt) / 1000)
    }
}

/// Restricts a wide intermediate coordinate back into `[lo, hi]`.
pub fn clamp_to(v: i64, lo: i32, hi: i32) -> (r: i32)
    requires
        lo <= hi,
    ensures
        r == clamp_spec(v as int, lo as int, hi as int),
{
    if v < lo as i64 {
        lo
    } else if v > hi as i64 {
        hi
    } else {
        v as i32
    }
}

/// Pixels travelled at `v` pixels per second over `dt_ms` milliseconds.
/// The result is exact for every `i32` velocity and every `u32` frame time;
/// its bound leaves room to add any `i32` coordinate without overflow.
pub fn travel_dist(v: i32, dt_ms: u32) -> (d: i64)
    ensures
        d == travel(v as int, dt_ms as int),
        -0x4000_0000_0000_0000 <= d <= 0x4000_0000_0000_0000,
{
    let vw: i64 = v as i64;
    let mag_v: u64 = if vw >= 0 {
        vw as u64
    } else {
        (-vw) as u64
    };
    proof {
        assert(mag_v <= 0x8000_0000);
        assert(mag_v * (dt_ms as u64) <= 0x8000_0000u64 * 0xffff_ffffu64) by (nonlinear_arith)
            requires
                mag_v <= 0x8000_0000u64,
                dt_ms as u64 <= 0xffff_ffffu64,
        ;
    }
    let mag: u64 = (mag_v * (dt_ms as u64)) / 1000;
    if vw >= 0 {
        mag as i64
    } else {
        -(mag as i64)
    }
}

} // verus!
