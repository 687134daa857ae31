//! Session-wide laws of the simulation, stated over the ghost model and
//! proved for every sequence of frames.

use vstd::prelude::*;

verus! {

use crate::game::{FrameInput, GameModel, lemma_step_spec_wf};
use crate::geom::HALF_HEIGHT;
use vstd::math::abs;

/// The state reached after a whole sequence of frames, each frame an
/// input paired with its elapsed milliseconds.
pub open spec fn run_spec(s: GameModel, frames: Seq<(FrameInput, int)>) -> GameModel
    decreases frames.len(),
{
    if frames.len() == 0 {
        s
    } else {
        run_spec(s.step_spec(frames[0].0, frames[0].1), frames.skip(1))
    }
}

/// Well-formedness is an invariant of a whole session: every state a
/// well-formed state can reach is well-formed, under the same tuning and
/// the same paddle geometry.
pub proof fn lemma_run_preserves_wf(s: GameModel, frames: Seq<(FrameInput, int)>)
    requires
        s.wf(),
    ensures
        run_spec(s, frames).wf(),
        run_spec(s, frames).config == s.config,
        run_spec(s, frames).left.height == s.left.height,
        run_spec(s, frames).right.height == s.right.height,
    decreases frames.len(),
{
    if frames.len() > 0 {
        lemma_step_spec_wf(s, frames[0].0, frames[0].1);
        lemma_run_preserves_wf(s.step_spec(frames[0].0, frames[0].1), frames.skip(1));
    }
}

/// However many frames pass and whatever keys are held, each paddle's
/// whole extent stays inside the field: the height of its centre above
/// the midline, in absolute value, plus half its height never exceeds
/// half the arena's height.
pub proof fn lemma_paddles_always_inside(s: GameModel, frames: Seq<(FrameInput, int)>)
    requires
        s.wf(),
    ensures
        abs(run_spec(s, frames).left.y) + s.left.height / 2 <= HALF_HEIGHT,
        abs(run_spec(s, frames).right.y) + s.right.height / 2 <= HALF_HEIGHT,
{
    lemma_run_preserves_wf(s, frames);
}

/// During play, a frame in which no key is pressed leaves both paddle
/// centres exactly where they were.
pub proof fn lemma_idle_input_keeps_paddles(s: GameModel, input: FrameInput, dt: int)
    requires
        s.wf(),
        s.round is InFlight,
        !input.left.up,
        !input.left.down,
        !input.right.up,
        !input.right.down,
    ensures
        s.step_spec(input, dt).left.y == s.left.y,
        s.step_spec(input, dt).right.y == s.right.y,
{
}

/// However many paddle bounces a rally contains, and whatever speed-up
/// factor is configured, neither component of the ball's velocity ever
/// exceeds the configured maximum speed in magnitude.
pub proof fn lemma_speed_never_exceeds_max(s: GameModel, frames: Seq<(FrameInput, int)>)
    requires
        s.wf(),
    ensures
        -s.config.max_speed <= run_spec(s, frames).ball.vx <= s.config.max_speed,
        -s.config.max_speed <= run_spec(s, frames).ball.vy <= s.config.max_speed,
{
    lemma_run_preserves_wf(s, frames);
}

/// A tally never goes down: each player's score only ever rises as the
/// session runs.
pub proof fn lemma_score_never_decreases(s: GameModel, frames: Seq<(FrameInput, int)>)
    ensures
        run_spec(s, frames).score.left >= s.score.left,
        run_spec(s, frames).score.right >= s.score.right,
    decreases frames.len(),
{
    if frames.len() > 0 {
        lemma_score_never_decreases(s.step_spec(frames[0].0, frames[0].1), frames.skip(1));
    }
}

} // verus!
