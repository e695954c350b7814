//! The collision detector: a pure function of the bird and the pipes that
//! decides the terminal condition of a run.

use vstd::prelude::*;

use crate::config;
use crate::entities::{all_pipes_wf, bird_wf, pipe_wf, pipes_view, Bird, BirdView, Pipe, PipeView};

verus! {

/// The bird's vertical extent crosses the ground line.
pub open spec fn hits_ground(b: BirdView) -> bool {
    b.y + config::BIRD_HALF_SIZE as int > config::GROUND_Y as int
}

/// The pipe's horizontal extent overlaps the bird's fixed horizontal extent.
pub open spec fn pipe_overlaps_bird(p: PipeView) -> bool {
    &&& config::BIRD_X as int + config::BIRD_HALF_SIZE as int > p.x
    &&& (config::BIRD_X as int - config::BIRD_HALF_SIZE as int) < p.x + config::PIPE_WIDTH as int
}

/// The bird's vertical extent reaches into the pipe's top barrier or bottom
/// barrier; the gap between them is the only safe passage.
pub open spec fn bird_outside_gap(b: BirdView, p: PipeView) -> bool {
    ||| (b.y - config::BIRD_HALF_SIZE as int) < p.y + config::PIPE_TOP_HEIGHT as int
    ||| b.y + config::BIRD_HALF_SIZE as int > p.y + config::PIPE_TOP_HEIGHT as int
        + config::PIPE_GAP as int
}

/// The bird collides with this particular pipe.
pub open spec fn bird_hits_pipe(b: BirdView, p: PipeView) -> bool {
    pipe_overlaps_bird(p) && bird_outside_gap(b, p)
}

/// The terminal condition: the bird crosses the ground line or collides with
/// some pipe.
pub open spec fn collides(b: BirdView, ps: Seq<PipeView>) -> bool {
    hits_ground(b) || exists|i: int| 0 <= i < ps.len() && bird_hits_pipe(b, #[trigger] ps[i])
}

/// Decides whether the bird collides with the ground or a pipe. Pure: it
/// reads the entities and mutates nothing.
pub fn check_collision(bird: &Bird, pipes: &Vec<Pipe>) -> (r: bool)
    requires
        bird_wf(bird@),
        all_pipes_wf(pipes_view(pipes@)),
    ensures
        r == collides(bird@, pipes_view(pipes@)),
{
    let ghost vps = pipes_view(pipes@);
    if bird.y + config::BIRD_HALF_SIZE > config::GROUND_Y {
        return true;
    }
    let mut i: usize = 0;
    while i < pipes.len()
        invariant
            i <= pipes@.len(),
            pipes_view(pipes@) == vps,
            vps.len() == pipes@.len(),
            all_pipes_wf(vps),
            bird_wf(bird@),
            !hits_ground(bird@),
            forall|j: int| 0 <= j < i ==> !bird_hits_pipe(bird@, #[trigger] vps[j]),
        decreases pipes@.len() - i,
    {
        let p = pipes[i];
        proof {
            assert(vps[i as int] == pipes@[i as int]@);
            assert(pipe_wf(vps[i as int]));
        }
        if config::BIRD_X + config::BIRD_HALF_SIZE > p.x
            && config::BIRD_X - config::BIRD_HALF_SIZE < p.x + config::PIPE_WIDTH {
            let top_barrier_bottom = p.y + config::PIPE_TOP_HEIGHT;
            let bottom_barrier_top = top_barrier_bottom + config::PIPE_GAP;
            if bird.y - config::BIRD_HALF_SIZE < top_barrier_bottom
                || bird.y + config::BIRD_HALF_SIZE > bottom_barrier_top {
                return true;
            }
        }
        i = i + 1;
    }
    false
}

} // verus!
