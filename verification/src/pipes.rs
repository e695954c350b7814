//! Per-tick movement of the pipe pairs, retirement of off-screen pipes, and
//! edge-triggered scoring: a pipe is counted at the single tick on which its
//! position crosses the bird's column.

use vstd::prelude::*;

use crate::config;
use crate::entities::{pipe_wf, pipes_ordered, pipes_view, pipes_wf, Pipe, PipeView};

verus! {

/// A pipe moved left by one tick's step.
pub open spec fn shifted(p: PipeView) -> PipeView {
    PipeView { x: p.x - config::PIPE_STEP as int, y: p.y }
}

/// A pipe whose sprite still reaches into the play area. One that moved
/// fully past the left edge is retired.
pub open spec fn pipe_on_screen(p: PipeView) -> bool {
    p.x > -(config::PIPE_WIDTH as int)
}

/// The scoring detection window: one step wide, ending at the bird's column.
/// A pipe whose position lands in the window this tick has just crossed the
/// column.
pub open spec fn in_score_window(x: int) -> bool {
    (config::BIRD_X as int - config::PIPE_STEP as int) < x <= config::BIRD_X as int
}

/// The pipe crosses the bird's column during the current tick: its new
/// position lands in the detection window.
pub open spec fn pipe_crosses(p: PipeView) -> bool {
    in_score_window(p.x - config::PIPE_STEP as int)
}

/// The pipe sequence after one tick: every pipe moved one step left, the
/// ones that left the play area dropped, order kept.
pub open spec fn step_pipes_seq(ps: Seq<PipeView>) -> Seq<PipeView>
    decreases ps.len(),
{
    if ps.len() == 0 {
        Seq::empty()
    } else {
        let rest = step_pipes_seq(ps.drop_last());
        let p = shifted(ps.last());
        if pipe_on_screen(p) {
            rest.push(p)
        } else {
            rest
        }
    }
}

/// How many pipes of the sequence cross the bird's column during the current
/// tick.
pub open spec fn crossings(ps: Seq<PipeView>) -> int
    decreases ps.len(),
{
    if ps.len() == 0 {
        0
    } else {
        crossings(ps.drop_last()) + if pipe_crosses(ps.last()) {
            1int
        } else {
            0int
        }
    }
}

/// A crossing count is never negative.
pub proof fn lemma_crossings_nonneg(ps: Seq<PipeView>)
    ensures
        0 <= crossings(ps),
    decreases ps.len(),
{
    if ps.len() > 0 {
        lemma_crossings_nonneg(ps.drop_last());
    }
}

/// A sequence without a crossing pipe counts zero crossings.
pub proof fn lemma_crossings_none(ps: Seq<PipeView>)
    requires
        forall|i: int| 0 <= i < ps.len() ==> !pipe_crosses(#[trigger] ps[i]),
    ensures
        crossings(ps) == 0,
    decreases ps.len(),
{
    if ps.len() > 0 {
        lemma_crossings_none(ps.drop_last());
    }
}

/// A well-formed pipe position left of the crossing column is at most one
/// step short of the bird's column.
proof fn lemma_grid_below_window(x: int)
    requires
        x % (config::PIPE_STEP as int) == 0,
        x < config::BIRD_X as int + config::PIPE_STEP as int,
    ensures
        x <= config::BIRD_X as int,
{
    vstd::arithmetic::div_mod::lemma_fundamental_div_mod(x, config::PIPE_STEP as int);
}

/// In a well-formed sequence at most one pipe crosses the bird's column in
/// any one tick: the positions sit on the step grid and are strictly
/// ordered, and the detection window is exactly one step wide.
pub proof fn lemma_crossings_at_most_one(ps: Seq<PipeView>)
    requires
        pipes_wf(ps),
    ensures
        crossings(ps) <= 1,
    decreases ps.len(),
{
    if ps.len() > 0 {
        let ps1 = ps.drop_last();
        assert(forall|i: int| 0 <= i < ps1.len() ==> ps1[i] == ps[i]);
        lemma_crossings_at_most_one(ps1);
        if pipe_crosses(ps.last()) {
            assert forall|i: int| 0 <= i < ps1.len() implies !pipe_crosses(#[trigger] ps1[i]) by {
                assert(ps1[i].x < ps.last().x);
                lemma_grid_below_window(ps1[i].x);
            }
            lemma_crossings_none(ps1);
        }
    }
}

/// Every pipe of the stepped sequence sits strictly below `bound` minus one
/// step if every pipe of the input sits strictly below `bound`.
proof fn lemma_step_pipes_bounded(ps: Seq<PipeView>, bound: int)
    requires
        forall|i: int| 0 <= i < ps.len() ==> (#[trigger] ps[i]).x < bound,
    ensures
        forall|j: int| 0 <= j < step_pipes_seq(ps).len()
            ==> (#[trigger] step_pipes_seq(ps)[j]).x < bound - config::PIPE_STEP as int,
    decreases ps.len(),
{
    if ps.len() > 0 {
        let ps1 = ps.drop_last();
        assert(forall|i: int| 0 <= i < ps1.len() ==> ps1[i] == ps[i]);
        lemma_step_pipes_bounded(ps1, bound);
        let stepped = step_pipes_seq(ps);
        let p = shifted(ps.last());
        assert(ps[ps.len() - 1].x < bound);
        if pipe_on_screen(p) {
            assert(stepped == step_pipes_seq(ps1).push(p));
            assert forall|j: int| 0 <= j < stepped.len() implies
                (#[trigger] stepped[j]).x < bound - config::PIPE_STEP as int by {
                if j < stepped.len() - 1 {
                    assert(stepped[j] == step_pipes_seq(ps1)[j]);
                } else {
                    assert(stepped[j] == p);
                }
            }
        }
    }
}

/// Stepping a well-formed pipe sequence keeps it well formed.
pub proof fn lemma_step_pipes_wf(ps: Seq<PipeView>)
    requires
        pipes_wf(ps),
    ensures
        pipes_wf(step_pipes_seq(ps)),
    decreases ps.len(),
{
    if ps.len() > 0 {
        let ps1 = ps.drop_last();
        assert(forall|i: int| 0 <= i < ps1.len() ==> ps1[i] == ps[i]);
        lemma_step_pipes_wf(ps1);
        lemma_step_pipes_bounded(ps1, ps.last().x);
        let p = shifted(ps.last());
        if pipe_on_screen(p) {
            let stepped = step_pipes_seq(ps1).push(p);
            assert(pipe_wf(ps.last()));
            assert(p.x % (config::PIPE_STEP as int) == 0) by {
                vstd::arithmetic::div_mod::lemma_mod_sub_multiples_vanish(
                    ps.last().x,
                    config::PIPE_STEP as int,
                );
            }
            assert(forall|i: int| 0 <= i < stepped.len() - 1
                ==> #[trigger] stepped[i] == step_pipes_seq(ps1)[i]);
            assert(pipes_ordered(stepped));
        }
    }
}

/// Advances every pipe one step left, drops the ones that left the play
/// area, and reports whether a pipe crossed the bird's column this tick.
pub fn step_pipes(pipes: &mut Vec<Pipe>) -> (scored: bool)
    requires
        pipes_wf(pipes_view(old(pipes)@)),
    ensures
        pipes_view(final(pipes)@) == step_pipes_seq(pipes_view(old(pipes)@)),
        pipes_wf(pipes_view(final(pipes)@)),
        scored == (crossings(pipes_view(old(pipes)@)) > 0),
{
    let ghost vps = pipes_view(pipes@);
    let mut out: Vec<Pipe> = Vec::new();
    let mut scored = false;
    let mut i: usize = 0;
    while i < pipes.len()
        invariant
            i <= pipes@.len(),
            pipes_view(pipes@) == vps,
            vps.len() == pipes@.len(),
            pipes_wf(vps),
            pipes_view(out@) == step_pipes_seq(vps.take(i as int)),
            scored == (crossings(vps.take(i as int)) > 0),
        decreases pipes@.len() - i,
    {
        let p = pipes[i];
        proof {
            assert(vps[i as int] == pipes@[i as int]@);
            assert(pipe_wf(vps[i as int]));
            lemma_crossings_nonneg(vps.take(i as int));
        }
        let nx = p.x - config::PIPE_STEP;
        if nx <= config::BIRD_X && nx > config::BIRD_X - config::PIPE_STEP {
            scored = true;
        }
        let ghost out_before = pipes_view(out@);
        if nx > -config::PIPE_WIDTH {
            out.push(Pipe { x: nx, y: p.y });
            proof {
                assert(pipes_view(out@) =~= out_before.push(shifted(vps[i as int])));
            }
        }
        proof {
            assert(vps.take(i as int + 1).drop_last() =~= vps.take(i as int));
            assert(vps.take(i as int + 1).last() == vps[i as int]);
            assert(pipes_view(out@) == step_pipes_seq(vps.take(i as int + 1)));
        }
        i = i + 1;
    }
    proof {
        assert(vps.take(vps.len() as int) =~= vps);
        lemma_step_pipes_wf(vps);
    }
    *pipes = out;
    scored
}

/// A position along a trajectory that starts at `x0` and moves `k` whole
/// steps of size `s` lands in the detection window `(b - s, b]`.
pub open spec fn hits_window_at(x0: int, s: int, b: int, k: int) -> bool {
    b - s < x0 - k * s <= b
}

/// A trajectory that advances monotonically leftward in fixed steps of size
/// `s` lands in the one-step detection window at most once: a pipe is never
/// scored twice.
pub proof fn lemma_window_hit_unique(x0: int, s: int, b: int, i: int, j: int)
    requires
        s > 0,
        0 <= i,
        0 <= j,
        hits_window_at(x0, s, b, i),
        hits_window_at(x0, s, b, j),
    ensures
        i == j,
{
    if i < j {
        assert(x0 - j * s <= x0 - i * s - s) by (nonlinear_arith)
            requires
                i + 1 <= j,
                s > 0,
        ;
        assert(false);
    }
    if j < i {
        assert(x0 - i * s <= x0 - j * s - s) by (nonlinear_arith)
            requires
                j + 1 <= i,
                s > 0,
        ;
        assert(false);
    }
}

/// A trajectory that starts right of the bird's column and advances
/// monotonically leftward in fixed steps of size `s` lands in the one-step
/// detection window at least once: a pipe is never skipped.
pub proof fn lemma_window_hit_exists(x0: int, s: int, b: int)
    requires
        s > 0,
        x0 > b,
    ensures
        exists|k: int| 0 <= k && #[trigger] hits_window_at(x0, s, b, k),
    decreases x0 - b,
{
    if x0 - s <= b {
        assert(hits_window_at(x0, s, b, 1)) by {
            assert(x0 - 1 * s == x0 - s) by (nonlinear_arith);
        }
    } else {
        lemma_window_hit_exists(x0 - s, s, b);
        let k = choose|k: int| 0 <= k && #[trigger] hits_window_at(x0 - s, s, b, k);
        assert(x0 - (k + 1) * s == (x0 - s) - k * s) by (nonlinear_arith);
        assert(hits_window_at(x0, s, b, k + 1));
    }
}

} // verus!
