//! Whole runs, replayed: a trace is a sequence of the events that can reach
//! the simulation during play — animation ticks, primary inputs and spawn
//! ticks — and the tally law says what the score reads after any such
//! trace.

use vstd::prelude::*;

use crate::config;
use crate::entities::GameState;
use crate::pipes::{crossings, lemma_crossings_at_most_one, lemma_crossings_nonneg};
use crate::sim::{
    input_step, lemma_input_step_wf, lemma_spawn_step_wf, lemma_tick_step_wf, spawn_step,
    tick_step, GameView,
};

verus! {

/// One event of a run: an animation tick, a primary input, or a spawn tick
/// that drew the given gap offset.
pub enum RunEvent {
    Tick,
    Input,
    Spawn(int),
}

/// The state one event leads to.
pub open spec fn run_step(g: GameView, e: RunEvent) -> GameView {
    match e {
        RunEvent::Tick => tick_step(g),
        RunEvent::Input => input_step(g),
        RunEvent::Spawn(gap_y) => spawn_step(g, gap_y),
    }
}

/// The state a whole trace of events leads to, applied oldest first.
pub open spec fn run_trace(g: GameView, evs: Seq<RunEvent>) -> GameView
    decreases evs.len(),
{
    if evs.len() == 0 {
        g
    } else {
        run_step(run_trace(g, evs.drop_last()), evs.last())
    }
}

/// How many pipes cross the bird's column over the whole trace: at each
/// tick taken during a run within the machine bounds, the crossings of that
/// moment's pipes.
pub open spec fn trace_crossings(g: GameView, evs: Seq<RunEvent>) -> int
    decreases evs.len(),
{
    if evs.len() == 0 {
        0
    } else {
        let before = run_trace(g, evs.drop_last());
        trace_crossings(g, evs.drop_last()) + match evs.last() {
            RunEvent::Tick => if before.state == GameState::Playing && before.can_step() {
                crossings(before.pipes)
            } else {
                0int
            },
            _ => 0int,
        }
    }
}

/// Every spawn event of the trace drew its gap offset from the spawn band,
/// as the spawner does.
pub open spec fn trace_spawns_in_band(evs: Seq<RunEvent>) -> bool {
    forall|i: int|
        #![trigger evs[i]]
        0 <= i < evs.len() ==> match evs[i] {
            RunEvent::Spawn(gap_y) => config::PIPE_Y_MIN as int <= gap_y < config::PIPE_Y_MAX
                as int,
            _ => true,
        }
}

/// No event of the trace resets the game: no primary input arrives while
/// the state it meets is `GameOver`.
pub open spec fn trace_has_no_reset(g: GameView, evs: Seq<RunEvent>) -> bool {
    forall|i: int|
        #![trigger evs[i]]
        0 <= i < evs.len() ==> match evs[i] {
            RunEvent::Input => run_trace(g, evs.take(i)).state != GameState::GameOver,
            _ => true,
        }
}

/// A whole trace of in-band events keeps the simulation state well formed.
pub proof fn lemma_run_trace_wf(g: GameView, evs: Seq<RunEvent>)
    requires
        g.wf(),
        trace_spawns_in_band(evs),
    ensures
        run_trace(g, evs).wf(),
    decreases evs.len(),
{
    if evs.len() > 0 {
        let evs1 = evs.drop_last();
        assert(forall|i: int| 0 <= i < evs1.len() ==> evs1[i] == evs[i]);
        lemma_run_trace_wf(g, evs1);
        let before = run_trace(g, evs1);
        assert(evs[evs.len() - 1] == evs.last());
        match evs.last() {
            RunEvent::Tick => lemma_tick_step_wf(before),
            RunEvent::Input => lemma_input_step_wf(before),
            RunEvent::Spawn(gap_y) => lemma_spawn_step_wf(before, gap_y),
        }
    }
}

/// The score tallies the crossings since the last reset: from any well
/// formed state, any trace of ticks, inputs and spawns that contains no
/// reset grows the score by exactly the number of pipes whose position
/// crossed the bird's column at a tick of a running game. Together with the
/// reset law, which zeroes the score, the score always reads the number of
/// pipes passed since the game was last reset — and in particular it never
/// decreases along the trace.
pub proof fn lemma_score_tallies_crossings(g: GameView, evs: Seq<RunEvent>)
    requires
        g.wf(),
        trace_spawns_in_band(evs),
        trace_has_no_reset(g, evs),
    ensures
        run_trace(g, evs).score == g.score + trace_crossings(g, evs),
        trace_crossings(g, evs) >= 0,
    decreases evs.len(),
{
    if evs.len() > 0 {
        let evs1 = evs.drop_last();
        assert(forall|i: int| 0 <= i < evs1.len() ==> evs1[i] == evs[i]);
        assert forall|i: int| 0 <= i < evs1.len() implies match #[trigger] evs1[i] {
            RunEvent::Input => run_trace(g, evs1.take(i)).state != GameState::GameOver,
            _ => true,
        } by {
            assert(evs1.take(i) =~= evs.take(i));
        }
        lemma_score_tallies_crossings(g, evs1);
        lemma_run_trace_wf(g, evs1);
        let before = run_trace(g, evs1);
        assert(evs[evs.len() - 1] == evs.last());
        match evs.last() {
            RunEvent::Tick => {
                if before.state == GameState::Playing && before.can_step() {
                    lemma_crossings_nonneg(before.pipes);
                    lemma_crossings_at_most_one(before.pipes);
                }
            },
            RunEvent::Input => {
                assert(evs.take(evs.len() - 1) =~= evs1);
                assert(before.state != GameState::GameOver);
            },
            RunEvent::Spawn(_) => {},
        }
    }
}

} // verus!
