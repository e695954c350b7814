//! The simulation context: one object owning the game mode, the bird, the
//! pipes, the score and the frame counter, driven by three callbacks — the
//! animation tick, the spawn tick and the primary input.
//!
//! Every transition is also written down as a function on the mathematical
//! view of the context, and each method's contract says that the method
//! performs exactly that transition. The laws at the bottom of the module
//! state the guarantees of the state machine in terms of those functions.

use vstd::prelude::*;

use crate::collision::{check_collision, collides};
use crate::config;
use crate::entities::{
    bird_wf, initial_bird, initial_bird_view, pipe_wf, pipes_view, pipes_wf, Bird, BirdView,
    GameState, Pipe, PipeView,
};
use crate::physics::{
    bird_can_step, bird_falling_step, bird_playing_step, step_bird_falling, step_bird_playing,
};
use crate::pipes::{
    crossings, lemma_crossings_at_most_one, lemma_crossings_nonneg, step_pipes, step_pipes_seq,
};
use crate::rng::random_in_range;

verus! {

/// Mathematical view of the whole simulation context.
#[verifier::ext_equal]
pub struct GameView {
    pub state: GameState,
    pub bird: BirdView,
    pub pipes: Seq<PipeView>,
    pub score: int,
    pub high_score: int,
    pub frame_count: int,
}

/// The simulation context. It owns all mutable game state; the host only
/// feeds it callbacks and reads it for drawing.
pub struct GameSim {
    /// The authoritative mode of play.
    pub state: GameState,
    /// The player entity.
    pub bird: Bird,
    /// The live pipes, oldest (leftmost) first.
    pub pipes: Vec<Pipe>,
    /// Pipes passed since the last reset.
    pub score: i64,
    /// Best score seen by this session; persisted by the host at the commit
    /// the input handler reports.
    pub high_score: i64,
    /// Animation ticks seen so far; gates the sprite cadence and the ground
    /// scroll only.
    pub frame_count: u64,
}

impl View for GameSim {
    type V = GameView;

    open spec fn view(&self) -> GameView {
        GameView {
            state: self.state,
            bird: self.bird@,
            pipes: pipes_view(self.pipes@),
            score: self.score as int,
            high_score: self.high_score as int,
            frame_count: self.frame_count as int,
        }
    }
}

impl GameView {
    /// Well-formed simulation state: the entities are well formed and the
    /// counters sit inside the simulation's machine bounds.
    pub open spec fn wf(self) -> bool {
        &&& bird_wf(self.bird)
        &&& pipes_wf(self.pipes)
        &&& 0 <= self.score <= config::SCORE_BOUND as int
        &&& 0 <= self.high_score <= config::SCORE_BOUND as int
        &&& 0 <= self.frame_count <= config::TICK_LIMIT as int + 1
    }

    /// The state is far enough inside the machine bounds that one more tick
    /// stays exact. Any state an ordinary session can reach satisfies this;
    /// past the bounds a tick freezes the simulation instead of rounding.
    pub open spec fn can_step(self) -> bool {
        &&& bird_can_step(self.bird)
        &&& self.score <= config::SCORE_LIMIT as int
        &&& self.frame_count <= config::TICK_LIMIT as int
    }
}

/// The simulation state after one animation tick: the frame counter
/// advances; in a run the bird and the pipes move, the score counts a pipe
/// crossing the bird's column, and a detected collision ends the run — the
/// tick that detects it still commits the moved positions. After a collision
/// the bird tumbles to the ground. In every other mode only the frame
/// counter moves.
pub open spec fn tick_step(g: GameView) -> GameView {
    if !g.can_step() {
        g
    } else {
        let fc = g.frame_count + 1;
        match g.state {
            GameState::Playing => {
                let bird = bird_playing_step(g.bird, fc);
                let pipes = step_pipes_seq(g.pipes);
                let score = g.score + if crossings(g.pipes) > 0 {
                    1int
                } else {
                    0int
                };
                let state = if collides(bird, pipes) {
                    GameState::GameOver
                } else {
                    GameState::Playing
                };
                GameView { state, bird, pipes, score, frame_count: fc, ..g }
            },
            GameState::GameOver => GameView {
                bird: bird_falling_step(g.bird),
                frame_count: fc,
                ..g
            },
            _ => GameView { frame_count: fc, ..g },
        }
    }
}

/// The simulation state after one primary input: it starts a run from
/// `Ready`, flaps during a run, and resets the game after `GameOver` —
/// committing the high score and restoring the documented initial values.
/// While `Loading` the input is ignored.
pub open spec fn input_step(g: GameView) -> GameView {
    match g.state {
        GameState::Loading => g,
        GameState::Ready => GameView { state: GameState::Playing, ..g },
        GameState::Playing => GameView {
            bird: BirdView { speed: -(config::THRUST as int), ..g.bird },
            ..g
        },
        GameState::GameOver => GameView {
            state: GameState::Ready,
            bird: initial_bird_view(),
            pipes: Seq::empty(),
            score: 0,
            high_score: if g.score > g.high_score {
                g.score
            } else {
                g.high_score
            },
            frame_count: g.frame_count,
        },
    }
}

/// A primary input commits a new high score exactly when it resets the game
/// and the ending score beats the stored one.
pub open spec fn input_commits_high_score(g: GameView) -> bool {
    g.state == GameState::GameOver && g.score > g.high_score
}

/// The simulation state after the asset bundle resolves (`ok`) or fails
/// (`!ok`): success while `Loading` readies the game; a failure changes
/// nothing, and outside `Loading` the event is ignored.
pub open spec fn assets_step(g: GameView, ok: bool) -> GameView {
    if g.state == GameState::Loading && ok {
        GameView { state: GameState::Ready, ..g }
    } else {
        g
    }
}

/// The newest pipe still stands on the spawn column, so another spawn would
/// overlap it: two spawn callbacks arrived with no animation tick between
/// them.
pub open spec fn spawn_blocked(g: GameView) -> bool {
    g.pipes.len() > 0 && g.pipes.last().x == config::CANVAS_WIDTH as int
}

/// The simulation state after one spawn tick with gap offset `gap_y`: in a
/// run it enqueues one pipe at the spawn column, keeping spawn order; in any
/// other mode, or while the spawn column is still occupied, it changes
/// nothing.
pub open spec fn spawn_step(g: GameView, gap_y: int) -> GameView {
    if g.state == GameState::Playing && !spawn_blocked(g) {
        GameView {
            pipes: g.pipes.push(PipeView { x: config::CANVAS_WIDTH as int, y: gap_y }),
            ..g
        }
    } else {
        g
    }
}

impl GameSim {
    /// Opens a session: assets unresolved, the bird at its initial values,
    /// no pipes, score zero, and the high score the host read from its
    /// store.
    pub fn new(high_score: i64) -> (s: GameSim)
        requires
            0 <= high_score <= config::SCORE_BOUND,
        ensures
            s@.wf(),
            s@.state == GameState::Loading,
            s@.bird == initial_bird_view(),
            s@.pipes == Seq::<PipeView>::empty(),
            s@.score == 0,
            s@.high_score == high_score as int,
            s@.frame_count == 0,
    {
        let s = GameSim {
            state: GameState::Loading,
            bird: initial_bird(),
            pipes: Vec::new(),
            score: 0,
            high_score,
            frame_count: 0,
        };
        proof {
            assert(pipes_view(s.pipes@) =~= Seq::<PipeView>::empty());
        }
        s
    }

    /// True while one more tick stays inside the machine bounds.
    fn can_step_now(&self) -> (b: bool)
        ensures
            b == self@.can_step(),
    {
        -config::Y_LIMIT <= self.bird.y && self.bird.y <= config::Y_LIMIT
            && -config::SPEED_LIMIT <= self.bird.speed && self.bird.speed <= config::SPEED_LIMIT
            && self.score <= config::SCORE_LIMIT && self.frame_count <= config::TICK_LIMIT
    }

    /// Reports the outcome of the asset resolution the host awaited once at
    /// session start.
    pub fn assets_resolved(&mut self, ok: bool)
        ensures
            final(self)@ == assets_step(old(self)@, ok),
    {
        if ok && self.state == GameState::Loading {
            self.state = GameState::Ready;
        }
        proof {
            assert(self@ =~= assets_step(old(self)@, ok));
        }
    }

    /// Applies one primary input (pointer press or key press). Returns the
    /// new high score exactly when this input commits one; the host persists
    /// it.
    pub fn handle_input(&mut self) -> (commit: Option<i64>)
        requires
            old(self)@.wf(),
        ensures
            final(self)@ == input_step(old(self)@),
            final(self)@.wf(),
            commit == if input_commits_high_score(old(self)@) {
                Some(old(self).score)
            } else {
                None::<i64>
            },
    {
        let commit = match self.state {
            GameState::Loading => None,
            GameState::Ready => {
                self.state = GameState::Playing;
                None
            },
            GameState::Playing => {
                self.bird.speed = -config::THRUST;
                None
            },
            GameState::GameOver => {
                let commit = if self.score > self.high_score {
                    self.high_score = self.score;
                    Some(self.score)
                } else {
                    None
                };
                self.state = GameState::Ready;
                self.bird = initial_bird();
                self.pipes = Vec::new();
                self.score = 0;
                proof {
                    assert(pipes_view(self.pipes@) =~= Seq::<PipeView>::empty());
                }
                commit
            },
        };
        proof {
            assert(self@ =~= input_step(old(self)@));
        }
        commit
    }

    /// Advances the simulation by one animation tick.
    pub fn tick(&mut self)
        requires
            old(self)@.wf(),
        ensures
            final(self)@ == tick_step(old(self)@),
            final(self)@.wf(),
    {
        if !self.can_step_now() {
            return;
        }
        self.frame_count = self.frame_count + 1;
        match self.state {
            GameState::Playing => {
                step_bird_playing(&mut self.bird, self.frame_count);
                let scored = step_pipes(&mut self.pipes);
                if scored {
                    self.score = self.score + 1;
                }
                if check_collision(&self.bird, &self.pipes) {
                    self.state = GameState::GameOver;
                }
            },
            GameState::GameOver => {
                step_bird_falling(&mut self.bird);
            },
            _ => {},
        }
        proof {
            assert(self@ =~= tick_step(old(self)@));
        }
    }

    /// Spawns one pipe with the given gap offset, under the same gating as
    /// [`GameSim::spawn_tick`].
    pub fn spawn_tick_with(&mut self, gap_y: i64)
        requires
            old(self)@.wf(),
            config::PIPE_Y_MIN <= gap_y < config::PIPE_Y_MAX,
        ensures
            final(self)@ == spawn_step(old(self)@, gap_y as int),
            final(self)@.wf(),
    {
        if !(self.state == GameState::Playing) {
            proof {
                assert(self@ =~= spawn_step(old(self)@, gap_y as int));
            }
            return;
        }
        let len = self.pipes.len();
        let blocked = len > 0 && self.pipes[len - 1].x == config::CANVAS_WIDTH;
        if !blocked {
            self.pipes.push(Pipe { x: config::CANVAS_WIDTH, y: gap_y });
            proof {
                let vps = pipes_view(old(self).pipes@);
                let p = PipeView { x: config::CANVAS_WIDTH as int, y: gap_y as int };
                assert(pipes_view(self.pipes@) =~= vps.push(p));
                assert(pipe_wf(p));
                assert forall|i: int| 0 <= i < vps.len() implies (#[trigger] vps[i]).x < p.x by {
                    if i < vps.len() - 1 {
                        assert(vps[i].x < vps[vps.len() - 1].x);
                    }
                }
            }
        }
        proof {
            assert(self@ =~= spawn_step(old(self)@, gap_y as int));
        }
    }

    /// Runs the spawn timer's action: during a run it enqueues one pipe
    /// whose gap offset is drawn uniformly from the spawn band; in any other
    /// mode it changes nothing.
    pub fn spawn_tick(&mut self)
        requires
            old(self)@.wf(),
        ensures
            final(self)@.wf(),
            exists|gy: int|
                config::PIPE_Y_MIN <= gy < config::PIPE_Y_MAX && final(self)@ == #[trigger]
                spawn_step(old(self)@, gy),
            (old(self)@.state != GameState::Playing || spawn_blocked(old(self)@)) ==> final(self)@
                == old(self)@,
    {
        if !(self.state == GameState::Playing) {
            proof {
                assert(self@ =~= spawn_step(old(self)@, config::PIPE_Y_MIN as int));
            }
            return;
        }
        let gy = random_in_range(config::PIPE_Y_MIN, config::PIPE_Y_MAX);
        self.spawn_tick_with(gy);
        proof {
            assert(config::PIPE_Y_MIN <= (gy as int) < config::PIPE_Y_MAX && self@ == spawn_step(
                old(self)@,
                gy as int,
            ));
        }
    }
}

/// One animation tick keeps the simulation state well formed.
pub proof fn lemma_tick_step_wf(g: GameView)
    requires
        g.wf(),
    ensures
        tick_step(g).wf(),
{
    if g.can_step() {
        match g.state {
            GameState::Playing => {
                crate::pipes::lemma_step_pipes_wf(g.pipes);
            },
            _ => {},
        }
    }
}

/// One primary input keeps the simulation state well formed.
pub proof fn lemma_input_step_wf(g: GameView)
    requires
        g.wf(),
    ensures
        input_step(g).wf(),
{
}

/// One spawn tick with a gap offset inside the band keeps the simulation
/// state well formed.
pub proof fn lemma_spawn_step_wf(g: GameView, gap_y: int)
    requires
        g.wf(),
        config::PIPE_Y_MIN as int <= gap_y < config::PIPE_Y_MAX as int,
    ensures
        spawn_step(g, gap_y).wf(),
{
    if g.state == GameState::Playing && !spawn_blocked(g) {
        let p = PipeView { x: config::CANVAS_WIDTH as int, y: gap_y };
        let pushed = g.pipes.push(p);
        assert(pipe_wf(p));
        assert forall|i: int| 0 <= i < g.pipes.len() implies (#[trigger] g.pipes[i]).x < p.x by {
            if i < g.pipes.len() - 1 {
                assert(g.pipes[i].x < g.pipes[g.pipes.len() - 1].x);
            }
        }
        assert(forall|i: int| 0 <= i < pushed.len() - 1 ==> #[trigger] pushed[i] == g.pipes[i]);
    }
}

/// The asset-resolution event keeps the simulation state well formed.
pub proof fn lemma_assets_step_wf(g: GameView, ok: bool)
    requires
        g.wf(),
    ensures
        assets_step(g, ok).wf(),
{
}

/// A primary input while the assets are still loading is ignored: no crash,
/// no transition, no change at all.
pub proof fn lemma_input_ignored_while_loading(g: GameView)
    requires
        g.state == GameState::Loading,
    ensures
        input_step(g) == g,
{
}

/// An asset-resolution event outside `Loading` is not in the transition
/// table and leaves the state unchanged.
pub proof fn lemma_assets_event_ignored_outside_loading(g: GameView, ok: bool)
    requires
        g.state != GameState::Loading,
    ensures
        assets_step(g, ok) == g,
{
}

/// A failed asset resolution leaves the machine in `Loading`: no crash, no
/// partial game start.
pub proof fn lemma_assets_failure_keeps_loading(g: GameView)
    ensures
        assets_step(g, false) == g,
{
}

/// Outside a run and outside the tumble, an animation tick moves only the
/// frame counter: no entity moves, no transition fires.
pub proof fn lemma_tick_only_counts_frames_outside_play(g: GameView)
    requires
        g.can_step(),
        g.state == GameState::Loading || g.state == GameState::Ready,
    ensures
        tick_step(g) == (GameView { frame_count: g.frame_count + 1, ..g }),
{
    assert(tick_step(g) =~= GameView { frame_count: g.frame_count + 1, ..g });
}

/// A spawn tick outside a run is ignored.
pub proof fn lemma_spawn_ignored_outside_play(g: GameView, gap_y: int)
    requires
        g.state != GameState::Playing,
    ensures
        spawn_step(g, gap_y) == g,
{
}

/// While playing, a tick raises the score by exactly the number of pipes
/// that cross the bird's column during that tick — which is never negative,
/// so the score never decreases, and never more than one, so no tick counts
/// twice. Summed from the last reset onward, the score is exactly the count
/// of pipes that have crossed the column.
pub proof fn lemma_score_counts_crossings(g: GameView)
    requires
        g.wf(),
        g.can_step(),
        g.state == GameState::Playing,
    ensures
        tick_step(g).score == g.score + crossings(g.pipes),
        g.score <= tick_step(g).score,
        0 <= crossings(g.pipes) <= 1,
{
    lemma_crossings_nonneg(g.pipes);
    lemma_crossings_at_most_one(g.pipes);
}

/// Resetting the game after `GameOver` always restores the documented
/// initial values: the bird at its start position and at rest, no pipes,
/// score zero — whatever the prior state.
pub proof fn lemma_reset_restores_initial(g: GameView)
    requires
        g.state == GameState::GameOver,
    ensures
        input_step(g).state == GameState::Ready,
        input_step(g).bird == initial_bird_view(),
        input_step(g).pipes == Seq::<PipeView>::empty(),
        input_step(g).score == 0,
{
}

/// The reset after `GameOver` commits the high score exactly when the ending
/// score beats it, and never lowers it.
pub proof fn lemma_high_score_commit(g: GameView)
    requires
        g.state == GameState::GameOver,
    ensures
        input_step(g).high_score == if g.score > g.high_score {
            g.score
        } else {
            g.high_score
        },
        input_step(g).high_score >= g.high_score,
        input_commits_high_score(g) == (g.score > g.high_score),
{
}

/// Once the bird is no longer rising, every further tick of a run strictly
/// increases its vertical position: it falls under gravity.
pub proof fn lemma_bird_descends_once_falling(g: GameView)
    requires
        g.wf(),
        g.can_step(),
        g.state == GameState::Playing,
        g.bird.speed >= 0,
    ensures
        tick_step(g).bird.y > g.bird.y,
        tick_step(g).bird.speed > 0,
{
}

} // verus!
