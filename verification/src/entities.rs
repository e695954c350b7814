//! The entities of the simulation: the game mode, the player bird and the
//! pipe pairs, together with their mathematical views and well-formedness.
//!
//! Executable state is held in fixed-point `i64` fields; contracts and laws
//! speak about unbounded-integer views of the same data.

use vstd::prelude::*;

use crate::config;

verus! {

/// The authoritative mode of play. It gates which update and draw logic runs
/// each tick.
#[derive(Clone, Copy, Debug, PartialEq, Eq, Structural)]
pub enum GameState {
    /// Assets are not resolved yet; every input is ignored.
    Loading,
    /// Assets are resolved; the next primary input starts a run.
    Ready,
    /// A run is in progress.
    Playing,
    /// The bird collided; it tumbles to the ground until the next primary
    /// input resets the game.
    GameOver,
}

/// The player entity. Lengths are in subunits
/// (`config::SUBUNITS_PER_PIXEL` per pixel), the rotation is in angle units
/// (`config::ROT_UNITS_PER_DEGREE` per degree).
#[derive(Clone, Copy, Debug, PartialEq, Eq, Structural)]
pub struct Bird {
    /// Vertical position of the bird's center, measured down from the top of
    /// the play area.
    pub y: i64,
    /// Signed vertical velocity per tick; positive moves down.
    pub speed: i64,
    /// Visual tilt, derived from the velocity and clamped.
    pub rotation: i64,
    /// Index of the current sprite frame in the animation cycle.
    pub frame: usize,
}

/// One pipe pair: a top barrier and a bottom barrier separated by a fixed
/// vertical gap.
#[derive(Clone, Copy, Debug, PartialEq, Eq, Structural)]
pub struct Pipe {
    /// Horizontal position of the pair's left edge.
    pub x: i64,
    /// Vertical offset of the top barrier's sprite; it is negative, so only
    /// the sprite's lower part reaches into the play area.
    pub y: i64,
}

/// Mathematical view of a [`Bird`].
pub struct BirdView {
    pub y: int,
    pub speed: int,
    pub rotation: int,
    pub frame: int,
}

/// Mathematical view of a [`Pipe`].
pub struct PipeView {
    pub x: int,
    pub y: int,
}

impl View for Bird {
    type V = BirdView;

    open spec fn view(&self) -> BirdView {
        BirdView {
            y: self.y as int,
            speed: self.speed as int,
            rotation: self.rotation as int,
            frame: self.frame as int,
        }
    }
}

impl View for Pipe {
    type V = PipeView;

    open spec fn view(&self) -> PipeView {
        PipeView { x: self.x as int, y: self.y as int }
    }
}

/// The views of a sequence of pipes.
pub open spec fn pipes_view(ps: Seq<Pipe>) -> Seq<PipeView> {
    ps.map_values(|p: Pipe| p@)
}

/// The bird at the start of a run: at its documented initial position, at
/// rest, level, on the first sprite frame.
pub open spec fn initial_bird_view() -> BirdView {
    BirdView { y: config::BIRD_START_Y as int, speed: 0, rotation: 0, frame: 0 }
}

/// Builds the bird the game starts a run with.
pub fn initial_bird() -> (b: Bird)
    ensures
        b@ == initial_bird_view(),
{
    Bird { y: config::BIRD_START_Y, speed: 0, rotation: 0, frame: 0 }
}

/// Well-formed bird state: position and speed within the simulation's
/// machine bounds, rotation within its clamps, frame inside the animation
/// cycle.
pub open spec fn bird_wf(b: BirdView) -> bool {
    &&& -(config::Y_BOUND as int) <= b.y <= config::Y_BOUND as int
    &&& -(config::SPEED_BOUND as int) <= b.speed <= config::SPEED_BOUND as int
    &&& config::ROT_MIN as int <= b.rotation <= config::ROT_MAX as int
    &&& 0 <= b.frame < config::ANIM_FRAMES as int
}

/// Well-formed pipe: on or right of the left despawn edge, no further right
/// than the spawn column, aligned to the per-tick step grid, with its gap
/// offset inside the spawn band.
pub open spec fn pipe_wf(p: PipeView) -> bool {
    &&& -(config::PIPE_WIDTH as int) < p.x <= config::CANVAS_WIDTH as int
    &&& p.x % (config::PIPE_STEP as int) == 0
    &&& config::PIPE_Y_MIN as int <= p.y < config::PIPE_Y_MAX as int
}

/// Every pipe of the sequence is well formed.
pub open spec fn all_pipes_wf(ps: Seq<PipeView>) -> bool {
    forall|i: int| 0 <= i < ps.len() ==> pipe_wf(#[trigger] ps[i])
}

/// The pipes stand in spawn order: the oldest first and furthest left, with
/// strictly increasing horizontal positions.
pub open spec fn pipes_ordered(ps: Seq<PipeView>) -> bool {
    forall|i: int, j: int| 0 <= i < j < ps.len() ==> #[trigger] ps[i].x < #[trigger] ps[j].x
}

/// Well-formed pipe sequence.
pub open spec fn pipes_wf(ps: Seq<PipeView>) -> bool {
    all_pipes_wf(ps) && pipes_ordered(ps)
}

} // verus!
