//! The render adapter: a pure function from the simulation state to the
//! exact sequence of draw operations a 2D immediate-mode surface must
//! perform. It mutates nothing; the host executes the operations, resolving
//! asset references through the bundle it loaded.

use vstd::prelude::*;

use vstd::arithmetic::div_mod::{
    lemma_fundamental_div_mod, lemma_fundamental_div_mod_converse_mod,
};

use crate::config;
use crate::entities::{all_pipes_wf, bird_wf, pipe_wf, pipes_view, Bird, GameState, Pipe};

verus! {

/// The named image references of the resolved asset bundle: opaque string
/// handles (URLs or paths) the core never decodes.
#[derive(Clone, Debug, Default)]
pub struct GameAssets {
    /// The sprite frames of the bird's animation cycle, in order.
    pub bird_frames: Vec<String>,
    /// The top barrier's sprite.
    pub pipe_top: String,
    /// The bottom barrier's sprite.
    pub pipe_bottom: String,
    /// The background sprite.
    pub background: String,
    /// The ground sprite.
    pub ground: String,
}

/// A reference to one sprite of the asset bundle.
#[derive(Clone, Copy, Debug, PartialEq, Eq, Structural)]
pub enum AssetId {
    /// The bird's sprite frame with the given index in the animation cycle.
    BirdFrame(usize),
    /// The top barrier's sprite.
    PipeTop,
    /// The bottom barrier's sprite.
    PipeBottom,
    /// The background sprite.
    Background,
    /// The ground sprite.
    Ground,
}

impl GameAssets {
    /// A complete bundle holds one sprite per animation frame.
    pub open spec fn complete(self) -> bool {
        self.bird_frames@.len() == config::ANIM_FRAMES as int
    }

    /// The string handle an asset reference resolves to, or `None` for a
    /// sprite frame the bundle does not hold.
    pub fn asset_src(&self, id: AssetId) -> (r: Option<&String>)
        ensures
            (match id {
                AssetId::BirdFrame(i) => if i < self.bird_frames@.len() {
                    r == Some(&self.bird_frames@[i as int])
                } else {
                    r is None
                },
                AssetId::PipeTop => r == Some(&self.pipe_top),
                AssetId::PipeBottom => r == Some(&self.pipe_bottom),
                AssetId::Background => r == Some(&self.background),
                AssetId::Ground => r == Some(&self.ground),
            }),
    {
        match id {
            AssetId::BirdFrame(i) => if i < self.bird_frames.len() {
                Some(&self.bird_frames[i])
            } else {
                None
            },
            AssetId::PipeTop => Some(&self.pipe_top),
            AssetId::PipeBottom => Some(&self.pipe_bottom),
            AssetId::Background => Some(&self.background),
            AssetId::Ground => Some(&self.ground),
        }
    }
}

/// The fill color of the backdrop behind the background sprites.
pub fn backdrop_color() -> (c: &'static str)
    ensures
        c@ == "#30c0df"@,
{
    "#30c0df"
}

/// One operation against the drawing surface. Coordinates are in subunits
/// from the play area's top-left corner; rotations are in angle units around
/// the image's anchor point.
#[derive(Clone, Copy, Debug, PartialEq, Eq, Structural)]
pub enum DrawOp {
    /// Fill the given rectangle with the backdrop color.
    FillRect { x: i64, y: i64, width: i64, height: i64 },
    /// Draw the image at the given position.
    Image { asset: AssetId, x: i64, y: i64 },
    /// Draw the image rotated: translate to the anchor, rotate, draw the
    /// image displaced by the offsets, restore the transform.
    RotatedImage {
        asset: AssetId,
        anchor_x: i64,
        anchor_y: i64,
        rotation: i64,
        offset_x: i64,
        offset_y: i64,
    },
}

/// The two draw operations of one pipe pair: the top barrier at the pipe's
/// offset, the bottom barrier one sprite height plus the gap below it.
pub open spec fn top_pipe_op(p: Pipe) -> DrawOp {
    DrawOp::Image { asset: AssetId::PipeTop, x: p.x, y: p.y }
}

pub open spec fn bottom_pipe_op(p: Pipe) -> DrawOp {
    DrawOp::Image {
        asset: AssetId::PipeBottom,
        x: p.x,
        y: (p.y + config::PIPE_TOP_HEIGHT + config::PIPE_GAP) as i64,
    }
}

/// The draw operations of the pipe sequence, oldest pipe first, top barrier
/// before bottom barrier.
pub open spec fn pipe_draw_ops(ps: Seq<Pipe>) -> Seq<DrawOp>
    decreases ps.len(),
{
    if ps.len() == 0 {
        Seq::empty()
    } else {
        pipe_draw_ops(ps.drop_last()).push(top_pipe_op(ps.last())).push(
            bottom_pipe_op(ps.last()),
        )
    }
}

/// The bird's draw operation: anchored at its fixed column and current
/// height, rotated by its tilt, the sprite centered on the anchor.
pub open spec fn bird_op(b: Bird) -> DrawOp {
    DrawOp::RotatedImage {
        asset: AssetId::BirdFrame(b.frame),
        anchor_x: config::BIRD_X,
        anchor_y: b.y,
        rotation: b.rotation,
        offset_x: (-config::BIRD_HALF_SIZE) as i64,
        offset_y: (-config::BIRD_HALF_SIZE) as i64,
    }
}

/// How far the ground has scrolled left: one pipe step per tick during a
/// run, wrapping at the play area width; zero in every other mode.
pub open spec fn ground_scroll(state: GameState, frame_count: u64) -> int {
    if state == GameState::Playing {
        (frame_count as int * config::PIPE_STEP as int) % (config::CANVAS_WIDTH as int)
    } else {
        0
    }
}

/// The exact draw list of one frame: clear to the backdrop, two tiled
/// background copies, each pipe pair, the rotated bird, and two tiled ground
/// copies displaced by the scroll.
pub open spec fn render_ops(state: GameState, b: Bird, ps: Seq<Pipe>, frame_count: u64) -> Seq<
    DrawOp,
> {
    let off = ground_scroll(state, frame_count);
    seq![
        DrawOp::FillRect { x: 0, y: 0, width: config::CANVAS_WIDTH, height: config::CANVAS_HEIGHT },
        DrawOp::Image { asset: AssetId::Background, x: 0, y: config::BACKGROUND_Y },
        DrawOp::Image {
            asset: AssetId::Background,
            x: config::CANVAS_HALF_WIDTH,
            y: config::BACKGROUND_Y,
        },
    ] + pipe_draw_ops(ps) + seq![
        bird_op(b),
        DrawOp::Image { asset: AssetId::Ground, x: (0 - off) as i64, y: config::GROUND_Y },
        DrawOp::Image {
            asset: AssetId::Ground,
            x: (config::CANVAS_WIDTH - off) as i64,
            y: config::GROUND_Y,
        },
    ]
}

/// Builds the draw list for the current frame. Pure: it reads the
/// simulation state and mutates nothing.
pub fn draw_ops(state: GameState, bird: &Bird, pipes: &Vec<Pipe>, frame_count: u64) -> (ops: Vec<
    DrawOp,
>)
    requires
        bird_wf(bird@),
        all_pipes_wf(pipes_view(pipes@)),
    ensures
        ops@ == render_ops(state, *bird, pipes@, frame_count),
{
    let ghost expected = render_ops(state, *bird, pipes@, frame_count);
    let mut ops: Vec<DrawOp> = Vec::new();
    ops.push(
        DrawOp::FillRect {
            x: 0,
            y: 0,
            width: config::CANVAS_WIDTH,
            height: config::CANVAS_HEIGHT,
        },
    );
    ops.push(DrawOp::Image { asset: AssetId::Background, x: 0, y: config::BACKGROUND_Y });
    ops.push(
        DrawOp::Image {
            asset: AssetId::Background,
            x: config::CANVAS_HALF_WIDTH,
            y: config::BACKGROUND_Y,
        },
    );
    let ghost header = ops@;
    let mut i: usize = 0;
    while i < pipes.len()
        invariant
            i <= pipes@.len(),
            all_pipes_wf(pipes_view(pipes@)),
            pipes_view(pipes@).len() == pipes@.len(),
            ops@ == header + pipe_draw_ops(pipes@.take(i as int)),
        decreases pipes@.len() - i,
    {
        let p = pipes[i];
        proof {
            assert(pipes_view(pipes@)[i as int] == pipes@[i as int]@);
            assert(pipe_wf(pipes@[i as int]@));
        }
        ops.push(DrawOp::Image { asset: AssetId::PipeTop, x: p.x, y: p.y });
        let bottom_y = p.y + config::PIPE_TOP_HEIGHT + config::PIPE_GAP;
        ops.push(DrawOp::Image { asset: AssetId::PipeBottom, x: p.x, y: bottom_y });
        proof {
            assert(pipes@.take(i as int + 1).drop_last() =~= pipes@.take(i as int));
            assert(pipes@.take(i as int + 1).last() == pipes@[i as int]);
            assert(ops@ =~= header + pipe_draw_ops(pipes@.take(i as int + 1)));
        }
        i = i + 1;
    }
    proof {
        assert(pipes@.take(pipes@.len() as int) =~= pipes@);
    }
    ops.push(
        DrawOp::RotatedImage {
            asset: AssetId::BirdFrame(bird.frame),
            anchor_x: config::BIRD_X,
            anchor_y: bird.y,
            rotation: bird.rotation,
            offset_x: -config::BIRD_HALF_SIZE,
            offset_y: -config::BIRD_HALF_SIZE,
        },
    );
    let scroll: i64 = match state {
        GameState::Playing => ((frame_count % config::GROUND_SCROLL_TICKS) as i64)
            * config::PIPE_STEP,
        _ => 0,
    };
    proof {
        if state == GameState::Playing {
            let fc = frame_count as int;
            let t = config::GROUND_SCROLL_TICKS as int;
            let s = config::PIPE_STEP as int;
            let w = config::CANVAS_WIDTH as int;
            lemma_fundamental_div_mod(fc, t);
            assert(fc * s == (t * (fc / t)) * s + (fc % t) * s) by (nonlinear_arith)
                requires
                    fc == t * (fc / t) + fc % t,
            ;
            assert((t * (fc / t)) * s == (fc / t) * w) by (nonlinear_arith)
                requires
                    t == 276 && s == 80 && w == 22080,
            ;
            lemma_fundamental_div_mod_converse_mod(fc * s, w, fc / t, (fc % t) * s);
            assert(scroll as int == ground_scroll(state, frame_count));
        }
    }
    ops.push(DrawOp::Image { asset: AssetId::Ground, x: 0 - scroll, y: config::GROUND_Y });
    ops.push(
        DrawOp::Image {
            asset: AssetId::Ground,
            x: config::CANVAS_WIDTH - scroll,
            y: config::GROUND_Y,
        },
    );
    proof {
        assert(ops@ =~= expected);
    }
    ops
}

} // verus!
