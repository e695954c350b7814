//! Per-tick physics of the player: gravity integration, rotation derived
//! from speed, and the sprite-animation cadence.

use vstd::prelude::*;

use crate::config;
use crate::entities::{bird_wf, Bird, BirdView};

verus! {

/// The bird's rotation as derived from its speed while a run is in progress:
/// linear in the speed, clamped nose-down at `ROT_MIN` while rising and
/// nose-up at `ROT_MAX` while falling.
pub open spec fn rotation_for_speed(speed: int) -> int {
    if speed <= 0 {
        let r = speed * (config::ROT_RISE_SLOPE as int);
        if r < config::ROT_MIN as int {
            config::ROT_MIN as int
        } else {
            r
        }
    } else {
        let r = speed * (config::ROT_FALL_SLOPE as int);
        if r > config::ROT_MAX as int {
            config::ROT_MAX as int
        } else {
            r
        }
    }
}

/// One physics step of the bird while a run is in progress, at tick number
/// `tick`: gravity is added to the speed, the speed is integrated into the
/// position, the rotation follows the new speed, and every
/// `config::ANIM_PERIOD` ticks the sprite frame advances.
pub open spec fn bird_playing_step(b: BirdView, tick: int) -> BirdView {
    let speed = b.speed + config::GRAVITY as int;
    let frame = if tick % (config::ANIM_PERIOD as int) == 0 {
        (b.frame + 1) % (config::ANIM_FRAMES as int)
    } else {
        b.frame
    };
    BirdView { y: b.y + speed, speed, rotation: rotation_for_speed(speed), frame }
}

/// One physics step of the bird after a collision: it keeps falling under a
/// doubled gravity and turns nose-up, until it reaches the ground line, where
/// it freezes.
pub open spec fn bird_falling_step(b: BirdView) -> BirdView {
    if b.y < config::GROUND_Y as int - config::BIRD_SIZE as int {
        let speed = b.speed + 2 * config::GRAVITY as int;
        let rot = b.rotation + config::ROT_FALL_STEP as int;
        BirdView {
            y: b.y + speed,
            speed,
            rotation: if rot > config::ROT_MAX as int {
                config::ROT_MAX as int
            } else {
                rot
            },
            frame: b.frame,
        }
    } else {
        b
    }
}

/// The bird's state is far enough inside the machine bounds that one more
/// physics step cannot leave them.
pub open spec fn bird_can_step(b: BirdView) -> bool {
    &&& -(config::Y_LIMIT as int) <= b.y <= config::Y_LIMIT as int
    &&& -(config::SPEED_LIMIT as int) <= b.speed <= config::SPEED_LIMIT as int
}

/// Advances the bird by one tick of a running game.
pub fn step_bird_playing(b: &mut Bird, tick: u64)
    requires
        bird_wf(old(b)@),
        bird_can_step(old(b)@),
    ensures
        final(b)@ == bird_playing_step(old(b)@, tick as int),
        bird_wf(final(b)@),
{
    b.speed = b.speed + config::GRAVITY;
    b.y = b.y + b.speed;
    if b.speed <= 0 {
        let r = b.speed * config::ROT_RISE_SLOPE;
        b.rotation = if r < config::ROT_MIN {
            config::ROT_MIN
        } else {
            r
        };
    } else {
        let r = b.speed * config::ROT_FALL_SLOPE;
        b.rotation = if r > config::ROT_MAX {
            config::ROT_MAX
        } else {
            r
        };
    }
    if tick % config::ANIM_PERIOD == 0 {
        b.frame = (b.frame + 1) % config::ANIM_FRAMES;
    }
}

/// Advances the bird by one tick of the tumble after a collision.
pub fn step_bird_falling(b: &mut Bird)
    requires
        bird_wf(old(b)@),
        bird_can_step(old(b)@),
    ensures
        final(b)@ == bird_falling_step(old(b)@),
        bird_wf(final(b)@),
{
    if b.y < config::GROUND_Y - config::BIRD_SIZE {
        b.speed = b.speed + 2 * config::GRAVITY;
        b.y = b.y + b.speed;
        let rot = b.rotation + config::ROT_FALL_STEP;
        b.rotation = if rot > config::ROT_MAX {
            config::ROT_MAX
        } else {
            rot
        };
    }
}

} // verus!
