//! The horse-drawn wagon the stuntman aims for: it rolls right along the
//! ground at the level's speed, jumps back once past the right edge, and
//! cycles three animation frames.
use vstd::prelude::*;
use crate::config::{LOGICAL_W, WAGON_W};
use crate::geom::fits_i32;
use crate::sprite::Sprite;

verus! {

/// Distance the wagon jumps back when it rolls off the right edge.
pub const WRAP_STRIDE: i32 = LOGICAL_W + WAGON_W - 3;
/// Ticks each trot frame is held.
pub const ANIM_TICKS: u8 = 3;

/// The wagon sprite for animation phase `p` (`0..9`).
pub open spec fn wagon_sprite(p: u8) -> Sprite {
    if p / ANIM_TICKS == 0 {
        Sprite::Wagon1
    } else if p / ANIM_TICKS == 1 {
        Sprite::Wagon2
    } else {
        Sprite::Wagon3
    }
}

pub struct Wagon {
    /// Left edge, logical pixels.
    pub x: i32,
    /// Animation phase, `0..9` (three ticks per frame).
    pub phase: u8,
}

impl Wagon {
    pub open spec fn wf(self) -> bool {
        self.phase < ANIM_TICKS * 3
    }

    /// Whether rolling at `speed` stays inside `i32` arithmetic.
    pub open spec fn tick_ok(self, speed: i32) -> bool {
        self.x > LOGICAL_W || fits_i32(self.x + speed)
    }

    /// The wagon after one tick at `speed`: past the right edge it jumps
    /// back by the wrap stride, otherwise it rolls `speed` pixels right.
    pub open spec fn after_tick(self, speed: i32) -> Wagon {
        Wagon {
            x: if self.x > LOGICAL_W {
                (self.x - WRAP_STRIDE) as i32
            } else {
                (self.x + speed) as i32
            },
            phase: ((self.phase + 1) % (ANIM_TICKS * 3)) as u8,
        }
    }

    /// Roll one tick at `speed`, wrapping off the right edge.
    pub fn tick(&mut self, speed: i32)
        requires
            old(self).wf(),
            old(self).tick_ok(speed),
        ensures
            *final(self) == old(self).after_tick(speed),
            final(self).wf(),
    {
        self.phase = (self.phase + 1) % (ANIM_TICKS * 3);
        if self.x > LOGICAL_W {
            self.x = self.x - WRAP_STRIDE;
        } else {
            self.x = self.x + speed;
        }
    }

    /// Current wagon sprite.
    pub fn sprite(&self) -> (s: Sprite)
        ensures
            s == wagon_sprite(self.phase),
    {
        let f = self.phase / ANIM_TICKS;
        if f == 0 {
            Sprite::Wagon1
        } else if f == 1 {
            Sprite::Wagon2
        } else {
            Sprite::Wagon3
        }
    }
}

impl Default for Wagon {
    fn default() -> (w: Self)
        ensures
            w.x == 0,
            w.phase == 0,
    {
        Wagon { x: 0, phase: 0 }
    }
}

} // verus!
