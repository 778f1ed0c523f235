//! A drifting cloud: it scrolls right-to-left and, once fully off the left
//! edge, respawns off the right edge at a random height with the next of the
//! three cloud sprites. A stuntman falling through it catches a gust.
use vstd::prelude::*;
use crate::config::LOGICAL_W;
use crate::geom::{fits_i32, Pos};
use crate::rng::{range_value, xorshift64, Rng};
use crate::sprite::{sprite_size, Sprite};

verus! {

/// Lowest (topmost) respawn height, inclusive.
pub const RESPAWN_TOP: i32 = 8;
/// Respawn heights stay above this, exclusive.
pub const RESPAWN_BOTTOM: i32 = 120;

/// The cloud sprite for frame `f` (`0..3`).
pub open spec fn cloud_sprite(f: u8) -> Sprite {
    if f == 0 {
        Sprite::CloudLeft
    } else if f == 1 {
        Sprite::CloudBottom
    } else {
        Sprite::CloudRight
    }
}

/// A cloud that drifts off the left edge reappears just off the right edge,
/// at a height in `RESPAWN_TOP..RESPAWN_BOTTOM`, showing the next sprite;
/// otherwise it only moves one pixel left.
pub proof fn lemma_respawn(c: Cloud, s: u64)
    ensures
        c.leaves() ==> {
            &&& c.after_tick(s).pos.x == LOGICAL_W
            &&& RESPAWN_TOP <= c.after_tick(s).pos.y < RESPAWN_BOTTOM
            &&& c.after_tick(s).frame == (c.frame + 1) % 3
        },
        !c.leaves() ==> c.after_tick(s).pos == (Pos { x: (c.pos.x - 1) as i32, y: c.pos.y }),
{
    crate::rng::lemma_range_value_bounds(xorshift64(s), RESPAWN_TOP, RESPAWN_BOTTOM);
}

/// The cloud covers exactly the points of its sprite's box: a point is
/// behind it when its x lies in `pos.x .. pos.x + width` and its y in
/// `pos.y .. pos.y + height` of the sprite showing — never above or below
/// that box, nor beside it.
pub proof fn lemma_covers_is_the_box(c: Cloud, p: Pos)
    ensures
        ({
            let (cw, ch) = sprite_size(cloud_sprite(c.frame));
            c.covers_spec(p) <==> (c.pos.x <= p.x < c.pos.x + cw && c.pos.y <= p.y < c.pos.y + ch)
        }),
        p.y < c.pos.y ==> !c.covers_spec(p),
        p.y >= c.pos.y + sprite_size(cloud_sprite(c.frame)).1 ==> !c.covers_spec(p),
{
}

pub struct Cloud {
    /// Top-left position, logical pixels.
    pub pos: Pos,
    /// Which of the three cloud sprites shows, `0..3`.
    pub frame: u8,
}

impl Cloud {
    pub open spec fn wf(self) -> bool {
        self.frame < 3
    }

    /// The cloud's width, from its sprite.
    pub open spec fn w(self) -> i32 {
        sprite_size(cloud_sprite(self.frame)).0
    }

    /// The cloud's height, from its sprite.
    pub open spec fn h(self) -> i32 {
        sprite_size(cloud_sprite(self.frame)).1
    }

    /// Whether drifting one pixel stays inside `i32` arithmetic.
    pub open spec fn tick_ok(self) -> bool {
        self.pos.x > i32::MIN && fits_i32(self.pos.x - 1 + self.w())
    }

    /// Whether the drift this tick carries the cloud fully off the left edge.
    pub open spec fn leaves(self) -> bool {
        self.pos.x - 1 + self.w() < 0
    }

    /// The cloud after one tick, given the generator's state `s` before it.
    /// A respawn draws the new height from the generator.
    pub open spec fn after_tick(self, s: u64) -> Cloud {
        if self.leaves() {
            Cloud {
                pos: Pos {
                    x: LOGICAL_W,
                    y: range_value(xorshift64(s), RESPAWN_TOP, RESPAWN_BOTTOM) as i32,
                },
                frame: ((self.frame + 1) % 3) as u8,
            }
        } else {
            Cloud { pos: Pos { x: (self.pos.x - 1) as i32, y: self.pos.y }, frame: self.frame }
        }
    }

    /// The generator's state after the cloud's tick from state `s`: one draw
    /// on a respawn, none otherwise.
    pub open spec fn rng_after_tick(self, s: u64) -> u64 {
        if self.leaves() {
            xorshift64(s)
        } else {
            s
        }
    }

    /// Whether `covers(p)` stays inside `i32` arithmetic: each edge sum is
    /// only formed once the checks before it have passed.
    pub open spec fn covers_ok(self, p: Pos) -> bool {
        &&& (p.x >= self.pos.x ==> fits_i32(self.pos.x + self.w()))
        &&& (p.x >= self.pos.x && p.x < self.pos.x + self.w() && p.y >= self.pos.y ==> fits_i32(
            self.pos.y + self.h(),
        ))
    }

    /// Whether playfield point `p` lies over the cloud's bounding box.
    pub open spec fn covers_spec(self, p: Pos) -> bool {
        &&& self.pos.x <= p.x < self.pos.x + self.w()
        &&& self.pos.y <= p.y < self.pos.y + self.h()
    }

    /// Drift one pixel left; respawn at a fresh random height once fully off
    /// the left edge.
    pub fn tick(&mut self, rng: &mut Rng)
        requires
            old(self).wf(),
            old(self).tick_ok(),
        ensures
            *final(self) == old(self).after_tick(old(rng).state()),
            final(rng).state() == old(self).rng_after_tick(old(rng).state()),
            final(self).wf(),
    {
        self.pos.x = self.pos.x - 1;
        if self.pos.x + self.width() < 0 {
            self.respawn(rng);
        }
    }

    fn respawn(&mut self, rng: &mut Rng)
        requires
            old(self).wf(),
        ensures
            final(self).frame == (old(self).frame + 1) % 3,
            final(self).pos.x == LOGICAL_W,
            final(rng).state() == xorshift64(old(rng).state()),
            final(self).pos.y == range_value(final(rng).state(), RESPAWN_TOP, RESPAWN_BOTTOM),
    {
        self.frame = (self.frame + 1) % 3;
        self.pos.x = LOGICAL_W;
        self.pos.y = rng.range(RESPAWN_TOP, RESPAWN_BOTTOM);
    }

    pub fn sprite(&self) -> (s: Sprite)
        ensures
            s == cloud_sprite(self.frame),
    {
        match self.frame {
            0 => Sprite::CloudLeft,
            1 => Sprite::CloudBottom,
            _ => Sprite::CloudRight,
        }
    }

    fn width(&self) -> (w: i32)
        ensures
            w == self.w(),
            0 < w,
    {
        self.sprite().width()
    }

    /// Whether playfield point `p` lies over the cloud's bounding box.
    pub fn covers(&self, p: Pos) -> (b: bool)
        requires
            self.covers_ok(p),
        ensures
            b == self.covers_spec(p),
    {
        let s = self.sprite();
        let w = s.width();
        let h = s.height();
        p.x >= self.pos.x && p.x < self.pos.x + w && p.y >= self.pos.y && p.y < self.pos.y + h
    }
}

impl Default for Cloud {
    fn default() -> (c: Self)
        ensures
            c.pos.x == LOGICAL_W,
            c.pos.y == 30,
            c.frame == 0,
    {
        Cloud { pos: Pos { x: LOGICAL_W, y: 30 }, frame: 0 }
    }
}

} // verus!
