//! The stuntman: his state over one drop — hanging from the copter, in free
//! fall, celebrating a safe landing, or crashing. Landing classification is a
//! pure function here, and each animated state owns its own frame clock. The
//! score and lives bookkeeping belong to the world.
use vstd::prelude::*;
use crate::geom::{fits_i32, Pos};
use crate::score::Height;
use crate::sprite::Sprite;

verus! {

/// How a drop ended, by the man's horizontal offset from the wagon.
#[derive(Clone, Copy, Debug, PartialEq, Eq, Structural)]
pub enum Outcome {
    Landed,
    Splat,
    HitDriver,
    HitHorse,
}

/// What a failed drop struck, deciding the wreck it leaves behind.
#[derive(Clone, Copy, Debug, PartialEq, Eq, Structural)]
pub enum Wreck {
    Ground,
    Driver,
    Horse,
}

/// The outcome of a landing at horizontal offset `w` from the wagon's left
/// edge: outside `-6..=70` he misses the wagon, `-6..=33` is the hay,
/// `34..=44` the driver, `45..=70` the horse.
pub open spec fn outcome_at(w: int) -> Outcome {
    if w < -6 || w > 70 {
        Outcome::Splat
    } else if w < 34 {
        Outcome::Landed
    } else if w < 45 {
        Outcome::HitDriver
    } else {
        Outcome::HitHorse
    }
}

/// Classify a landing by the man's horizontal offset from the wagon's left
/// edge (`man_x - wagon_x`).
pub fn classify(man_x: i32, wagon_x: i32) -> (o: Outcome)
    requires
        fits_i32(man_x - wagon_x),
    ensures
        o == outcome_at(man_x - wagon_x),
{
    let w = man_x - wagon_x;
    if w < -6 || w > 70 {
        Outcome::Splat
    } else if w < 34 {
        Outcome::Landed
    } else if w < 45 {
        Outcome::HitDriver
    } else {
        Outcome::HitHorse
    }
}

/// The falling pose for tumble frame `f` (0..5).
pub open spec fn drop_pose(f: u8) -> Sprite {
    if f == 0 {
        Sprite::ManDrop1
    } else if f == 1 {
        Sprite::ManDrop2
    } else if f == 2 {
        Sprite::ManDrop3
    } else if f == 3 {
        Sprite::ManDrop4
    } else {
        Sprite::ManDrop5
    }
}

/// A man in free fall.
#[derive(Clone, Copy)]
pub struct Faller {
    /// Top-left position, playfield pixels.
    pub pos: Pos,
    /// Captured at drop time; scores `level * height_of_drop` on a landing.
    pub height_of_drop: Height,
    /// Tumble-animation frame, `0..5`.
    pub frame: u8,
}

impl Faller {
    /// The faller after falling `dy` pixels (one tumble frame on).
    pub open spec fn after_fall(self, dy: i32) -> Faller {
        Faller {
            pos: Pos { x: self.pos.x, y: (self.pos.y + dy) as i32 },
            height_of_drop: self.height_of_drop,
            frame: ((self.frame + 1) % 5) as u8,
        }
    }

    /// The faller after a gust of `dx` pixels.
    pub open spec fn after_gust(self, dx: i32) -> Faller {
        Faller {
            pos: Pos { x: (self.pos.x + dx) as i32, y: self.pos.y },
            height_of_drop: self.height_of_drop,
            frame: self.frame,
        }
    }

    pub fn new(pos: Pos, height_of_drop: Height) -> (f: Self)
        ensures
            f.pos == pos,
            f.height_of_drop == height_of_drop,
            f.frame == 0,
    {
        Faller { pos, height_of_drop, frame: 0 }
    }

    /// Fall `dy` pixels and advance the tumble animation. `dy` is gravity in
    /// open air, but a fixed 1px while falling through a cloud.
    pub fn fall(&mut self, dy: i32)
        requires
            old(self).frame < 5,
            fits_i32(old(self).pos.y + dy),
        ensures
            *final(self) == old(self).after_fall(dy),
            final(self).pos.x == old(self).pos.x,
            final(self).pos.y == old(self).pos.y + dy,
            final(self).height_of_drop == old(self).height_of_drop,
            final(self).frame == (old(self).frame + 1) % 5,
    {
        self.pos.y = self.pos.y + dy;
        self.frame = (self.frame + 1) % 5;
    }

    /// Nudge horizontally (a wind gust behind a cloud).
    pub fn gust(&mut self, dx: i32)
        requires
            fits_i32(old(self).pos.x + dx),
        ensures
            *final(self) == old(self).after_gust(dx),
            final(self).pos.x == old(self).pos.x + dx,
            final(self).pos.y == old(self).pos.y,
            final(self).height_of_drop == old(self).height_of_drop,
            final(self).frame == old(self).frame,
    {
        self.pos.x = self.pos.x + dx;
    }

    pub fn sprite(&self) -> (s: Sprite)
        ensures
            s == drop_pose(self.frame),
    {
        match self.frame {
            0 => Sprite::ManDrop1,
            1 => Sprite::ManDrop2,
            2 => Sprite::ManDrop3,
            3 => Sprite::ManDrop4,
            _ => Sprite::ManDrop5,
        }
    }
}

/// Distinct backflip steps; the 15th step shows the first pose again.
pub const FLIP_FRAMES: u16 = 15;
/// Ticks each backflip pose is held.
pub const FLIP_PERIOD: u16 = 3;

/// The backflip pose at step `i` (`0..15`); step 14 loops back to the first.
pub open spec fn flip_step_pose(i: int) -> Sprite {
    if i == 0 {
        Sprite::Flip01
    } else if i == 1 {
        Sprite::Flip02
    } else if i == 2 {
        Sprite::Flip03
    } else if i == 3 {
        Sprite::Flip04
    } else if i == 4 {
        Sprite::Flip05
    } else if i == 5 {
        Sprite::Flip06
    } else if i == 6 {
        Sprite::Flip07
    } else if i == 7 {
        Sprite::Flip08
    } else if i == 8 {
        Sprite::Flip09
    } else if i == 9 {
        Sprite::Flip10
    } else if i == 10 {
        Sprite::Flip11
    } else if i == 11 {
        Sprite::Flip12
    } else if i == 12 {
        Sprite::Flip13
    } else if i == 13 {
        Sprite::Flip14
    } else {
        Sprite::Flip01
    }
}

/// What the celebration shows after `t` ticks: a pose per three ticks for
/// fifteen steps, then nothing.
pub open spec fn flip_pose_at(t: u16) -> Option<Sprite> {
    if t >= FLIP_FRAMES * FLIP_PERIOD {
        None
    } else {
        Some(flip_step_pose((t / FLIP_PERIOD) as int))
    }
}

/// The celebration shows a pose exactly while it is not finished, and the
/// pose changes exactly every three ticks — fifteen steps in all, the last
/// one looping back to the first pose.
pub proof fn lemma_flip_poses(t: u16)
    ensures
        flip_pose_at(t) is Some <==> t < FLIP_FRAMES * FLIP_PERIOD,
        t + 1 < FLIP_FRAMES * FLIP_PERIOD ==> (flip_pose_at(t) != flip_pose_at((t + 1) as u16)
            <==> (t + 1) % (FLIP_PERIOD as int) == 0),
{
}

/// The success celebration: the 15-step backflip that plays in the two HUD
/// flip-boxes, one pose every three ticks, while the rescued man rides in
/// the wagon.
#[derive(Clone, Copy)]
pub struct Flip {
    /// Ticks elapsed since the celebration began.
    pub tick: u16,
}

impl Flip {
    pub fn new() -> (f: Self)
        ensures
            f.tick == 0,
    {
        Flip { tick: 0 }
    }

    pub fn advance(&mut self)
        requires
            old(self).tick < u16::MAX,
        ensures
            final(self).tick == old(self).tick + 1,
    {
        self.tick = self.tick + 1;
    }

    pub fn finished(&self) -> (b: bool)
        ensures
            b == (self.tick >= FLIP_FRAMES * FLIP_PERIOD),
    {
        self.tick >= FLIP_FRAMES * FLIP_PERIOD
    }

    /// The current backflip pose, or `None` once the celebration is spent
    /// (only the man-in-wagon remains).
    pub fn pose(&self) -> (p: Option<Sprite>)
        ensures
            p == flip_pose_at(self.tick),
    {
        if self.finished() {
            return None;
        }
        let i = self.tick / FLIP_PERIOD;
        let s = if i == 0 {
            Sprite::Flip01
        } else if i == 1 {
            Sprite::Flip02
        } else if i == 2 {
            Sprite::Flip03
        } else if i == 3 {
            Sprite::Flip04
        } else if i == 4 {
            Sprite::Flip05
        } else if i == 5 {
            Sprite::Flip06
        } else if i == 6 {
            Sprite::Flip07
        } else if i == 7 {
            Sprite::Flip08
        } else if i == 8 {
            Sprite::Flip09
        } else if i == 9 {
            Sprite::Flip10
        } else if i == 10 {
            Sprite::Flip11
        } else if i == 11 {
            Sprite::Flip12
        } else if i == 12 {
            Sprite::Flip13
        } else if i == 13 {
            Sprite::Flip14
        } else {
            Sprite::Flip01
        };
        Some(s)
    }
}

impl Default for Flip {
    fn default() -> (f: Self)
        ensures
            f.tick == 0,
    {
        Flip::new()
    }
}

/// Crumple frames of a failed drop.
pub const SPLAT_FRAMES: u16 = 6;
/// Ticks each crumple frame is held.
pub const SPLAT_PERIOD: u16 = 2;

/// What a crash shows after `t` ticks: a crumple frame per two ticks for six
/// frames, then nothing (only the wreck remains).
pub open spec fn splat_pose_at(t: u16) -> Option<Sprite> {
    let i = t / SPLAT_PERIOD;
    if i == 0 {
        Some(Sprite::ManSplat1)
    } else if i == 1 {
        Some(Sprite::ManSplat2)
    } else if i == 2 {
        Some(Sprite::ManSplat3)
    } else if i == 3 {
        Some(Sprite::ManSplat4)
    } else if i == 4 {
        Some(Sprite::ManSplat5)
    } else if i == 5 {
        Some(Sprite::ManSplat6)
    } else {
        None
    }
}

/// A crash shows a crumple frame exactly while it is not finished, then only
/// the wreck.
pub proof fn lemma_splat_poses(t: u16)
    ensures
        splat_pose_at(t) is Some <==> t < SPLAT_FRAMES * SPLAT_PERIOD,
{
}

/// A failed drop: the six-frame crumple at the point of impact, after which
/// the wreck tableau (a dead driver or horse) is left in place.
#[derive(Clone, Copy)]
pub struct Splat {
    pub wreck: Wreck,
    pub x: i32,
    /// Ticks elapsed since the crash began.
    pub tick: u16,
}

impl Splat {
    pub fn new(wreck: Wreck, x: i32) -> (s: Self)
        ensures
            s.wreck == wreck,
            s.x == x,
            s.tick == 0,
    {
        Splat { wreck, x, tick: 0 }
    }

    pub fn advance(&mut self)
        requires
            old(self).tick < u16::MAX,
        ensures
            final(self).tick == old(self).tick + 1,
            final(self).wreck == old(self).wreck,
            final(self).x == old(self).x,
    {
        self.tick = self.tick + 1;
    }

    pub fn finished(&self) -> (b: bool)
        ensures
            b == (self.tick >= SPLAT_FRAMES * SPLAT_PERIOD),
    {
        self.tick >= SPLAT_FRAMES * SPLAT_PERIOD
    }

    /// The current crumple frame, or `None` once the man has come apart and
    /// only the wreck remains.
    pub fn pose(&self) -> (p: Option<Sprite>)
        ensures
            p == splat_pose_at(self.tick),
    {
        let i = self.tick / SPLAT_PERIOD;
        if i == 0 {
            Some(Sprite::ManSplat1)
        } else if i == 1 {
            Some(Sprite::ManSplat2)
        } else if i == 2 {
            Some(Sprite::ManSplat3)
        } else if i == 3 {
            Some(Sprite::ManSplat4)
        } else if i == 4 {
            Some(Sprite::ManSplat5)
        } else if i == 5 {
            Some(Sprite::ManSplat6)
        } else {
            None
        }
    }
}

/// The man's state over one drop.
#[derive(Clone, Copy)]
pub enum Stuntman {
    Hanging,
    Falling(Faller),
    Celebrating(Flip),
    Crashing(Splat),
}

impl Default for Stuntman {
    fn default() -> (s: Self)
        ensures
            s is Hanging,
    {
        Stuntman::Hanging
    }
}

} // verus!
