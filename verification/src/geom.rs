//! Playfield geometry: positions, velocities, and rectangles in playfield
//! pixels (origin top-left, y down).
//!
//! `Pos - Pos` is a [`Vel`] (a displacement), `Pos + Vel` is a `Pos`, and
//! `Vel + Vel` is a `Vel`; adding two positions is meaningless and is not
//! provided.
use vstd::prelude::*;
use vstd::std_specs::ops::{AddSpec, SubSpec};

verus! {

/// A position in playfield pixels — origin top-left, y-down.
#[derive(Clone, Copy, PartialEq, Eq, Structural, Debug)]
pub struct Pos {
    pub x: i32,
    pub y: i32,
}

/// A velocity or displacement in playfield pixels (per tick, where it is a rate).
#[derive(Clone, Copy, PartialEq, Eq, Structural, Debug)]
pub struct Vel {
    pub dh: i32,
    pub dv: i32,
}

impl Pos {
    pub fn new(x: i32, y: i32) -> (p: Self)
        ensures
            p.x == x,
            p.y == y,
    {
        Pos { x, y }
    }
}

impl Vel {
    pub fn new(dh: i32, dv: i32) -> (v: Self)
        ensures
            v.dh == dh,
            v.dv == dv,
    {
        Vel { dh, dv }
    }
}

/// Whether `v` fits in an `i32`.
pub open spec fn fits_i32(v: int) -> bool {
    i32::MIN <= v <= i32::MAX
}

impl Default for Pos {
    fn default() -> (p: Self)
        ensures
            p.x == 0 && p.y == 0,
    {
        Pos { x: 0, y: 0 }
    }
}

impl Default for Vel {
    fn default() -> (v: Self)
        ensures
            v.dh == 0 && v.dv == 0,
    {
        Vel { dh: 0, dv: 0 }
    }
}

/// `Pos + Vel` moves the position.
impl std::ops::Add<Vel> for Pos {
    type Output = Pos;

    fn add(self, v: Vel) -> (r: Pos) {
        Pos { x: self.x + v.dh, y: self.y + v.dv }
    }
}

impl vstd::std_specs::ops::AddSpecImpl<Vel> for Pos {
    open spec fn obeys_add_spec() -> bool {
        true
    }

    open spec fn add_req(self, v: Vel) -> bool {
        fits_i32(self.x + v.dh) && fits_i32(self.y + v.dv)
    }

    open spec fn add_spec(self, v: Vel) -> Pos {
        Pos { x: (self.x + v.dh) as i32, y: (self.y + v.dv) as i32 }
    }
}

/// `Pos - Pos` is the displacement between them.
impl std::ops::Sub for Pos {
    type Output = Vel;

    fn sub(self, o: Pos) -> (r: Vel) {
        Vel { dh: self.x - o.x, dv: self.y - o.y }
    }
}

impl vstd::std_specs::ops::SubSpecImpl for Pos {
    open spec fn obeys_sub_spec() -> bool {
        true
    }

    open spec fn sub_req(self, o: Pos) -> bool {
        fits_i32(self.x - o.x) && fits_i32(self.y - o.y)
    }

    open spec fn sub_spec(self, o: Pos) -> Vel {
        Vel { dh: (self.x - o.x) as i32, dv: (self.y - o.y) as i32 }
    }
}

/// `Vel + Vel` composes displacements.
impl std::ops::Add for Vel {
    type Output = Vel;

    fn add(self, o: Vel) -> (r: Vel) {
        Vel { dh: self.dh + o.dh, dv: self.dv + o.dv }
    }
}

impl vstd::std_specs::ops::AddSpecImpl for Vel {
    open spec fn obeys_add_spec() -> bool {
        true
    }

    open spec fn add_req(self, o: Vel) -> bool {
        fits_i32(self.dh + o.dh) && fits_i32(self.dv + o.dv)
    }

    open spec fn add_spec(self, o: Vel) -> Vel {
        Vel { dh: (self.dh + o.dh) as i32, dv: (self.dv + o.dv) as i32 }
    }
}

/// Moving a position by the displacement to another lands on it:
/// `p + (q - p) == q`.
pub proof fn lemma_displacement(p: Pos, q: Pos)
    requires
        q.sub_req(p),
    ensures
        p.add_req(q.sub_spec(p)),
        p.add_spec(q.sub_spec(p)) == q,
{
}

/// An inclusive range of requested velocities — the corners of the control
/// box the input maps a stick or pointer into. Named fields keep the
/// asymmetric vertical range from being transposed.
#[derive(Clone, Copy, PartialEq, Eq, Structural, Debug)]
pub struct VelRange {
    pub min: Vel,
    pub max: Vel,
}

impl VelRange {
    pub fn new(min: Vel, max: Vel) -> (r: Self)
        ensures
            r.min == min,
            r.max == max,
    {
        VelRange { min, max }
    }
}

/// An axis-aligned rectangle in playfield pixels — a layout box (`(x, y)`
/// top-left, `w` x `h`).
#[derive(Clone, Copy, PartialEq, Eq, Structural, Debug)]
pub struct Rect {
    pub x: i32,
    pub y: i32,
    pub w: i32,
    pub h: i32,
}

impl Rect {
    pub fn new(x: i32, y: i32, w: i32, h: i32) -> (r: Self)
        ensures
            r.x == x && r.y == y && r.w == w && r.h == h,
    {
        Rect { x, y, w, h }
    }
}

} // verus!
