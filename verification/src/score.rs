//! Scoring values: distinct newtypes for the quantities the scoring rule
//! combines, so the one formula that matters — points = level x height of the
//! drop, accumulated into the score — cannot be written with the operands
//! transposed. Only `Level * Height -> Points` and `Score + Points` are
//! defined.
use vstd::prelude::*;

verus! {

/// A running or final score, points accumulated over a game.
#[derive(Clone, Copy, PartialEq, Eq, Structural, Debug)]
pub struct Score(pub i32);

/// Points gained from a single drop (0 unless it landed).
#[derive(Clone, Copy, PartialEq, Eq, Structural, Debug)]
pub struct Points(pub i32);

/// The current level, `1..`. Higher levels multiply the points per landing.
#[derive(Clone, Copy, PartialEq, Eq, Structural, Debug)]
pub struct Level(pub i32);

/// A drop height in pixels — how far the man fell, which scores the landing.
#[derive(Clone, Copy, PartialEq, Eq, Structural, Debug)]
pub struct Height(pub i32);

impl Score {
    pub fn new(v: i32) -> (s: Self)
        ensures
            s.0 == v,
    {
        Score(v)
    }

    /// The raw value.
    pub fn get(self) -> (v: i32)
        ensures
            v == self.0,
    {
        self.0
    }

    /// The score after gaining `p` points.
    pub fn plus(self, p: Points) -> (s: Score)
        requires
            i32::MIN <= self.0 + p.0 <= i32::MAX,
        ensures
            s.0 == self.0 + p.0,
    {
        Score(self.0 + p.0)
    }

    /// The larger of two scores (the running high score).
    pub fn max(self, other: Score) -> (s: Score)
        ensures
            s.0 == if self.0 >= other.0 { self.0 } else { other.0 },
    {
        if self.0 >= other.0 {
            self
        } else {
            other
        }
    }
}

impl Points {
    pub fn new(v: i32) -> (p: Self)
        ensures
            p.0 == v,
    {
        Points(v)
    }

    pub fn get(self) -> (v: i32)
        ensures
            v == self.0,
    {
        self.0
    }
}

impl Level {
    pub fn new(v: i32) -> (l: Self)
        ensures
            l.0 == v,
    {
        Level(v)
    }

    pub fn get(self) -> (v: i32)
        ensures
            v == self.0,
    {
        self.0
    }

    /// The starting level.
    pub fn one() -> (l: Self)
        ensures
            l.0 == 1,
    {
        Level(1)
    }

    /// The next level up.
    pub fn next(self) -> (l: Self)
        requires
            self.0 < i32::MAX,
        ensures
            l.0 == self.0 + 1,
    {
        Level(self.0 + 1)
    }
}

impl Height {
    pub fn new(v: i32) -> (h: Self)
        ensures
            h.0 == v,
    {
        Height(v)
    }

    pub fn get(self) -> (v: i32)
        ensures
            v == self.0,
    {
        self.0
    }
}

/// `Level * Height` is the points a landing from that height scores.
impl std::ops::Mul<Height> for Level {
    type Output = Points;

    fn mul(self, h: Height) -> (p: Points) {
        Points(self.0 * h.0)
    }
}

impl vstd::std_specs::ops::MulSpecImpl<Height> for Level {
    open spec fn obeys_mul_spec() -> bool {
        true
    }

    open spec fn mul_req(self, h: Height) -> bool {
        i32::MIN <= self.0 * h.0 <= i32::MAX
    }

    open spec fn mul_spec(self, h: Height) -> Points {
        Points((self.0 * h.0) as i32)
    }
}

} // verus!
