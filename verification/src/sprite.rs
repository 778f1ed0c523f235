//! The sprites the game draws, by name, and each sprite's cell size in
//! pixels. Where a sprite sits in the texture atlas is the renderer's concern;
//! the simulation only needs the sizes (a cloud's extent decides where wind
//! gusts blow).
use vstd::prelude::*;

verus! {

#[derive(Clone, Copy, PartialEq, Eq, Structural, Debug)]
pub enum Sprite {
    Copter1,
    Copter2,
    Copter3,
    Wagon1,
    Wagon2,
    Wagon3,
    CloudLeft,
    CloudBottom,
    CloudRight,
    ManHang,
    ManDrop1,
    ManDrop2,
    ManDrop3,
    ManDrop4,
    ManDrop5,
    ManThumbup,
    ManThumbdown,
    ManSplat1,
    ManSplat2,
    ManSplat3,
    ManSplat4,
    ManSplat5,
    ManSplat6,
    Flip01,
    Flip02,
    Flip03,
    Flip04,
    Flip05,
    Flip06,
    Flip07,
    Flip08,
    Flip09,
    Flip10,
    Flip11,
    Flip12,
    Flip13,
    Flip14,
    Num0,
    Num1,
    Num2,
    Num3,
    Num4,
    Num5,
    Num6,
    Num7,
    Num8,
    Num9,
    Cross,
    ManInWagon,
    Driver,
    HorseDead,
    Scorebox,
}

/// A sprite's cell size `(width, height)` in pixels.
pub open spec fn sprite_size(s: Sprite) -> (i32, i32) {
    match s {
        Sprite::Copter1 | Sprite::Copter2 | Sprite::Copter3 => (74, 26),
        Sprite::Wagon1 | Sprite::Wagon2 | Sprite::Wagon3 => (73, 22),
        Sprite::CloudLeft => (64, 24),
        Sprite::CloudBottom => (80, 20),
        Sprite::CloudRight => (56, 28),
        Sprite::Flip01 | Sprite::Flip02 | Sprite::Flip03 | Sprite::Flip04 | Sprite::Flip05
        | Sprite::Flip06 | Sprite::Flip07 | Sprite::Flip08 | Sprite::Flip09 | Sprite::Flip10
        | Sprite::Flip11 | Sprite::Flip12 | Sprite::Flip13 | Sprite::Flip14 => (32, 41),
        Sprite::Num0 | Sprite::Num1 | Sprite::Num2 | Sprite::Num3 | Sprite::Num4 | Sprite::Num5
        | Sprite::Num6 | Sprite::Num7 | Sprite::Num8 | Sprite::Num9 => (21, 15),
        Sprite::Cross => (81, 81),
        Sprite::ManInWagon => (28, 10),
        Sprite::Driver => (40, 22),
        Sprite::HorseDead => (29, 22),
        Sprite::Scorebox => (387, 51),
        _ => (14, 16),
    }
}

impl Sprite {
    /// Cell width in pixels.
    pub fn width(self) -> (w: i32)
        ensures
            w == sprite_size(self).0,
            0 < w <= 387,
    {
        self.size().0
    }

    /// Cell height in pixels.
    pub fn height(self) -> (h: i32)
        ensures
            h == sprite_size(self).1,
            0 < h <= 81,
    {
        self.size().1
    }

    /// Cell size `(width, height)` in pixels.
    pub fn size(self) -> (wh: (i32, i32))
        ensures
            wh == sprite_size(self),
    {
        match self {
            Sprite::Copter1 | Sprite::Copter2 | Sprite::Copter3 => (74, 26),
            Sprite::Wagon1 | Sprite::Wagon2 | Sprite::Wagon3 => (73, 22),
            Sprite::CloudLeft => (64, 24),
            Sprite::CloudBottom => (80, 20),
            Sprite::CloudRight => (56, 28),
            Sprite::Flip01 | Sprite::Flip02 | Sprite::Flip03 | Sprite::Flip04 | Sprite::Flip05
            | Sprite::Flip06 | Sprite::Flip07 | Sprite::Flip08 | Sprite::Flip09 | Sprite::Flip10
            | Sprite::Flip11 | Sprite::Flip12 | Sprite::Flip13 | Sprite::Flip14 => (32, 41),
            Sprite::Num0 | Sprite::Num1 | Sprite::Num2 | Sprite::Num3 | Sprite::Num4 | Sprite::Num5
            | Sprite::Num6 | Sprite::Num7 | Sprite::Num8 | Sprite::Num9 => (21, 15),
            Sprite::Cross => (81, 81),
            Sprite::ManInWagon => (28, 10),
            Sprite::Driver => (40, 22),
            Sprite::HorseDead => (29, 22),
            Sprite::Scorebox => (387, 51),
            _ => (14, 16),
        }
    }
}

} // verus!
