//! Game constants: the playfield, sprite cells, speeds, and layout of the
//! classic 512x342 Macintosh screen, kept in one place so the ruleset is easy
//! to audit and calibrate.
use vstd::prelude::*;

verus! {

/// Logical playfield width — the classic 512-pixel Macintosh screen.
pub const LOGICAL_W: i32 = 512;
/// Logical playfield height — the classic Macintosh screen.
pub const LOGICAL_H: i32 = 342;

/// Requested-velocity range, px/tick: horizontal `MIN_DH..=MAX_DH`, vertical
/// `MIN_DV..=MAX_DV`. The vertical range is asymmetric.
pub const DELTA_MIN_DH: i32 = -4;
pub const DELTA_MIN_DV: i32 = -3;
pub const DELTA_MAX_DH: i32 = 4;
pub const DELTA_MAX_DV: i32 = 4;

/// Copter sprite size in pixels.
pub const COPTER_W: i32 = 74;
pub const COPTER_H: i32 = 26;
/// Copter spawn position (top-left).
pub const COPTER_START_X: i32 = 212;
pub const COPTER_START_Y: i32 = 110;

/// Wagon sprite size in pixels.
pub const WAGON_W: i32 = 73;
pub const WAGON_H: i32 = 22;
/// Slowest wagon speed (level 1), px/tick.
pub const WAGON_SPEED_START: i32 = 1;

/// Fastest fall (level 1), px/tick.
pub const GRAVITY_START: i32 = 4;
/// Stuntman sprite cell.
pub const MAN_W: i32 = 14;
pub const MAN_H: i32 = 16;
/// The hanging man's offset from the copter's top-left.
pub const MAN_HANG_DH: i32 = 36;
pub const MAN_HANG_DV: i32 = 23;

/// Men per level; all must land to advance.
pub const MEN_PER_LEVEL: i32 = 5;

/// The ground line / wagon baseline.
pub const GROUND_Y: i32 = 285;
/// Top of the dark-gray HUD band.
pub const HUD_BAND_TOP: i32 = 286;
/// The copter may not descend below this bottom edge (ten pixels above the wagon).
pub const COPTER_BOTTOM_LIMIT: i32 = GROUND_Y - WAGON_H - 10;

/// The score panel: `(SB_X, SB_Y)` top-left, `SB_W` x `SB_H`.
pub const SB_X: i32 = 62;
pub const SB_Y: i32 = 289;
pub const SB_W: i32 = 387;
pub const SB_H: i32 = 51;

/// The hanging man's offset from the copter's top-left, as a displacement.
pub fn man_hang_offset() -> (v: crate::geom::Vel)
    ensures
        v.dh == MAN_HANG_DH,
        v.dv == MAN_HANG_DV,
{
    crate::geom::Vel::new(MAN_HANG_DH, MAN_HANG_DV)
}

/// The copter's spawn position.
pub fn copter_start() -> (p: crate::geom::Pos)
    ensures
        p.x == COPTER_START_X,
        p.y == COPTER_START_Y,
{
    crate::geom::Pos::new(COPTER_START_X, COPTER_START_Y)
}

} // verus!
