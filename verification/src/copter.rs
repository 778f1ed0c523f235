//! The player's copter: position, velocity and rotor animation, with an
//! inertia model: the copter accelerates one pixel/tick toward the
//! requested velocity, so reversing direction takes several ticks. It
//! wraps around horizontally and is held inside a vertical flight band.
use vstd::prelude::*;
use crate::config::{COPTER_BOTTOM_LIMIT, COPTER_H, COPTER_START_X, COPTER_START_Y, COPTER_W, LOGICAL_W};
use crate::geom::{fits_i32, Pos, Vel};
use crate::sprite::Sprite;

verus! {

/// The copter wraps to the left edge once it drifts past this x.
pub const WRAP_RIGHT: i32 = 510;
/// The copter wraps to the right edge once it drifts before this x.
pub const WRAP_LEFT: i32 = -76;
/// Highest the copter may climb.
pub const TOP_LIMIT: i32 = -4;

/// One step of `v` toward `r`: velocity changes by at most one pixel per tick.
pub open spec fn step_toward(v: i32, r: i32) -> int {
    if r > v {
        v + 1
    } else if r < v {
        v - 1
    } else {
        v as int
    }
}

/// Horizontal wrap: past the right limit it reappears off the left edge,
/// before the left limit it reappears at the right edge.
pub open spec fn confine_x(x: int) -> int {
    if x > WRAP_RIGHT {
        -COPTER_W
    } else if x < WRAP_LEFT {
        LOGICAL_W - 2
    } else {
        x
    }
}

/// Vertical clamp to the flight band `TOP_LIMIT..=COPTER_BOTTOM_LIMIT - COPTER_H`.
pub open spec fn confine_y(y: int) -> int {
    if y < TOP_LIMIT {
        TOP_LIMIT as int
    } else if y + COPTER_H > COPTER_BOTTOM_LIMIT {
        COPTER_BOTTOM_LIMIT - COPTER_H
    } else {
        y
    }
}

/// The rotor sprite for animation frame `f`.
pub open spec fn rotor_sprite(f: u8) -> Sprite {
    if f == 0 {
        Sprite::Copter1
    } else if f == 1 {
        Sprite::Copter2
    } else {
        Sprite::Copter3
    }
}

pub struct Copter {
    /// Top-left position, logical pixels.
    pub pos: Pos,
    /// Current velocity, px/tick.
    pub vel: Vel,
    /// Rotor animation frame, `0..3`.
    pub frame: u8,
}

impl Copter {
    /// The rotor frame is always one of the three.
    pub open spec fn wf(self) -> bool {
        self.frame < 3
    }

    /// The velocity after one tick toward `req`.
    pub open spec fn next_vel(self, req: Vel) -> Vel {
        Vel {
            dh: step_toward(self.vel.dh, req.dh) as i32,
            dv: step_toward(self.vel.dv, req.dv) as i32,
        }
    }

    /// Whether `tick(req)` stays inside `i32` arithmetic: the gap to the
    /// request, the moved position, and the band check all fit.
    pub open spec fn tick_ok(self, req: Vel) -> bool {
        &&& fits_i32(req.dh - self.vel.dh)
        &&& fits_i32(req.dv - self.vel.dv)
        &&& fits_i32(self.pos.x + self.next_vel(req).dh)
        &&& fits_i32(self.pos.y + self.next_vel(req).dv)
        &&& fits_i32(self.pos.y + self.next_vel(req).dv + COPTER_H)
    }

    /// The copter after one tick toward `req`: accelerate one step, move,
    /// wrap/clamp, and advance the rotor.
    pub open spec fn after_tick(self, req: Vel) -> Copter {
        let v = self.next_vel(req);
        Copter {
            pos: Pos {
                x: confine_x(self.pos.x + v.dh) as i32,
                y: confine_y(self.pos.y + v.dv) as i32,
            },
            vel: v,
            frame: ((self.frame + 1) % 3) as u8,
        }
    }

    /// The copter with its rotor advanced one frame and nothing else changed.
    pub open spec fn after_animate(self) -> Copter {
        Copter { pos: self.pos, vel: self.vel, frame: ((self.frame + 1) % 3) as u8 }
    }

    /// Advance one tick toward the requested velocity, then move and confine.
    pub fn tick(&mut self, req: Vel)
        requires
            old(self).wf(),
            old(self).tick_ok(req),
        ensures
            *final(self) == old(self).after_tick(req),
            final(self).wf(),
    {
        self.vel.dh = self.vel.dh + signum(req.dh - self.vel.dh);
        self.vel.dv = self.vel.dv + signum(req.dv - self.vel.dv);
        self.pos = self.pos + self.vel;
        self.confine();
        self.frame = (self.frame + 1) % 3;
    }

    /// Wrap horizontally at the far edges; clamp vertically to the flight band.
    fn confine(&mut self)
        requires
            fits_i32(old(self).pos.y + COPTER_H),
        ensures
            final(self).pos.x == confine_x(old(self).pos.x as int),
            final(self).pos.y == confine_y(old(self).pos.y as int),
            final(self).vel == old(self).vel,
            final(self).frame == old(self).frame,
    {
        if self.pos.x > WRAP_RIGHT {
            self.pos.x = -COPTER_W;
        } else if self.pos.x < WRAP_LEFT {
            self.pos.x = LOGICAL_W - 2;
        }
        if self.pos.y < TOP_LIMIT {
            self.pos.y = TOP_LIMIT;
        } else if self.pos.y + COPTER_H > COPTER_BOTTOM_LIMIT {
            self.pos.y = COPTER_BOTTOM_LIMIT - COPTER_H;
        }
    }

    /// Advance the rotor animation without moving (attract-screen idle).
    pub fn animate(&mut self)
        requires
            old(self).wf(),
        ensures
            *final(self) == old(self).after_animate(),
            final(self).wf(),
    {
        self.frame = (self.frame + 1) % 3;
    }

    /// Current velocity (px/tick), for the HUD yoke indicator.
    pub fn velocity(&self) -> (v: Vel)
        ensures
            v == self.vel,
    {
        self.vel
    }

    /// Current rotor sprite.
    pub fn sprite(&self) -> (s: Sprite)
        ensures
            s == rotor_sprite(self.frame),
    {
        match self.frame {
            0 => Sprite::Copter1,
            1 => Sprite::Copter2,
            _ => Sprite::Copter3,
        }
    }
}

/// Inertia, wrap and the flight band, for every copter and request: each
/// tick the velocity moves one pixel per axis toward the request (never past
/// it); the copter then moves by the new velocity to `(x0, y0)`, wraps to
/// `-COPTER_W` past `WRAP_RIGHT` and to `LOGICAL_W - 2` before `WRAP_LEFT`,
/// and is clamped to `TOP_LIMIT..=COPTER_BOTTOM_LIMIT - COPTER_H`; so it
/// always ends inside `WRAP_LEFT..=WRAP_RIGHT` x that band.
pub proof fn lemma_inertia_and_band(c: Copter, req: Vel)
    ensures
        ({
            let n = c.after_tick(req);
            let x0 = c.pos.x + n.vel.dh;
            let y0 = c.pos.y + n.vel.dv;
            &&& -1 <= n.vel.dh - c.vel.dh <= 1
            &&& -1 <= n.vel.dv - c.vel.dv <= 1
            &&& (c.vel.dh <= req.dh ==> c.vel.dh <= n.vel.dh <= req.dh)
            &&& (c.vel.dh >= req.dh ==> req.dh <= n.vel.dh <= c.vel.dh)
            &&& (c.vel.dv <= req.dv ==> c.vel.dv <= n.vel.dv <= req.dv)
            &&& (c.vel.dv >= req.dv ==> req.dv <= n.vel.dv <= c.vel.dv)
            &&& n.pos.x == if x0 > WRAP_RIGHT {
                -COPTER_W
            } else if x0 < WRAP_LEFT {
                LOGICAL_W - 2
            } else {
                x0
            }
            &&& n.pos.y == if y0 < TOP_LIMIT {
                TOP_LIMIT as int
            } else if y0 > COPTER_BOTTOM_LIMIT - COPTER_H {
                COPTER_BOTTOM_LIMIT - COPTER_H
            } else {
                y0
            }
            &&& WRAP_LEFT <= n.pos.x <= WRAP_RIGHT
            &&& TOP_LIMIT <= n.pos.y <= COPTER_BOTTOM_LIMIT - COPTER_H
        }),
{
}

/// The sign of `x`: -1, 0 or 1.
fn signum(x: i32) -> (s: i32)
    ensures
        s == if x > 0 { 1int } else if x < 0 { -1int } else { 0int },
{
    if x > 0 {
        1
    } else if x < 0 {
        -1
    } else {
        0
    }
}

impl Default for Copter {
    fn default() -> (c: Self)
        ensures
            c.pos.x == COPTER_START_X,
            c.pos.y == COPTER_START_Y,
            c.vel.dh == 0 && c.vel.dv == 0,
            c.frame == 0,
    {
        Copter {
            pos: Pos { x: COPTER_START_X, y: COPTER_START_Y },
            vel: Vel { dh: 0, dv: 0 },
            frame: 0,
        }
    }
}

} // verus!
