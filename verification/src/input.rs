//! Input rules: how held steering keys become a requested copter velocity.
//! Sampling the real devices is the presentation layer's job; this decides
//! only what the player asked for.
use vstd::prelude::*;
use crate::config::{DELTA_MAX_DH, DELTA_MAX_DV, DELTA_MIN_DH, DELTA_MIN_DV};
use crate::geom::Vel;

verus! {

/// The held steering keys.
#[derive(Clone, Copy)]
pub struct SteerKeys {
    pub left: bool,
    pub right: bool,
    pub up: bool,
    pub down: bool,
}

/// Full-deflection keyboard steering: each held direction asks for the
/// extreme of the velocity range on its axis (right over left, down over up
/// when both are held); `None` when no steer key is held.
pub open spec fn keyboard_steer_spec(k: SteerKeys) -> Option<Vel> {
    if k.left || k.right || k.up || k.down {
        Some(
            Vel {
                dh: if k.right {
                    DELTA_MAX_DH
                } else if k.left {
                    DELTA_MIN_DH
                } else {
                    0
                },
                dv: if k.down {
                    DELTA_MAX_DV
                } else if k.up {
                    DELTA_MIN_DV
                } else {
                    0
                },
            },
        )
    } else {
        None
    }
}

/// Full-deflection steering from the keyboard, or `None` if no steer key is held.
pub fn keyboard_steer(keys: SteerKeys) -> (r: Option<Vel>)
    ensures
        r == keyboard_steer_spec(keys),
        r matches Some(v) ==> DELTA_MIN_DH <= v.dh <= DELTA_MAX_DH && DELTA_MIN_DV <= v.dv
            <= DELTA_MAX_DV,
{
    let mut dir_h: i32 = 0;
    let mut dir_v: i32 = 0;
    let mut active = false;
    if keys.left {
        dir_h = DELTA_MIN_DH;
        active = true;
    }
    if keys.right {
        dir_h = DELTA_MAX_DH;
        active = true;
    }
    if keys.up {
        dir_v = DELTA_MIN_DV;
        active = true;
    }
    if keys.down {
        dir_v = DELTA_MAX_DV;
        active = true;
    }
    if active {
        Some(Vel { dh: dir_h, dv: dir_v })
    } else {
        None
    }
}

/// Holding any steer key steers the copter, and holding none leaves it to
/// the pointer. Each held direction asks for full deflection on its axis:
/// right (over left) for the largest rightward speed, left alone for the
/// largest leftward, down (over up) for the fastest descent, up alone for
/// the fastest climb; an axis with no key held asks for 0.
pub proof fn lemma_held_keys_steer(k: SteerKeys)
    ensures
        (k.left || k.right || k.up || k.down) <==> keyboard_steer_spec(k) is Some,
        keyboard_steer_spec(k) matches Some(v) ==> {
            &&& (k.right ==> v.dh == DELTA_MAX_DH)
            &&& (k.left && !k.right ==> v.dh == DELTA_MIN_DH)
            &&& (!k.left && !k.right ==> v.dh == 0)
            &&& (k.down ==> v.dv == DELTA_MAX_DV)
            &&& (k.up && !k.down ==> v.dv == DELTA_MIN_DV)
            &&& (!k.up && !k.down ==> v.dv == 0)
        },
{
}

/// A requested velocity held inside the control box.
pub fn clamp_request(req: Vel) -> (v: Vel)
    ensures
        v.dh == if req.dh < DELTA_MIN_DH {
            DELTA_MIN_DH
        } else if req.dh > DELTA_MAX_DH {
            DELTA_MAX_DH
        } else {
            req.dh
        },
        v.dv == if req.dv < DELTA_MIN_DV {
            DELTA_MIN_DV
        } else if req.dv > DELTA_MAX_DV {
            DELTA_MAX_DV
        } else {
            req.dv
        },
{
    let dh = if req.dh < DELTA_MIN_DH {
        DELTA_MIN_DH
    } else if req.dh > DELTA_MAX_DH {
        DELTA_MAX_DH
    } else {
        req.dh
    };
    let dv = if req.dv < DELTA_MIN_DV {
        DELTA_MIN_DV
    } else if req.dv > DELTA_MAX_DV {
        DELTA_MAX_DV
    } else {
        req.dv
    };
    Vel { dh, dv }
}

} // verus!
