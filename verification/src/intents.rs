//! Player intents — the simulation's device-agnostic input: what the player
//! asks for on a given tick, decoupled from how it was expressed (mouse,
//! keyboard, touch).
use vstd::prelude::*;
use crate::geom::Vel;

verus! {

/// What the player is asking for this tick.
#[derive(Clone, Copy)]
pub struct Intents {
    /// Requested copter velocity, px/tick. The copter accelerates toward this;
    /// it is not applied directly.
    pub req: Vel,
    /// Edge-triggered: the player pressed drop this tick.
    pub drop: bool,
}

impl Default for Intents {
    fn default() -> (i: Self)
        ensures
            i.req.dh == 0 && i.req.dv == 0,
            !i.drop,
    {
        Intents { req: Vel { dh: 0, dv: 0 }, drop: false }
    }
}

} // verus!
