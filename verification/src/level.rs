//! Level progression: the current level and its derived difficulty — wagon
//! speed and gravity — as bounded newtypes, so the ramp can only advance the
//! one faithful way.
use vstd::prelude::*;
use crate::score::Level;

verus! {

/// Wagon speed, px/tick, `1..=3` (WALK / TROT / GALLOP).
#[derive(Clone, Copy, PartialEq, Eq)]
pub struct WagonSpeed(i32);

/// Gravity, px/tick of fall, `1..=4` (OH BOY / FLYING / NORMAL / HEAVY).
/// Higher means a faster fall and easier timing, so it decreases at later
/// levels.
#[derive(Clone, Copy, PartialEq, Eq)]
pub struct Gravity(i32);

/// The fastest wagon speed.
pub const WAGON_SPEED_MAX: i32 = 3;
/// The heaviest (starting) gravity.
pub const GRAVITY_MAX: i32 = 4;

/// The word the HUD shows for a wagon speed.
pub open spec fn wagon_word(px: i32) -> Seq<char> {
    if px == 1 {
        "WALK"@
    } else if px == 2 {
        "TROT"@
    } else {
        "GALLOP"@
    }
}

/// The word the HUD shows for a gravity.
pub open spec fn gravity_word(px: i32) -> Seq<char> {
    if px == 1 {
        "OH BOY"@
    } else if px == 2 {
        "FLYING"@
    } else if px == 3 {
        "NORMAL"@
    } else {
        "HEAVY"@
    }
}

impl WagonSpeed {
    #[verifier::type_invariant]
    spec fn in_range(self) -> bool {
        1 <= self.0 <= WAGON_SPEED_MAX
    }

    /// The speed in px/tick.
    pub closed spec fn value(self) -> i32 {
        self.0
    }

    pub fn px(self) -> (v: i32)
        ensures
            v == self.value(),
            1 <= v <= WAGON_SPEED_MAX,
    {
        proof {
            use_type_invariant(self);
        }
        self.0
    }

    pub fn word(self) -> (w: &'static str)
        ensures
            w@ == wagon_word(self.value()),
    {
        if self.0 == 1 {
            "WALK"
        } else if self.0 == 2 {
            "TROT"
        } else {
            "GALLOP"
        }
    }
}

impl Gravity {
    #[verifier::type_invariant]
    spec fn in_range(self) -> bool {
        1 <= self.0 <= GRAVITY_MAX
    }

    /// The fall speed in px/tick.
    pub closed spec fn value(self) -> i32 {
        self.0
    }

    pub fn px(self) -> (v: i32)
        ensures
            v == self.value(),
            1 <= v <= GRAVITY_MAX,
    {
        proof {
            use_type_invariant(self);
        }
        self.0
    }

    pub fn word(self) -> (w: &'static str)
        ensures
            w@ == gravity_word(self.value()),
    {
        if self.0 == 1 {
            "OH BOY"
        } else if self.0 == 2 {
            "FLYING"
        } else if self.0 == 3 {
            "NORMAL"
        } else {
            "HEAVY"
        }
    }
}

/// The wagon speed after a level-up: one faster, up to the maximum.
pub open spec fn next_wagon(wagon: i32) -> int {
    if wagon < WAGON_SPEED_MAX {
        wagon + 1
    } else {
        wagon as int
    }
}

/// The gravity after a level-up. It eases only once the wagon was already at
/// full speed before this level-up, and never below 1.
pub open spec fn next_gravity(wagon: i32, gravity: i32) -> int {
    if wagon == WAGON_SPEED_MAX && gravity > 1 {
        gravity - 1
    } else {
        gravity as int
    }
}

#[derive(Clone, Copy)]
pub struct Progression {
    pub level: Level,
    pub wagon: WagonSpeed,
    pub gravity: Gravity,
}

impl Default for Progression {
    fn default() -> (p: Self)
        ensures
            p == Progression::initial(),
            p.level.0 == 1,
            p.wagon.value() == 1,
            p.gravity.value() == GRAVITY_MAX,
    {
        Progression { level: Level(1), wagon: WagonSpeed(1), gravity: Gravity(GRAVITY_MAX) }
    }
}

impl Progression {
    /// The progression a game starts at: level 1, walking wagon, heavy gravity.
    pub closed spec fn initial() -> Progression {
        Progression { level: Level(1), wagon: WagonSpeed(1), gravity: Gravity(GRAVITY_MAX) }
    }

    /// The starting level, wagon speed and gravity.
    pub proof fn lemma_initial()
        ensures
            Progression::initial().level.0 == 1,
            Progression::initial().wagon.value() == 1,
            Progression::initial().gravity.value() == GRAVITY_MAX,
    {
    }

    /// The progression one level up.
    pub closed spec fn after_level_up(self) -> Progression {
        Progression {
            level: Level((self.level.0 + 1) as i32),
            wagon: WagonSpeed(next_wagon(self.wagon.0) as i32),
            gravity: Gravity(next_gravity(self.wagon.0, self.gravity.0) as i32),
        }
    }

    /// What a level-up changes: the level goes up by one, the wagon speeds
    /// up to its maximum, and only then does gravity ease, down to 1.
    pub proof fn lemma_after_level_up(self)
        requires
            self.level.0 < i32::MAX,
        ensures
            self.after_level_up().level.0 == self.level.0 + 1,
            self.after_level_up().wagon.value() == next_wagon(self.wagon.value()),
            self.after_level_up().gravity.value() == next_gravity(
                self.wagon.value(),
                self.gravity.value(),
            ),
    {
    }

    /// The progression after `k` level-ups from the start of a game.
    pub open spec fn ramp(k: nat) -> Progression
        decreases k,
    {
        if k == 0 {
            Progression::initial()
        } else {
            Progression::ramp((k - 1) as nat).after_level_up()
        }
    }

    /// The difficulty ramp: after `k` level-ups the game is at level `1 + k`,
    /// the wagon speeds up one step per level to its maximum of 3, and from
    /// the third level-up on gravity eases one step per level down to 1.
    pub proof fn lemma_ramp(k: nat)
        requires
            k < i32::MAX,
        ensures
            Progression::ramp(k).level.0 == 1 + k,
            Progression::ramp(k).wagon.value() == if k < 2 {
                1 + k as int
            } else {
                WAGON_SPEED_MAX as int
            },
            Progression::ramp(k).gravity.value() == if k <= 2 {
                GRAVITY_MAX as int
            } else if k >= 5 {
                1
            } else {
                GRAVITY_MAX - (k - 2)
            },
        decreases k,
    {
        if k > 0 {
            Progression::lemma_ramp((k - 1) as nat);
            Progression::ramp((k - 1) as nat).lemma_after_level_up();
        }
    }

    /// Advance one level. The order is load-bearing: gravity only eases after
    /// wagon speed has already reached its maximum on a previous level, since
    /// the guard reads the wagon speed before it is raised.
    pub fn level_up(&mut self)
        requires
            old(self).level.0 < i32::MAX,
        ensures
            *final(self) == old(self).after_level_up(),
            final(self).level.0 == old(self).level.0 + 1,
            final(self).wagon.value() == next_wagon(old(self).wagon.value()),
            final(self).gravity.value() == next_gravity(
                old(self).wagon.value(),
                old(self).gravity.value(),
            ),
    {
        proof {
            use_type_invariant(self.wagon);
            use_type_invariant(self.gravity);
        }
        self.level = self.level.next();
        if self.wagon.0 == WAGON_SPEED_MAX && self.gravity.0 > 1 {
            self.gravity = Gravity(self.gravity.0 - 1);
        }
        if self.wagon.0 < WAGON_SPEED_MAX {
            self.wagon = WagonSpeed(self.wagon.0 + 1);
        }
    }
}

} // verus!
