//! The game world: the simulation state and the single fixed-timestep `tick`
//! that advances it — the copter, wagon, cloud, and stuntman, plus score,
//! lives, and level progression. It drives the stuntman's state machine and
//! applies the outcomes of drops.
//!
//! Rendering, input sampling, and timing are the caller's job. `tick` is a
//! function of the world and the intents: [`World::after_tick`] is the state
//! it leaves and [`World::tick_events`] the events it reports.
use vstd::prelude::*;
use crate::cloud::Cloud;
use crate::config::{COPTER_BOTTOM_LIMIT, COPTER_H, GROUND_Y, MAN_H, MAN_HANG_DH, MAN_HANG_DV, MEN_PER_LEVEL, WAGON_H};
use crate::copter::Copter;
use crate::event::{Event, EventSink};
use crate::geom::{fits_i32, Pos};
use crate::intents::Intents;
use crate::copter::TOP_LIMIT;
use crate::level::{Progression, GRAVITY_MAX, WAGON_SPEED_MAX};
use crate::rng::{range_value, xorshift64, Rng};
use crate::score::{Height, Level, Points, Score};
use crate::stuntman::{classify, outcome_at, Faller, Flip, Outcome, Splat, Stuntman, Wreck};
use crate::wagon::Wagon;

verus! {

/// Ticks between cloud scroll steps: one pixel every three ticks.
pub const CLOUD_TICKS: u8 = 3;
/// How long the "LEVEL n" banner lingers after clearing a level.
pub const LEVEL_BANNER_TICKS: u16 = 60;
/// Ticks a celebration lasts (fifteen poses of three ticks).
pub const FLIP_TICKS: u16 = 45;
/// Ticks a crash lasts (six crumple frames of two ticks).
pub const SPLAT_TICKS: u16 = 12;
/// Wind gusts behind a cloud push the man `GUST_MIN..GUST_MAX` pixels sideways.
pub const GUST_MIN: i32 = -2;
pub const GUST_MAX: i32 = 3;
/// The faller lands once his bottom edge passes the top of the wagon.
pub const LANDING_Y: i32 = GROUND_Y - WAGON_H;

/// A pending stuntman transition, computed while advancing the stuntman and
/// applied afterwards.
#[derive(Clone, Copy)]
pub enum Next {
    Nothing,
    StartFall,
    /// Landed with this outcome, drop height, and impact x.
    Land(Outcome, Height, i32),
    /// The celebration or crash animation has run its course.
    FinishMan,
}

/// The wreck a failed outcome leaves, or `None` for a safe landing.
pub open spec fn wreck_spec(o: Outcome) -> Option<Wreck> {
    match o {
        Outcome::Landed => None,
        Outcome::Splat => Some(Wreck::Ground),
        Outcome::HitDriver => Some(Wreck::Driver),
        Outcome::HitHorse => Some(Wreck::Horse),
    }
}

/// Per-man outcomes of a level before any man is resolved.
pub open spec fn no_results() -> [Option<Outcome>; 5] {
    vstd::array::spec_array_fill_for_copy_type::<Option<Outcome>, 5>(None)
}

/// `x` clamped to `lo..=hi`.
pub open spec fn clamp(x: int, lo: int, hi: int) -> int {
    if x < lo {
        lo
    } else if x > hi {
        hi
    } else {
        x
    }
}

/// Coordinates this far from the origin are far inside `i32` range.
pub const COORD_LIMIT: i32 = 1_000_000;
/// The highest level (in magnitude) the machine-range check admits.
pub const LEVEL_LIMIT: i32 = 1000;
/// The largest score (in magnitude) the machine-range check admits.
pub const SCORE_LIMIT: i32 = 1_000_000_000;
/// The longest animation clock the machine-range check admits.
pub const CLOCK_LIMIT: u16 = 60_000;

/// `v` lies within `COORD_LIMIT` of the origin.
pub open spec fn in_coord(v: i32) -> bool {
    -COORD_LIMIT <= v <= COORD_LIMIT
}

/// 1 while the man's drop has been resolved (celebrating or crashing), else 0.
pub open spec fn resolved(s: Stuntman) -> int {
    match s {
        Stuntman::Celebrating(_) | Stuntman::Crashing(_) => 1,
        _ => 0,
    }
}

pub struct World {
    pub copter: Copter,
    pub wagon: Wagon,
    pub cloud: Cloud,
    pub stuntman: Stuntman,
    pub progression: Progression,
    pub score: Score,
    pub hiscore: Score,
    pub men_left: i32,
    pub good_jumps: i32,
    /// Per-man outcome for this level (`None` until the man is resolved).
    pub results: [Option<Outcome>; 5],
    /// Set when the last man is spent without clearing the level.
    pub over: bool,
    /// Ticks left on the "LEVEL n" banner after clearing a level; 0 when hidden.
    pub level_banner: u16,
    /// Cloud-scroll phase, `0..3`.
    pub phase: u8,
    /// Deterministic wind/cloud randomness.
    pub rng: Rng,
    /// When `Some(x)`, the wagon is frozen at `x` instead of rolling.
    pub wagon_pinned: Option<i32>,
    /// When `Some(pos)`, the copter is held there (rotor still spinning).
    pub copter_pinned: Option<Pos>,
}

/// A snapshot of the interpolatable positions, taken before each tick so the
/// renderer can smooth motion between ticks.
#[derive(Clone, Copy)]
pub struct RenderState {
    pub copter: Pos,
    pub wagon_x: i32,
    pub cloud: Pos,
    pub faller: Option<Pos>,
}

impl World {
    /// A fresh game: copter at its start, wagon at the left edge, cloud off
    /// the right edge, the first man hanging, level 1, no score, five men,
    /// and the generator at its default seed.
    pub open spec fn fresh() -> World {
        World {
            copter: Copter {
                pos: Pos { x: crate::config::COPTER_START_X, y: crate::config::COPTER_START_Y },
                vel: crate::geom::Vel { dh: 0, dv: 0 },
                frame: 0,
            },
            wagon: Wagon { x: 0, phase: 0 },
            cloud: Cloud { pos: Pos { x: crate::config::LOGICAL_W, y: 30 }, frame: 0 },
            stuntman: Stuntman::Hanging,
            progression: Progression::initial(),
            score: Score(0),
            hiscore: Score(0),
            men_left: MEN_PER_LEVEL,
            good_jumps: 0,
            results: no_results(),
            over: false,
            level_banner: 0,
            phase: 0,
            rng: Rng::from_state(crate::rng::DEFAULT_SEED),
            wagon_pinned: None,
            copter_pinned: None,
        }
    }

    /// The animation counters are in range.
    pub open spec fn wf(self) -> bool {
        &&& self.copter.wf()
        &&& self.wagon.wf()
        &&& self.cloud.wf()
        &&& self.phase < CLOUD_TICKS
        &&& (self.stuntman matches Stuntman::Falling(f) ==> f.frame < 5)
    }

    /// The hanging man's top-left, tracking the copter.
    pub open spec fn hang_pos_spec(self) -> Pos {
        Pos {
            x: (self.copter.pos.x + MAN_HANG_DH) as i32,
            y: (self.copter.pos.y + MAN_HANG_DV) as i32,
        }
    }

    /// The copter's height above the ground (negative when it is lower).
    pub open spec fn drop_height(self) -> int {
        GROUND_Y - (self.copter.pos.y + COPTER_H)
    }

    /// Zero-based index of the man in play, `0..=4`.
    pub open spec fn current_man_spec(self) -> int {
        clamp(MEN_PER_LEVEL - self.men_left, 0, MEN_PER_LEVEL - 1)
    }

    // ---- the movement half of a tick ----------------------------------

    /// The copter after this tick: held at its pin with the rotor spinning,
    /// or flown toward `req`.
    pub open spec fn moved_copter(self, req: crate::geom::Vel) -> Copter {
        match self.copter_pinned {
            Some(p) => Copter { pos: p, ..self.copter }.after_animate(),
            None => self.copter.after_tick(req),
        }
    }

    /// The wagon after this tick: held at its pin, or rolled at the level's speed.
    pub open spec fn moved_wagon(self) -> Wagon {
        match self.wagon_pinned {
            Some(x) => Wagon { x, ..self.wagon },
            None => self.wagon.after_tick(self.progression.wagon.value()),
        }
    }

    /// The cloud-scroll phase after this tick.
    pub open spec fn next_phase(self) -> u8 {
        ((self.phase + 1) % CLOUD_TICKS as int) as u8
    }

    /// The world after this tick's movement: copter, wagon, cloud (every
    /// third tick), and the level banner countdown.
    pub open spec fn moved(self, intents: Intents) -> World {
        let scroll = self.next_phase() == 0;
        World {
            copter: self.moved_copter(intents.req),
            wagon: self.moved_wagon(),
            phase: self.next_phase(),
            cloud: if scroll {
                self.cloud.after_tick(self.rng.state())
            } else {
                self.cloud
            },
            rng: if scroll {
                Rng::from_state(self.cloud.rng_after_tick(self.rng.state()))
            } else {
                self.rng
            },
            level_banner: if self.level_banner > 0 {
                (self.level_banner - 1) as u16
            } else {
                0
            },
            ..self
        }
    }

    /// Whether the movement half of a tick stays inside `i32` arithmetic.
    pub open spec fn move_ok(self, intents: Intents) -> bool {
        &&& (self.copter_pinned is None ==> self.copter.tick_ok(intents.req))
        &&& (self.wagon_pinned is None ==> self.wagon.tick_ok(
            self.progression.wagon.value(),
        ))
        &&& (self.next_phase() == 0 ==> self.cloud.tick_ok())
    }

    // ---- the stuntman half of a tick ----------------------------------

    /// Whether the faller at `f` is behind the cloud this tick.
    pub open spec fn in_cloud(self, f: Faller) -> bool {
        self.cloud.covers_spec(f.pos)
    }

    /// The gust a faller behind the cloud catches: the next draw in `-2..3`.
    pub open spec fn gust_spec(self) -> int {
        range_value(xorshift64(self.rng.state()), GUST_MIN, GUST_MAX)
    }

    /// The faller after one tick of falling: 1px plus a gust behind the
    /// cloud, gravity in open air.
    pub open spec fn fallen(self, f: Faller) -> Faller {
        if self.in_cloud(f) {
            f.after_fall(1).after_gust(self.gust_spec() as i32)
        } else {
            f.after_fall(self.progression.gravity.value())
        }
    }

    /// The generator after a faller's tick: one draw behind the cloud.
    pub open spec fn rng_after_fall(self, f: Faller) -> Rng {
        if self.in_cloud(f) {
            Rng::from_state(xorshift64(self.rng.state()))
        } else {
            self.rng
        }
    }

    /// The transition a faller at `f` (already moved) asks for: a landing,
    /// once his bottom edge passes the top of the wagon.
    pub open spec fn landing(self, f: Faller) -> Next {
        if f.pos.y + MAN_H > LANDING_Y {
            Next::Land(outcome_at(f.pos.x - self.wagon.x), f.height_of_drop, f.pos.x)
        } else {
            Next::Nothing
        }
    }

    /// The world with the stuntman's own state advanced one tick, and the
    /// transition this asks for.
    pub open spec fn stepped(self, drop: bool) -> (World, Next) {
        match self.stuntman {
            Stuntman::Hanging => (
                self,
                if drop {
                    Next::StartFall
                } else {
                    Next::Nothing
                },
            ),
            Stuntman::Falling(f) => {
                let f2 = self.fallen(f);
                (
                    World { stuntman: Stuntman::Falling(f2), rng: self.rng_after_fall(f), ..self },
                    self.landing(f2),
                )
            },
            Stuntman::Celebrating(fl) => {
                let t = (fl.tick + 1) as u16;
                (
                    World { stuntman: Stuntman::Celebrating(Flip { tick: t }), ..self },
                    if t >= FLIP_TICKS {
                        Next::FinishMan
                    } else {
                        Next::Nothing
                    },
                )
            },
            Stuntman::Crashing(sp) => {
                let t = (sp.tick + 1) as u16;
                (
                    World { stuntman: Stuntman::Crashing(Splat { tick: t, ..sp }), ..self },
                    if t >= SPLAT_TICKS {
                        Next::FinishMan
                    } else {
                        Next::Nothing
                    },
                )
            },
        }
    }

    /// Whether advancing the stuntman stays inside `i32`/`u16` arithmetic.
    pub open spec fn step_ok(self) -> bool {
        match self.stuntman {
            Stuntman::Hanging => true,
            Stuntman::Falling(f) => {
                let f2 = self.fallen(f);
                &&& self.cloud.covers_ok(f.pos)
                &&& if self.in_cloud(f) {
                    fits_i32(f.pos.y + 1) && fits_i32(f.pos.x + self.gust_spec())
                } else {
                    fits_i32(f.pos.y + self.progression.gravity.value())
                }
                &&& fits_i32(f2.pos.y + MAN_H)
                &&& (f2.pos.y + MAN_H > LANDING_Y ==> fits_i32(f2.pos.x - self.wagon.x))
            },
            Stuntman::Celebrating(fl) => fl.tick < u16::MAX,
            Stuntman::Crashing(sp) => sp.tick < u16::MAX,
        }
    }

    // ---- applying a transition ----------------------------------------

    /// The world after an outcome is scored, and the points it gained. The
    /// outcome is recorded for the man in play; a landing scores
    /// `level * height`; hitting the driver or horse leaves one man.
    pub open spec fn scored(self, o: Outcome, h: Height) -> (World, Points) {
        let results = vstd::array::spec_array_update(
            self.results,
            self.current_man_spec(),
            Some(o),
        );
        match o {
            Outcome::Landed => {
                let p = Points((self.progression.level.0 * h.0) as i32);
                let s = Score((self.score.0 + p.0) as i32);
                (
                    World {
                        results,
                        score: s,
                        good_jumps: (self.good_jumps + 1) as i32,
                        hiscore: if self.hiscore.0 >= s.0 {
                            self.hiscore
                        } else {
                            s
                        },
                        ..self
                    },
                    p,
                )
            },
            Outcome::HitDriver | Outcome::HitHorse => (
                World { results, men_left: 1, ..self },
                Points(0),
            ),
            Outcome::Splat => (World { results, ..self }, Points(0)),
        }
    }

    /// The world after the man whose animation finished is retired: the next
    /// man hangs, or the level is cleared, or the game ends (leaving the last
    /// tableau in place); and the events this reports.
    pub open spec fn retired(self) -> (World, Seq<Event>) {
        let m = (self.men_left - 1) as i32;
        let ev = seq![Event::ManRetired { men_left: m }];
        if m > 0 {
            (World { men_left: m, stuntman: Stuntman::Hanging, ..self }, ev)
        } else if self.good_jumps >= MEN_PER_LEVEL {
            let p = self.progression.after_level_up();
            (
                World {
                    progression: p,
                    men_left: MEN_PER_LEVEL,
                    good_jumps: 0,
                    results: no_results(),
                    stuntman: Stuntman::Hanging,
                    level_banner: LEVEL_BANNER_TICKS,
                    ..self
                },
                ev.push(Event::LevelCleared { level: p.level }),
            )
        } else {
            (
                World {
                    men_left: m,
                    hiscore: if self.hiscore.0 >= self.score.0 {
                        self.hiscore
                    } else {
                        self.score
                    },
                    over: true,
                    ..self
                },
                ev.push(Event::GameEnded { score: self.score }),
            )
        }
    }

    /// The world after a transition is applied, and the events it reports.
    pub open spec fn applied(self, next: Next) -> (World, Seq<Event>) {
        match next {
            Next::Nothing => (self, Seq::empty()),
            Next::StartFall => (
                World {
                    stuntman: Stuntman::Falling(
                        Faller {
                            pos: self.hang_pos_spec(),
                            height_of_drop: Height(self.drop_height() as i32),
                            frame: 0,
                        },
                    ),
                    ..self
                },
                seq![Event::Dropped],
            ),
            Next::Land(o, h, x) => {
                let (w, p) = self.scored(o, h);
                let resolved = Event::Resolved { outcome: o, points: p, height: h };
                match wreck_spec(o) {
                    None => (
                        World { stuntman: Stuntman::Celebrating(Flip { tick: 0 }), ..w },
                        seq![resolved, Event::CelebrationStarted],
                    ),
                    Some(wr) => (
                        World { stuntman: Stuntman::Crashing(Splat { wreck: wr, x, tick: 0 }), ..w },
                        seq![resolved, Event::CrashStarted { wreck: wr }],
                    ),
                }
            },
            Next::FinishMan => self.retired(),
        }
    }

    /// Whether applying a transition stays inside `i32` arithmetic.
    pub open spec fn apply_ok(self, next: Next) -> bool {
        match next {
            Next::Nothing => true,
            Next::StartFall => {
                &&& fits_i32(self.copter.pos.x + MAN_HANG_DH)
                &&& fits_i32(self.copter.pos.y + MAN_HANG_DV)
                &&& fits_i32(self.copter.pos.y + COPTER_H)
                &&& fits_i32(self.drop_height())
            },
            Next::Land(o, h, x) => {
                &&& fits_i32(MEN_PER_LEVEL - self.men_left)
                &&& (o == Outcome::Landed ==> {
                    &&& fits_i32(self.progression.level.0 * h.0)
                    &&& fits_i32(self.score.0 + self.progression.level.0 * h.0)
                    &&& self.good_jumps < i32::MAX
                })
            },
            Next::FinishMan => {
                &&& self.men_left > i32::MIN
                &&& (self.men_left - 1 <= 0 && self.good_jumps >= MEN_PER_LEVEL
                    ==> self.progression.level.0 < i32::MAX)
            },
        }
    }

    // ---- the whole tick ------------------------------------------------

    /// The world after one tick with `intents`.
    pub open spec fn after_tick(self, intents: Intents) -> World {
        let w1 = self.moved(intents);
        let (w2, next) = w1.stepped(intents.drop);
        w2.applied(next).0
    }

    /// The events one tick with `intents` reports, in order.
    pub open spec fn tick_events(self, intents: Intents) -> Seq<Event> {
        let w1 = self.moved(intents);
        let (w2, next) = w1.stepped(intents.drop);
        w2.applied(next).1
    }

    /// Whether one tick with `intents` stays inside machine arithmetic: every
    /// sum, difference, product and counter step it performs fits its type.
    pub open spec fn tick_ok(self, intents: Intents) -> bool {
        let w1 = self.moved(intents);
        let (w2, next) = w1.stepped(intents.drop);
        &&& self.move_ok(intents)
        &&& w1.step_ok()
        &&& w2.apply_ok(next)
    }

    /// The world after one attract-screen tick: the rotor spins, the wagon
    /// strolls at the level's speed, and the cloud drifts on its phase.
    pub open spec fn after_attract(self) -> World {
        World {
            copter: self.copter.after_animate(),
            wagon: self.wagon.after_tick(self.progression.wagon.value()),
            phase: self.next_phase(),
            cloud: if self.next_phase() == 0 {
                self.cloud.after_tick(self.rng.state())
            } else {
                self.cloud
            },
            rng: if self.next_phase() == 0 {
                Rng::from_state(self.cloud.rng_after_tick(self.rng.state()))
            } else {
                self.rng
            },
            ..self
        }
    }

    /// The bookkeeping every world reached by play keeps: a game in progress
    /// has one to five men left and an over game none; at most five good
    /// jumps, and no more than the men resolved so far in the level; the high
    /// score is at least the score and never negative; the level is at least 1.
    pub open spec fn inv(self) -> bool {
        &&& (self.over ==> self.men_left == 0)
        &&& (!self.over ==> 1 <= self.men_left <= MEN_PER_LEVEL)
        &&& 0 <= self.good_jumps <= MEN_PER_LEVEL
        &&& (!self.over ==> self.good_jumps <= MEN_PER_LEVEL - self.men_left + resolved(
            self.stuntman,
        ))
        &&& 0 <= self.hiscore.0
        &&& self.score.0 <= self.hiscore.0
        &&& self.progression.level.0 >= 1
    }

    /// Every drop from this world has a height of at least zero: the man in
    /// the air already has one, and a pinned copter is not below the ground.
    /// (An unpinned copter is always inside its flight band when he drops.)
    pub open spec fn drops_safe(self) -> bool {
        &&& (self.stuntman matches Stuntman::Falling(f) ==> f.height_of_drop.0 >= 0)
        &&& (self.copter_pinned matches Some(p) ==> 0 <= GROUND_Y - (p.y + COPTER_H) <= i32::MAX)
    }

    /// Whether every coordinate, counter and score of the world (and the
    /// request) lies far inside machine range: one tick from such a world
    /// cannot overflow.
    pub open spec fn in_play_range(self, intents: Intents) -> bool {
        &&& in_coord(self.copter.pos.x)
        &&& in_coord(self.copter.pos.y)
        &&& in_coord(self.copter.vel.dh)
        &&& in_coord(self.copter.vel.dv)
        &&& in_coord(intents.req.dh)
        &&& in_coord(intents.req.dv)
        &&& in_coord(self.wagon.x)
        &&& in_coord(self.cloud.pos.x)
        &&& in_coord(self.cloud.pos.y)
        &&& (self.copter_pinned matches Some(p) ==> in_coord(p.x) && in_coord(p.y))
        &&& (self.wagon_pinned matches Some(x) ==> in_coord(x))
        &&& match self.stuntman {
            Stuntman::Hanging => true,
            Stuntman::Falling(f) => in_coord(f.pos.x) && in_coord(f.pos.y) && in_coord(
                f.height_of_drop.0,
            ),
            Stuntman::Celebrating(fl) => fl.tick < CLOCK_LIMIT,
            Stuntman::Crashing(sp) => sp.tick < CLOCK_LIMIT,
        }
        &&& in_coord(self.men_left)
        &&& in_coord(self.good_jumps)
        &&& -LEVEL_LIMIT <= self.progression.level.0 <= LEVEL_LIMIT
        &&& -SCORE_LIMIT <= self.score.0 <= SCORE_LIMIT
    }

    /// The world after `n` ticks, each with `intents`.
    pub open spec fn run(self, intents: Intents, n: nat) -> World
        decreases n,
    {
        if n == 0 {
            self
        } else {
            self.after_tick(intents).run(intents, (n - 1) as nat)
        }
    }

    /// Whether, over the next `n` ticks with `intents`, a falling man is
    /// never behind the cloud (so no gust ever pushes him).
    pub open spec fn clear_of_cloud(self, intents: Intents, n: nat) -> bool
        decreases n,
    {
        n == 0 || {
            &&& (self.stuntman matches Stuntman::Falling(f) ==> !self.moved(intents).in_cloud(f))
            &&& self.after_tick(intents).clear_of_cloud(intents, (n - 1) as nat)
        }
    }
}

// ---- laws ----------------------------------------------------------------

/// Scoring: a resolved drop reports `points = level * height` for a landing
/// and 0 for any crash, and the score grows by exactly those points. A
/// landing counts a good jump and starts the celebration; a crash starts the
/// crash animation with the wreck it struck.
pub proof fn lemma_landing_scores(w: World, o: Outcome, h: Height, x: i32)
    requires
        w.apply_ok(Next::Land(o, h, x)),
    ensures
        ({
            let (w2, ev) = w.applied(Next::Land(o, h, x));
            let p = if o == Outcome::Landed {
                w.progression.level.0 * h.0
            } else {
                0
            };
            &&& ev.len() == 2
            &&& ev[0] == Event::Resolved { outcome: o, points: Points(p as i32), height: h }
            &&& w2.score.0 == w.score.0 + p
            &&& w2.results@ == w.results@.update(w.current_man_spec(), Some(o))
            &&& (o == Outcome::Landed ==> {
                &&& w2.good_jumps == w.good_jumps + 1
                &&& ev[1] == Event::CelebrationStarted
                &&& w2.stuntman == Stuntman::Celebrating(Flip { tick: 0 })
            })
            &&& (o != Outcome::Landed ==> {
                &&& w2.good_jumps == w.good_jumps
                &&& ev[1] == Event::CrashStarted { wreck: wreck_spec(o).unwrap() }
                &&& w2.stuntman is Crashing
            })
        }),
{
    vstd::array::lemma_array_index(w.results, 0);
    assert(0 <= w.current_man_spec() < 5);
}

/// Wind: behind the cloud a faller drops exactly one pixel and is pushed
/// sideways by a gust of `-2..=2` pixels; in open air he falls at the
/// level's gravity and is not pushed.
pub proof fn lemma_fall(w: World, f: Faller)
    requires
        fits_i32(f.pos.y + 1),
        fits_i32(f.pos.x + w.gust_spec()),
        fits_i32(f.pos.y + w.progression.gravity.value()),
    ensures
        w.in_cloud(f) ==> {
            &&& w.fallen(f).pos.y == f.pos.y + 1
            &&& GUST_MIN <= w.fallen(f).pos.x - f.pos.x < GUST_MAX
        },
        !w.in_cloud(f) ==> {
            &&& w.fallen(f).pos.x == f.pos.x
            &&& w.fallen(f).pos.y == f.pos.y + w.progression.gravity.value()
        },
        w.fallen(f).height_of_drop == f.height_of_drop,
{
    crate::rng::lemma_range_value_bounds(xorshift64(w.rng.state()), GUST_MIN, GUST_MAX);
}

/// Wind blows only behind the cloud. In a tick, the falling man is pushed
/// only when his top-left lies inside the (moved) cloud's sprite box: then
/// he drops exactly 1px and drifts by a gust in `-2..=2`, drawing once from
/// the generator. Anywhere else — above, below or beside the box — he
/// falls by the level's gravity with x unchanged and nothing is drawn. The
/// man still in the air after the tick is exactly that fallen man.
pub proof fn lemma_wind_only_behind_the_cloud(w: World, f: Faller, i: Intents)
    requires
        w.stuntman == Stuntman::Falling(f),
        in_coord(f.pos.x),
        in_coord(f.pos.y),
        1 <= w.progression.gravity.value() <= GRAVITY_MAX,
    ensures
        ({
            let w1 = w.moved(i);
            let c = w1.cloud;
            let (cw, ch) = crate::sprite::sprite_size(crate::cloud::cloud_sprite(c.frame));
            let behind = c.pos.x <= f.pos.x < c.pos.x + cw && c.pos.y <= f.pos.y < c.pos.y + ch;
            let f2 = w1.fallen(f);
            &&& (!behind ==> {
                &&& f2.pos == (Pos { x: f.pos.x, y: (f.pos.y + w.progression.gravity.value()) as i32 })
                &&& w1.rng_after_fall(f) == w1.rng
            })
            &&& (behind ==> {
                &&& f2.pos.y == f.pos.y + 1
                &&& GUST_MIN <= f2.pos.x - f.pos.x < GUST_MAX
                &&& w1.rng_after_fall(f) == Rng::from_state(xorshift64(w1.rng.state()))
            })
            &&& (w.after_tick(i).stuntman matches Stuntman::Falling(g) ==> g == f2)
        }),
{
    let w1 = w.moved(i);
    crate::cloud::lemma_covers_is_the_box(w1.cloud, f.pos);
    crate::rng::lemma_range_value_bounds(xorshift64(w1.rng.state()), GUST_MIN, GUST_MAX);
    assert(w1.stuntman == w.stuntman);
    assert(w1.progression == w.progression);
}

/// The wagon rolls at the level's speed: an unpinned wagon not yet past the
/// right edge moves exactly `progression.wagon` pixels right in a tick (and
/// in an attract-screen tick); one past the edge jumps back by the wrap
/// stride. A pinned wagon stands at its pin (see `lemma_pins_hold`).
pub proof fn lemma_wagon_rolls_at_level_speed(w: World, i: Intents)
    requires
        w.wagon_pinned is None,
        1 <= w.progression.wagon.value() <= WAGON_SPEED_MAX,
        fits_i32(w.wagon.x + WAGON_SPEED_MAX),
        fits_i32(w.wagon.x - crate::wagon::WRAP_STRIDE),
    ensures
        w.wagon.x <= crate::config::LOGICAL_W ==> {
            &&& w.after_tick(i).wagon.x == w.wagon.x + w.progression.wagon.value()
            &&& w.after_attract().wagon.x == w.wagon.x + w.progression.wagon.value()
        },
        w.wagon.x > crate::config::LOGICAL_W ==> {
            &&& w.after_tick(i).wagon.x == w.wagon.x - (crate::config::LOGICAL_W
                + crate::config::WAGON_W - 3)
            &&& w.after_attract().wagon.x == w.after_tick(i).wagon.x
        },
{
    let w1 = w.moved(i);
    let (w2, next) = w1.stepped(i.drop);
    assert(w2.wagon == w1.wagon);
    assert(w2.applied(next).0.wagon == w1.wagon);
}

/// Hitting the driver or the horse ends the game: unless the level was
/// already won, the man's retirement after the crash is the last one.
pub proof fn lemma_crash_ends_game(w: World, o: Outcome, h: Height)
    requires
        o == Outcome::HitDriver || o == Outcome::HitHorse,
        w.good_jumps < MEN_PER_LEVEL,
    ensures
        w.scored(o, h).0.men_left == 1,
        w.scored(o, h).0.retired().0.over,
        w.scored(o, h).0.retired().1 == seq![
            Event::ManRetired { men_left: 0 },
            Event::GameEnded { score: w.score },
        ],
{
}

/// A man's retirement: five landings in the level clear it, fewer when the
/// last man is spent end the game, and otherwise the next man hangs.
pub proof fn lemma_retirement(w: World)
    requires
        w.men_left > i32::MIN,
    ensures
        ({
            let (w2, ev) = w.retired();
            &&& ev[0] == Event::ManRetired { men_left: (w.men_left - 1) as i32 }
            &&& (w.men_left > 1 ==> ev.len() == 1 && w2.stuntman is Hanging && w2.over == w.over
                && w2.men_left == w.men_left - 1)
            &&& (w.men_left <= 1 && w.good_jumps >= MEN_PER_LEVEL ==> {
                &&& ev.len() == 2
                &&& ev[1] == Event::LevelCleared { level: w2.progression.level }
                &&& w2.progression == w.progression.after_level_up()
                &&& w2.men_left == MEN_PER_LEVEL
                &&& w2.good_jumps == 0
                &&& w2.level_banner == LEVEL_BANNER_TICKS
                &&& w2.over == w.over
            })
            &&& (w.men_left <= 1 && w.good_jumps < MEN_PER_LEVEL ==> {
                &&& ev.len() == 2
                &&& ev[1] == Event::GameEnded { score: w.score }
                &&& w2.over
                &&& w2.stuntman == w.stuntman
            })
        }),
{
}

/// The high score never falls below the score: a tick that starts with
/// `hiscore >= score` ends with it too.
pub proof fn lemma_hiscore_bounds_score(w: World, i: Intents)
    requires
        w.tick_ok(i),
        w.hiscore.0 >= w.score.0,
    ensures
        w.after_tick(i).hiscore.0 >= w.after_tick(i).score.0,
        w.after_tick(i).hiscore.0 >= w.hiscore.0,
{
}

/// Every event a tick reports, in order, is one of a few fixed shapes; in
/// particular the backflip is announced only right after the landing that
/// caused it, and a crash only right after its resolution.
pub proof fn lemma_celebration_follows_landing(w: World, i: Intents)
    ensures
        ({
            let ev = w.tick_events(i);
            forall|k: int|
                0 <= k < ev.len() && (ev[k] == Event::CelebrationStarted
                    || ev[k] is CrashStarted) ==> k >= 1 && #[trigger] ev[k - 1] is Resolved
                    && (ev[k] == Event::CelebrationStarted <==> ev[k - 1]->outcome
                    == Outcome::Landed)
        }),
{
    let w1 = w.moved(i);
    let (w2, next) = w1.stepped(i.drop);
    match next {
        Next::Land(o, h, x) => {
            let (w3, p) = w2.scored(o, h);
        },
        _ => {},
    }
}

/// Pins hold: a pinned wagon stands exactly at its pin and a pinned copter
/// exactly at its pin, keeping its velocity (the request is ignored) while
/// its rotor turns on by one frame — whatever the intents; the pins
/// themselves are kept.
pub proof fn lemma_pins_hold(w: World, i: Intents)
    ensures
        ({
            let n = w.after_tick(i);
            &&& n.wagon_pinned == w.wagon_pinned
            &&& n.copter_pinned == w.copter_pinned
            &&& (w.wagon_pinned matches Some(x) ==> n.wagon.x == x)
            &&& (w.copter_pinned matches Some(p) ==> {
                &&& n.copter.pos == p
                &&& n.copter.vel == w.copter.vel
                &&& n.copter.frame == (w.copter.frame + 1) % 3
            })
        }),
{
    let w1 = w.moved(i);
    let (w2, next) = w1.stepped(i.drop);
    assert(w2.copter == w1.copter && w2.wagon == w1.wagon);
    assert(w2.wagon_pinned == w.wagon_pinned && w2.copter_pinned == w.copter_pinned);
    let n = w2.applied(next).0;
    assert(n.copter == w1.copter && n.wagon == w1.wagon);
}

/// A tick is a function of the world and the intents alone: two equal
/// worlds given the same intents end equal and report the same events. No
/// sink takes part in either, so `World::tick` leaves the same world whatever
/// sink it is handed, and every sink that keeps events receives the same ones.
pub proof fn lemma_tick_deterministic(w1: World, w2: World, i: Intents)
    requires
        w1 == w2,
    ensures
        w1.after_tick(i) == w2.after_tick(i),
        w1.tick_events(i) == w2.tick_events(i),
{
}

/// A fresh game keeps the bookkeeping invariant, and every drop from it is
/// safe.
pub proof fn lemma_fresh_inv()
    ensures
        World::fresh().inv(),
        World::fresh().drops_safe(),
{
    Progression::lemma_initial();
}

/// A tick of a game in progress keeps the bookkeeping invariant: men left,
/// good jumps, high score and level stay in their ranges, and the man in
/// play is one of the five. Only a level that can still go up is assumed.
pub proof fn lemma_tick_keeps_inv(w: World, i: Intents)
    requires
        w.inv(),
        !w.over,
        w.progression.level.0 < i32::MAX,
    ensures
        w.after_tick(i).inv(),
        0 <= w.after_tick(i).current_man_spec() <= MEN_PER_LEVEL - 1,
{
    let w1 = w.moved(i);
    let (w2, next) = w1.stepped(i.drop);
    assert(w1.inv());
    assert(w2.inv()) by {
        assert(resolved(w2.stuntman) == resolved(w1.stuntman));
    }
    match next {
        Next::Land(o, h, x) => {
            assert(w2.stuntman is Falling);
            let (w3, p) = w2.scored(o, h);
            assert(w3.hiscore.0 >= w3.score.0);
        },
        Next::FinishMan => {
            assert(resolved(w2.stuntman) == 1);
            let p = w2.progression;
            Progression::lemma_after_level_up(p);
        },
        _ => {},
    }
}

/// The other calls a game is played with keep the invariant too: starting a
/// game (which keeps the high score and the generator), an attract-screen
/// tick, reseeding, and setting either pin; and they keep drops safe, a
/// copter pin as long as it is not below the ground.
pub proof fn lemma_calls_keep_inv(w: World, r: Rng, x: Option<i32>, p: Option<Pos>)
    requires
        w.inv(),
    ensures
        (World { hiscore: w.hiscore, rng: w.rng, ..World::fresh() }).inv(),
        w.after_attract().inv(),
        (World { rng: r, ..w }).inv(),
        (World { wagon_pinned: x, ..w }).inv(),
        (World { copter_pinned: p, ..w }).inv(),
        (World { hiscore: w.hiscore, rng: w.rng, ..World::fresh() }).drops_safe(),
        w.drops_safe() ==> w.after_attract().drops_safe() && (World { rng: r, ..w }).drops_safe()
            && (World { wagon_pinned: x, ..w }).drops_safe(),
        w.drops_safe() && (p matches Some(q) ==> 0 <= GROUND_Y - (q.y + COPTER_H) <= i32::MAX)
            ==> (World { copter_pinned: p, ..w }).drops_safe(),
{
    Progression::lemma_initial();
}

/// Score, high score and level never go down in a tick of a game in
/// progress whose drops are safe (no man falls from below the ground); and
/// the next world's drops stay safe. Only the machine limits of a landing's
/// points, the new score and the next level are assumed.
pub proof fn lemma_tick_monotone(w: World, i: Intents)
    requires
        w.inv(),
        !w.over,
        w.drops_safe(),
        w.progression.level.0 < i32::MAX,
        w.stuntman matches Stuntman::Falling(f) ==> {
            &&& fits_i32(w.progression.level.0 * f.height_of_drop.0)
            &&& fits_i32(w.score.0 + w.progression.level.0 * f.height_of_drop.0)
        },
    ensures
        w.after_tick(i).drops_safe(),
        w.after_tick(i).score.0 >= w.score.0,
        w.after_tick(i).hiscore.0 >= w.hiscore.0,
        w.after_tick(i).progression.level.0 >= w.progression.level.0,
{
    let w1 = w.moved(i);
    let (w2, next) = w1.stepped(i.drop);
    assert(w1.progression == w.progression && w1.score == w.score);
    match next {
        Next::Land(o, h, x) => {
            if let Stuntman::Falling(f) = w.stuntman {
                assert(h == f.height_of_drop);
                let l = w.progression.level.0 as int;
                let hh = h.0 as int;
                assert(l * hh >= 0) by (nonlinear_arith)
                    requires
                        l >= 1,
                        hh >= 0,
                ;
            }
        },
        Next::StartFall => {
            match w1.copter_pinned {
                Some(p) => {},
                None => {
                    assert(TOP_LIMIT <= w1.copter.pos.y <= COPTER_BOTTOM_LIMIT - COPTER_H);
                },
            }
        },
        Next::FinishMan => {
            Progression::lemma_after_level_up(w2.progression);
        },
        _ => {},
    }
}

/// The machine-range check is enough for a tick: from a well-formed world in
/// play range (with the level's wagon speed and gravity in their ranges) one
/// tick — or one attract-screen tick — stays inside machine arithmetic.
pub proof fn lemma_play_range_ticks(w: World, i: Intents)
    requires
        w.wf(),
        w.in_play_range(i),
        1 <= w.progression.wagon.value() <= WAGON_SPEED_MAX,
        1 <= w.progression.gravity.value() <= GRAVITY_MAX,
    ensures
        w.tick_ok(i),
        w.wagon.tick_ok(w.progression.wagon.value()),
        w.next_phase() == 0 ==> w.cloud.tick_ok(),
{
    let w1 = w.moved(i);
    let (w2, next) = w1.stepped(i.drop);
    crate::rng::lemma_range_value_bounds(xorshift64(w.rng.state()), crate::cloud::RESPAWN_TOP, crate::cloud::RESPAWN_BOTTOM);
    crate::rng::lemma_range_value_bounds(xorshift64(w1.rng.state()), GUST_MIN, GUST_MAX);
    assert(-COORD_LIMIT - 600 <= w1.wagon.x <= COORD_LIMIT + 3);
    assert(-COORD_LIMIT - 1 <= w1.cloud.pos.x <= COORD_LIMIT);
    assert(-COORD_LIMIT <= w1.cloud.pos.y <= COORD_LIMIT);
    assert(0 < w1.cloud.w() <= 80 && 0 < w1.cloud.h() <= 28);
    match next {
        Next::Land(o, h, x) => {
            let l = w.progression.level.0 as int;
            let hh = h.0 as int;
            assert(-1_000_000_000 <= l * hh <= 1_000_000_000) by (nonlinear_arith)
                requires
                    -1000 <= l <= 1000,
                    -1_000_000 <= hh <= 1_000_000,
            ;
        },
        _ => {},
    }
}

/// Whether `v` lies within `COORD_LIMIT` of the origin.
fn coord(v: i32) -> (b: bool)
    ensures
        b == in_coord(v),
{
    -COORD_LIMIT <= v && v <= COORD_LIMIT
}

/// A completed animation asks to retire the man; an unfinished one does nothing.
fn finished_or_nothing(finished: bool) -> (n: Next)
    ensures
        n == if finished {
            Next::FinishMan
        } else {
            Next::Nothing
        },
{
    if finished {
        Next::FinishMan
    } else {
        Next::Nothing
    }
}

/// The wreck a failed outcome leaves, or `None` for a safe landing.
fn wreck_of(outcome: Outcome) -> (w: Option<Wreck>)
    ensures
        w == wreck_spec(outcome),
{
    match outcome {
        Outcome::Landed => None,
        Outcome::Splat => Some(Wreck::Ground),
        Outcome::HitDriver => Some(Wreck::Driver),
        Outcome::HitHorse => Some(Wreck::Horse),
    }
}

impl Default for World {
    fn default() -> (w: Self)
        ensures
            w == World::fresh(),
            w.wf(),
    {
        let w = World {
            copter: Copter::default(),
            wagon: Wagon::default(),
            cloud: Cloud::default(),
            stuntman: Stuntman::Hanging,
            progression: Progression::default(),
            score: Score::new(0),
            hiscore: Score::new(0),
            men_left: MEN_PER_LEVEL,
            good_jumps: 0,
            results: [None; 5],
            over: false,
            level_banner: 0,
            phase: 0,
            rng: Rng::default(),
            wagon_pinned: None,
            copter_pinned: None,
        };
        proof {
            Rng::lemma_from_state(crate::rng::DEFAULT_SEED);
            Rng::lemma_same_state(w.rng, Rng::from_state(crate::rng::DEFAULT_SEED));
        }
        w
    }
}

impl World {
    /// Advance the simulation by exactly one fixed tick, reporting domain
    /// events to `sink`.
    pub fn tick<S: EventSink>(&mut self, intents: &Intents, sink: &mut S)
        requires
            old(self).wf(),
            old(self).tick_ok(*intents),
        ensures
            *final(self) == old(self).after_tick(*intents),
            final(self).wf(),
            S::keeps_events() ==> final(sink).kept() == old(sink).kept() + old(self).tick_events(
                *intents,
            ),
    {
        self.move_entities(intents);
        self.step_stuntman(intents.drop, sink);
    }

    /// Move the copter, wagon and cloud, and count down the level banner.
    fn move_entities(&mut self, intents: &Intents)
        requires
            old(self).wf(),
            old(self).move_ok(*intents),
        ensures
            *final(self) == old(self).moved(*intents),
            final(self).wf(),
    {
        match self.copter_pinned {
            Some(pos) => {
                self.copter.pos = pos;
                self.copter.animate();
            },
            None => self.copter.tick(intents.req),
        }
        match self.wagon_pinned {
            Some(x) => self.wagon.x = x,
            None => {
                let speed = self.progression.wagon.px();
                self.wagon.tick(speed);
            },
        }
        self.phase = (self.phase + 1) % CLOUD_TICKS;
        if self.phase == 0 {
            let ghost s = self.rng.state();
            let ghost c = self.cloud;
            self.cloud.tick(&mut self.rng);
            proof {
                Rng::lemma_from_state(c.rng_after_tick(s));
                Rng::lemma_same_state(self.rng, Rng::from_state(c.rng_after_tick(s)));
            }
        }
        self.level_banner = if self.level_banner > 0 {
            self.level_banner - 1
        } else {
            0
        };
    }

    /// Advance the stuntman one tick and apply the transition it asks for.
    fn step_stuntman<S: EventSink>(&mut self, drop: bool, sink: &mut S)
        requires
            old(self).wf(),
            old(self).step_ok(),
            old(self).stepped(drop).0.apply_ok(old(self).stepped(drop).1),
        ensures
            *final(self) == old(self).stepped(drop).0.applied(old(self).stepped(drop).1).0,
            final(self).wf(),
            S::keeps_events() ==> final(sink).kept() == old(sink).kept() + old(self).stepped(
                drop,
            ).0.applied(old(self).stepped(drop).1).1,
    {
        let next = self.advance_stuntman(drop);
        self.apply(next, sink);
    }

    /// Advance the stuntman's own state one tick: fall (with a gust behind
    /// the cloud), or run the celebration/crash clock. Returns the transition
    /// this asks for.
    fn advance_stuntman(&mut self, drop: bool) -> (next: Next)
        requires
            old(self).wf(),
            old(self).step_ok(),
        ensures
            (*final(self), next) == old(self).stepped(drop),
            final(self).wf(),
    {
        match self.stuntman {
            Stuntman::Hanging => {
                if drop {
                    Next::StartFall
                } else {
                    Next::Nothing
                }
            },
            Stuntman::Falling(f) => {
                let ghost w = *self;
                let mut f = f;
                if self.cloud.covers(f.pos) {
                    f.fall(1);
                    let g = self.rng.range(GUST_MIN, GUST_MAX);
                    f.gust(g);
                    proof {
                        Rng::lemma_from_state(xorshift64(w.rng.state()));
                        Rng::lemma_same_state(self.rng, Rng::from_state(xorshift64(w.rng.state())));
                    }
                } else {
                    let g = self.progression.gravity.px();
                    f.fall(g);
                }
                self.stuntman = Stuntman::Falling(f);
                if f.pos.y + MAN_H > LANDING_Y {
                    let o = classify(f.pos.x, self.wagon.x);
                    Next::Land(o, f.height_of_drop, f.pos.x)
                } else {
                    Next::Nothing
                }
            },
            Stuntman::Celebrating(fl) => {
                let mut fl = fl;
                fl.advance();
                self.stuntman = Stuntman::Celebrating(fl);
                finished_or_nothing(fl.finished())
            },
            Stuntman::Crashing(sp) => {
                let mut sp = sp;
                sp.advance();
                self.stuntman = Stuntman::Crashing(sp);
                finished_or_nothing(sp.finished())
            },
        }
    }

    /// Apply a pending transition, reporting what it does.
    fn apply<S: EventSink>(&mut self, next: Next, sink: &mut S)
        requires
            old(self).wf(),
            old(self).apply_ok(next),
        ensures
            *final(self) == old(self).applied(next).0,
            final(self).wf(),
            S::keeps_events() ==> final(sink).kept() == old(sink).kept() + old(self).applied(
                next,
            ).1,
    {
        let ghost k0 = sink.kept();
        match next {
            Next::Nothing => {
                assert(k0 + Seq::<Event>::empty() =~= k0);
            },
            Next::StartFall => {
                let pos = self.hang_pos();
                let height = Height::new(GROUND_Y - (self.copter.pos.y + COPTER_H));
                self.stuntman = Stuntman::Falling(Faller::new(pos, height));
                sink.emit(Event::Dropped);
                assert(k0.push(Event::Dropped) =~= k0 + seq![Event::Dropped]);
            },
            Next::Land(outcome, height, x) => {
                let points = self.score_outcome(outcome, height);
                let resolved = Event::Resolved { outcome, points, height };
                sink.emit(resolved);
                match wreck_of(outcome) {
                    None => {
                        sink.emit(Event::CelebrationStarted);
                        self.stuntman = Stuntman::Celebrating(Flip::new());
                        assert(k0.push(resolved).push(Event::CelebrationStarted) =~= k0 + seq![
                            resolved,
                            Event::CelebrationStarted,
                        ]);
                    },
                    Some(wreck) => {
                        sink.emit(Event::CrashStarted { wreck });
                        self.stuntman = Stuntman::Crashing(Splat::new(wreck, x));
                        assert(k0.push(resolved).push(Event::CrashStarted { wreck }) =~= k0
                            + seq![resolved, Event::CrashStarted { wreck }]);
                    },
                }
            },
            Next::FinishMan => self.finish_man(sink),
        }
    }

    /// Record an outcome for the man in play, apply its scoring and
    /// bookkeeping, and return the points gained.
    fn score_outcome(&mut self, outcome: Outcome, height: Height) -> (p: Points)
        requires
            old(self).wf(),
            fits_i32(MEN_PER_LEVEL - old(self).men_left),
            outcome == Outcome::Landed ==> {
                &&& fits_i32(old(self).progression.level.0 * height.0)
                &&& fits_i32(old(self).score.0 + old(self).progression.level.0 * height.0)
                &&& old(self).good_jumps < i32::MAX
            },
        ensures
            (*final(self), p) == old(self).scored(outcome, height),
            final(self).wf(),
    {
        let i = self.current_man();
        self.results[i] = Some(outcome);
        match outcome {
            Outcome::Landed => {
                let points = self.progression.level * height;
                self.score = self.score.plus(points);
                self.good_jumps = self.good_jumps + 1;
                self.hiscore = self.hiscore.max(self.score);
                points
            },
            Outcome::HitDriver | Outcome::HitHorse => {
                self.men_left = 1;
                Points::new(0)
            },
            Outcome::Splat => Points::new(0),
        }
    }

    /// Retire the man whose animation just finished: hang the next one, roll
    /// into the next level, or end the game. On game over the final tableau
    /// is left in place for the game-over screen.
    fn finish_man<S: EventSink>(&mut self, sink: &mut S)
        requires
            old(self).wf(),
            old(self).apply_ok(Next::FinishMan),
        ensures
            *final(self) == old(self).retired().0,
            final(self).wf(),
            S::keeps_events() ==> final(sink).kept() == old(sink).kept() + old(self).retired().1,
    {
        let ghost k0 = sink.kept();
        self.men_left = self.men_left - 1;
        let retired = Event::ManRetired { men_left: self.men_left };
        sink.emit(retired);
        if self.men_left > 0 {
            self.stuntman = Stuntman::Hanging;
            assert(k0.push(retired) =~= k0 + seq![retired]);
        } else if self.good_jumps >= MEN_PER_LEVEL {
            self.advance_level(sink);
            assert(k0.push(retired).push(Event::LevelCleared { level: self.progression.level })
                =~= k0 + seq![retired].push(Event::LevelCleared { level: self.progression.level }));
        } else {
            self.game_over(sink);
            assert(k0.push(retired).push(Event::GameEnded { score: self.score }) =~= k0
                + seq![retired].push(Event::GameEnded { score: self.score }));
        }
    }

    /// Roll into the next level: ramp the difficulty, restore five men, clear
    /// the level's results, hang a man, and raise the banner.
    fn advance_level<S: EventSink>(&mut self, sink: &mut S)
        requires
            old(self).wf(),
            old(self).progression.level.0 < i32::MAX,
        ensures
            *final(self) == (World {
                progression: old(self).progression.after_level_up(),
                men_left: MEN_PER_LEVEL,
                good_jumps: 0,
                results: no_results(),
                stuntman: Stuntman::Hanging,
                level_banner: LEVEL_BANNER_TICKS,
                ..*old(self)
            }),
            final(self).wf(),
            S::keeps_events() ==> final(sink).kept() == old(sink).kept().push(
                Event::LevelCleared { level: final(self).progression.level },
            ),
    {
        self.progression.level_up();
        self.men_left = MEN_PER_LEVEL;
        self.good_jumps = 0;
        self.results = [None; 5];
        self.stuntman = Stuntman::Hanging;
        self.level_banner = LEVEL_BANNER_TICKS;
        sink.emit(Event::LevelCleared { level: self.progression.level });
    }

    /// End the game: settle the high score and raise the game-over flag.
    fn game_over<S: EventSink>(&mut self, sink: &mut S)
        requires
            old(self).wf(),
        ensures
            *final(self) == (World {
                hiscore: if old(self).hiscore.0 >= old(self).score.0 {
                    old(self).hiscore
                } else {
                    old(self).score
                },
                over: true,
                ..*old(self)
            }),
            final(self).wf(),
            S::keeps_events() ==> final(sink).kept() == old(sink).kept().push(
                Event::GameEnded { score: old(self).score },
            ),
    {
        self.hiscore = self.hiscore.max(self.score);
        self.over = true;
        sink.emit(Event::GameEnded { score: self.score });
    }

    /// Idle animation for the attract screen: the copter hovers (rotor
    /// spins), the wagon strolls, and clouds drift — no gameplay.
    pub fn attract_tick(&mut self)
        requires
            old(self).wf(),
            old(self).wagon.tick_ok(old(self).progression.wagon.value()),
            old(self).next_phase() == 0 ==> old(self).cloud.tick_ok(),
        ensures
            *final(self) == old(self).after_attract(),
            final(self).wf(),
    {
        self.copter.animate();
        let speed = self.progression.wagon.px();
        self.wagon.tick(speed);
        self.phase = (self.phase + 1) % CLOUD_TICKS;
        if self.phase == 0 {
            let ghost s = self.rng.state();
            let ghost c = self.cloud;
            self.cloud.tick(&mut self.rng);
            proof {
                Rng::lemma_from_state(c.rng_after_tick(s));
                Rng::lemma_same_state(self.rng, Rng::from_state(c.rng_after_tick(s)));
            }
        }
    }

    /// Whether the world is well-formed and in play range for `intents` — the
    /// check a caller makes before each tick. When it holds, `tick` with
    /// these intents and `attract_tick` may both be called.
    pub fn can_tick(&self, intents: &Intents) -> (b: bool)
        ensures
            b == (self.wf() && self.in_play_range(*intents)),
            b ==> self.tick_ok(*intents),
            b ==> self.wagon.tick_ok(self.progression.wagon.value()) && (self.next_phase() == 0
                ==> self.cloud.tick_ok()),
    {
        let _ = self.progression.wagon.px();
        let _ = self.progression.gravity.px();
        let formed = self.copter.frame < 3 && self.wagon.phase < crate::wagon::ANIM_TICKS * 3
            && self.cloud.frame < 3 && self.phase < CLOUD_TICKS && match self.stuntman {
            Stuntman::Falling(f) => f.frame < 5,
            _ => true,
        };
        let man = match self.stuntman {
            Stuntman::Hanging => true,
            Stuntman::Falling(f) => coord(f.pos.x) && coord(f.pos.y) && coord(f.height_of_drop.0),
            Stuntman::Celebrating(fl) => fl.tick < CLOCK_LIMIT,
            Stuntman::Crashing(sp) => sp.tick < CLOCK_LIMIT,
        };
        let pins = match self.copter_pinned {
            Some(p) => coord(p.x) && coord(p.y),
            None => true,
        } && match self.wagon_pinned {
            Some(x) => coord(x),
            None => true,
        };
        let level = self.progression.level.0;
        let score = self.score.0;
        let b = formed && coord(self.copter.pos.x) && coord(self.copter.pos.y) && coord(
            self.copter.vel.dh,
        ) && coord(self.copter.vel.dv) && coord(intents.req.dh) && coord(intents.req.dv) && coord(
            self.wagon.x,
        ) && coord(self.cloud.pos.x) && coord(self.cloud.pos.y) && pins && man && coord(
            self.men_left,
        ) && coord(self.good_jumps) && -LEVEL_LIMIT <= level && level <= LEVEL_LIMIT
            && -SCORE_LIMIT <= score && score <= SCORE_LIMIT;
        proof {
            if b {
                lemma_play_range_ticks(*self, *intents);
            }
        }
        b
    }

    /// Start a fresh game, keeping the running high score and continuing the
    /// random stream so successive games do not replay identical wind.
    pub fn begin(&mut self)
        ensures
            *final(self) == (World {
                hiscore: old(self).hiscore,
                rng: old(self).rng,
                ..World::fresh()
            }),
            final(self).wf(),
    {
        let hiscore = self.hiscore;
        let rng = self.rng;
        *self = World::default();
        self.hiscore = hiscore;
        self.rng = rng;
    }

    /// Reseed the wind/cloud generator.
    pub fn reseed(&mut self, seed: u64)
        ensures
            final(self).rng.state() == crate::rng::seed_state(seed),
            *final(self) == (World { rng: final(self).rng, ..*old(self) }),
    {
        self.rng = Rng::new(seed);
    }

    /// Freeze the wagon at `Some(x)`, or let it roll again with `None`.
    pub fn pin_wagon(&mut self, x: Option<i32>)
        ensures
            *final(self) == (World { wagon_pinned: x, ..*old(self) }),
    {
        self.wagon_pinned = x;
    }

    /// Whether the wagon is currently pinned.
    pub fn wagon_pinned(&self) -> (b: bool)
        ensures
            b == self.wagon_pinned is Some,
    {
        self.wagon_pinned.is_some()
    }

    /// Hold the copter at `Some(pos)`, or let it fly with `None`.
    pub fn pin_copter(&mut self, pos: Option<Pos>)
        ensures
            *final(self) == (World { copter_pinned: pos, ..*old(self) }),
    {
        self.copter_pinned = pos;
    }

    /// The pinned copter position, if any.
    pub fn copter_pinned(&self) -> (p: Option<Pos>)
        ensures
            p == self.copter_pinned,
    {
        self.copter_pinned
    }

    /// The hanging man's top-left, tracking the copter.
    pub fn hang_pos(&self) -> (p: Pos)
        requires
            fits_i32(self.copter.pos.x + MAN_HANG_DH),
            fits_i32(self.copter.pos.y + MAN_HANG_DV),
        ensures
            p == self.hang_pos_spec(),
    {
        self.copter.pos + crate::config::man_hang_offset()
    }

    /// Current copter height above the ground, as shown in the HUD (never
    /// below zero).
    pub fn height(&self) -> (h: Height)
        requires
            fits_i32(self.copter.pos.y + COPTER_H),
            fits_i32(self.drop_height()),
        ensures
            h.0 == if self.drop_height() > 0 {
                self.drop_height()
            } else {
                0
            },
    {
        let d = GROUND_Y - (self.copter.pos.y + COPTER_H);
        Height::new(if d > 0 { d } else { 0 })
    }

    /// Zero-based index of the man currently in play (`0..=4`).
    pub fn current_man(&self) -> (i: usize)
        requires
            fits_i32(MEN_PER_LEVEL - self.men_left),
        ensures
            i == self.current_man_spec(),
            i < 5,
    {
        let d = MEN_PER_LEVEL - self.men_left;
        if d < 0 {
            0
        } else if d > MEN_PER_LEVEL - 1 {
            (MEN_PER_LEVEL - 1) as usize
        } else {
            d as usize
        }
    }

    /// Snapshot of interpolatable positions for smooth rendering.
    pub fn render_state(&self) -> (r: RenderState)
        ensures
            r.copter == self.copter.pos,
            r.wagon_x == self.wagon.x,
            r.cloud == self.cloud.pos,
            r.faller == match self.stuntman {
                Stuntman::Falling(f) => Some(f.pos),
                _ => None,
            },
    {
        RenderState {
            copter: self.copter.pos,
            wagon_x: self.wagon.x,
            cloud: self.cloud.pos,
            faller: match self.stuntman {
                Stuntman::Falling(f) => Some(f.pos),
                _ => None,
            },
        }
    }
}

} // verus!
