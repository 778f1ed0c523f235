//! Debug and test controls: the state of a debug session that is not part
//! of the game model, and what its key presses do to the world.
//!
//! - `M` toggles mouse steering (keyboard-only when off);
//! - `K` pins/unpins the wagon at its current x;
//! - `P` pins/unpins the copter at its current position — while pinned, the
//!   arrow keys nudge it a few pixels at a time;
//! - `L` lines up a guaranteed landing: wagon centered and copter directly
//!   above the hay (Shift for a low drop).
//!
//! It also keeps the most recent simulation events for an on-screen log.
use std::collections::VecDeque;
use vstd::prelude::*;
use crate::config::{COPTER_H, GROUND_Y, MAN_H, MAN_HANG_DH, MAN_HANG_DV};
use crate::event::Event;
use crate::geom::{fits_i32, Pos};
use crate::intents::Intents;
use crate::level::GRAVITY_MAX;
use crate::score::{Height, Points};
use crate::stuntman::{Faller, Flip, Outcome, Stuntman};
use crate::world::{Next, World, LANDING_Y};

verus! {

/// Nudge step for the pinned copter, in logical pixels per key press.
pub const NUDGE: i32 = 4;
/// How many recent events the on-screen log keeps.
pub const LOG_CAP: usize = 8;
/// Where the man lands inside the hay for the line-up preset.
pub const HAY_INSET: i32 = 14;
/// Height the copter is placed at for the preset, high enough for a full drop.
pub const PRESET_COPTER_Y: i32 = 40;
/// A lower placement (Shift+L) for a near-instant drop.
pub const PRESET_COPTER_Y_LOW: i32 = 210;
/// The wagon's x for the preset: centered on the playfield, `(LOGICAL_W - WAGON_W) / 2`.
pub const PRESET_WAGON_X: i32 = 219;

/// This frame's debug key presses (`right`..`up` are the arrow keys).
#[derive(Clone, Copy)]
pub struct DebugKeys {
    pub toggle_mouse: bool,
    pub pin_wagon: bool,
    pub pin_copter: bool,
    pub line_up: bool,
    pub low: bool,
    pub right: bool,
    pub left: bool,
    pub down: bool,
    pub up: bool,
}

/// `1` for a pressed key, `0` otherwise.
pub open spec fn key(b: bool) -> int {
    if b {
        1
    } else {
        0
    }
}

/// Where the line-up preset holds the copter: the hanging man directly above
/// the hay, `HAY_INSET` pixels into the centered wagon, high or (`low`) low.
pub open spec fn preset_copter(low: bool) -> Pos {
    Pos {
        x: (PRESET_WAGON_X + HAY_INSET - MAN_HANG_DH) as i32,
        y: if low {
            PRESET_COPTER_Y_LOW
        } else {
            PRESET_COPTER_Y
        },
    }
}

/// The wagon and copter pins after `k` is applied to a world with pins
/// `wp`, `cp`, wagon at `wagon_x` and copter at `copter`, before nudging.
pub open spec fn pins_after(
    wp: Option<i32>,
    cp: Option<Pos>,
    wagon_x: i32,
    copter: Pos,
    k: DebugKeys,
) -> (Option<i32>, Option<Pos>) {
    let wp1 = if k.pin_wagon {
        if wp is None {
            Some(wagon_x)
        } else {
            None
        }
    } else {
        wp
    };
    let cp1 = if k.pin_copter {
        if cp is None {
            Some(copter)
        } else {
            None
        }
    } else {
        cp
    };
    if k.line_up {
        (Some(PRESET_WAGON_X), Some(preset_copter(k.low)))
    } else {
        (wp1, cp1)
    }
}

/// A pinned copter position nudged by the arrow keys.
pub open spec fn nudged(p: Pos, k: DebugKeys) -> Pos {
    Pos {
        x: (p.x + NUDGE * (key(k.right) - key(k.left))) as i32,
        y: (p.y + NUDGE * (key(k.down) - key(k.up))) as i32,
    }
}

/// Whether nudging `p` stays inside `i32` arithmetic.
pub open spec fn nudge_ok(p: Pos, k: DebugKeys) -> bool {
    fits_i32(p.x + NUDGE * (key(k.right) - key(k.left))) && fits_i32(
        p.y + NUDGE * (key(k.down) - key(k.up)),
    )
}

/// The last `LOG_CAP` events of `s`.
pub open spec fn keep_last(s: Seq<Event>) -> Seq<Event> {
    if s.len() > LOG_CAP {
        s.subrange(s.len() - LOG_CAP, s.len() as int)
    } else {
        s
    }
}

/// Ticks a man dropped from the line-up preset needs at most to reach the
/// wagon: his fall distance, at the slowest gravity of one pixel per tick.
pub open spec fn line_up_fall_ticks(low: bool) -> int {
    LANDING_Y - MAN_H + 1 - (preset_copter(low).y + MAN_HANG_DV)
}

/// A man falling straight down over the hay, clear of the cloud, lands in it:
/// within `m` ticks (his remaining fall distance or more) the world reports
/// the landing, scored `level * height`, and starts the celebration.
proof fn lemma_fall_lands(w: World, f: Faller, i: Intents, m: nat) -> (k: nat)
    requires
        w.stuntman == Stuntman::Falling(f),
        w.wagon_pinned == Some(PRESET_WAGON_X),
        f.pos.x == PRESET_WAGON_X + HAY_INSET,
        f.pos.y + MAN_H <= LANDING_Y,
        1 <= w.progression.gravity.value() <= GRAVITY_MAX,
        m >= LANDING_Y - MAN_H + 1 - f.pos.y,
        w.clear_of_cloud(i, m),
    ensures
        k < m,
        w.run(i, k).tick_events(i)[0] == (Event::Resolved {
            outcome: Outcome::Landed,
            points: Points((w.progression.level.0 * f.height_of_drop.0) as i32),
            height: f.height_of_drop,
        }),
        w.run(i, k + 1).stuntman == Stuntman::Celebrating(Flip { tick: 0 }),
    decreases m,
{
    let w1 = w.moved(i);
    assert(w1.stuntman == w.stuntman);
    assert(!w1.in_cloud(f));
    let f2 = w1.fallen(f);
    assert(f2 == f.after_fall(w.progression.gravity.value()));
    assert(f2.pos.y == f.pos.y + w.progression.gravity.value());
    if f2.pos.y + MAN_H > LANDING_Y {
        assert(w1.landing(f2) == Next::Land(Outcome::Landed, f.height_of_drop, f2.pos.x));
        assert(w.run(i, 0) == w);
        assert(w.run(i, 1) == w.after_tick(i).run(i, 0));
        0
    } else {
        let w2 = w.after_tick(i);
        assert(w2.stuntman == Stuntman::Falling(f2));
        assert(w2.wagon_pinned == w.wagon_pinned);
        assert(w2.progression == w.progression);
        let k2 = lemma_fall_lands(w2, f2, i, (m - 1) as nat);
        assert(w.run(i, k2 + 1) == w2.run(i, k2));
        assert(w.run(i, k2 + 2) == w2.run(i, k2 + 1));
        k2 + 1
    }
}

/// The line-up preset is a guaranteed landing: with the wagon pinned in the
/// middle and the copter pinned over the hay, dropping the hanging man
/// starts a straight fall, and unless the cloud drifts into his path (where a
/// gust could push him), within `line_up_fall_ticks(low)` ticks he lands in
/// the hay, scores `level * height` and the celebration starts — whatever
/// steady input the player holds meanwhile.
pub proof fn lemma_line_up_celebrates(w: World, low: bool, first: Intents, i: Intents, n: nat)
    requires
        w.stuntman is Hanging,
        w.wagon_pinned == Some(PRESET_WAGON_X),
        w.copter_pinned == Some(preset_copter(low)),
        1 <= w.progression.gravity.value() <= GRAVITY_MAX,
        first.drop,
        n >= line_up_fall_ticks(low),
        w.after_tick(first).clear_of_cloud(i, n),
    ensures
        w.tick_events(first) == seq![Event::Dropped],
        w.after_tick(first).stuntman is Falling,
        exists|k: nat|
            k < n && (#[trigger] w.after_tick(first).run(i, k)).tick_events(i)[0] == (
            Event::Resolved {
                outcome: Outcome::Landed,
                points: Points(
                    (w.progression.level.0 * (GROUND_Y - (preset_copter(low).y + COPTER_H))) as i32,
                ),
                height: Height((GROUND_Y - (preset_copter(low).y + COPTER_H)) as i32),
            }) && w.after_tick(first).run(i, k + 1).stuntman == Stuntman::Celebrating(
                Flip { tick: 0 },
            ),
{
    let w1 = w.moved(first);
    assert(w1.copter.pos == preset_copter(low));
    let w2 = w.after_tick(first);
    let f = Faller {
        pos: w1.hang_pos_spec(),
        height_of_drop: Height(w1.drop_height() as i32),
        frame: 0,
    };
    assert(w2.stuntman == Stuntman::Falling(f));
    let _k = lemma_fall_lands(w2, f, i, n);
}

/// Debug-session state that is not part of the game model.
pub struct Debug {
    mouse_steer: bool,
    /// The most recent simulation events, newest last.
    log: VecDeque<Event>,
}

impl Debug {
    /// The log never holds more than `LOG_CAP` events.
    pub closed spec fn wf(self) -> bool {
        self.log@.len() <= LOG_CAP
    }

    /// Whether the mouse steers.
    pub closed spec fn steers(self) -> bool {
        self.mouse_steer
    }

    /// The kept events, oldest first.
    pub closed spec fn kept(self) -> Seq<Event> {
        self.log@
    }

    pub fn new() -> (d: Self)
        ensures
            d.wf(),
            d.steers(),
            d.kept() == Seq::<Event>::empty(),
    {
        Debug { mouse_steer: true, log: VecDeque::new() }
    }

    /// Whether the mouse currently steers the copter (off = keyboard only).
    pub fn mouse_steer(&self) -> (b: bool)
        ensures
            b == self.steers(),
    {
        self.mouse_steer
    }

    /// The kept events, oldest first.
    pub fn recent(&self) -> (es: Vec<Event>)
        ensures
            es@ == self.kept(),
    {
        let mut es: Vec<Event> = Vec::new();
        let n = self.log.len();
        let mut i: usize = 0;
        while i < n
            invariant
                n == self.log@.len(),
                i <= n,
                es@ == self.log@.take(i as int),
            decreases n - i,
        {
            es.push(self.log[i]);
            assert(es@ =~= self.log@.take(i + 1));
            i = i + 1;
        }
        assert(self.log@.take(n as int) =~= self.log@);
        es
    }

    /// Whether `update(world, keys)` may be called: the copter pin this
    /// frame's keys produce (if any) can be nudged without leaving `i32`.
    pub fn can_update(&self, world: &World, keys: DebugKeys) -> (b: bool)
        ensures
            b == ({
                let (wp, cp) = pins_after(
                    world.wagon_pinned,
                    world.copter_pinned,
                    world.wagon.x,
                    world.copter.pos,
                    keys,
                );
                cp matches Some(p) ==> nudge_ok(p, keys)
            }),
    {
        let cp: Option<Pos> = if keys.line_up {
            let y = if keys.low {
                PRESET_COPTER_Y_LOW
            } else {
                PRESET_COPTER_Y
            };
            Some(Pos::new(PRESET_WAGON_X + HAY_INSET - MAN_HANG_DH, y))
        } else if keys.pin_copter {
            if world.copter_pinned.is_none() {
                Some(world.copter.pos)
            } else {
                None
            }
        } else {
            world.copter_pinned
        };
        match cp {
            Some(p) => {
                let r: i64 = if keys.right { 1 } else { 0 };
                let l: i64 = if keys.left { 1 } else { 0 };
                let d: i64 = if keys.down { 1 } else { 0 };
                let u: i64 = if keys.up { 1 } else { 0 };
                let x = p.x as i64 + 4 * (r - l);
                let y = p.y as i64 + 4 * (d - u);
                i32::MIN as i64 <= x && x <= i32::MAX as i64 && i32::MIN as i64 <= y && y
                    <= i32::MAX as i64
            },
            None => true,
        }
    }

    /// Apply this frame's debug key presses to `world` and to the session.
    pub fn update(&mut self, world: &mut World, keys: DebugKeys)
        requires
            ({
                let (wp, cp) = pins_after(
                    old(world).wagon_pinned,
                    old(world).copter_pinned,
                    old(world).wagon.x,
                    old(world).copter.pos,
                    keys,
                );
                cp matches Some(p) ==> nudge_ok(p, keys)
            }),
        ensures
            final(self).steers() == (old(self).steers() != keys.toggle_mouse),
            final(self).kept() == old(self).kept(),
            old(self).wf() ==> final(self).wf(),
            ({
                let (wp, cp) = pins_after(
                    old(world).wagon_pinned,
                    old(world).copter_pinned,
                    old(world).wagon.x,
                    old(world).copter.pos,
                    keys,
                );
                *final(world) == (World {
                    wagon_pinned: wp,
                    copter_pinned: match cp {
                        Some(p) => Some(nudged(p, keys)),
                        None => None,
                    },
                    ..*old(world)
                })
            }),
    {
        if keys.toggle_mouse {
            self.mouse_steer = !self.mouse_steer;
        }
        if keys.pin_wagon {
            let pin = if !world.wagon_pinned() {
                Some(world.wagon.x)
            } else {
                None
            };
            world.pin_wagon(pin);
        }
        if keys.pin_copter {
            let pin = if world.copter_pinned().is_none() {
                Some(world.copter.pos)
            } else {
                None
            };
            world.pin_copter(pin);
        }
        if keys.line_up {
            let y = if keys.low {
                PRESET_COPTER_Y_LOW
            } else {
                PRESET_COPTER_Y
            };
            world.pin_wagon(Some(PRESET_WAGON_X));
            world.pin_copter(Some(Pos::new(PRESET_WAGON_X + HAY_INSET - MAN_HANG_DH, y)));
        }
        if let Some(pos) = world.copter_pinned() {
            let dx = NUDGE * (keys.right as i32 - keys.left as i32);
            let dy = NUDGE * (keys.down as i32 - keys.up as i32);
            world.pin_copter(Some(Pos::new(pos.x + dx, pos.y + dy)));
        }
    }

    /// Record this frame's simulation events into the rolling log, which
    /// keeps only the newest `LOG_CAP`.
    pub fn record(&mut self, events: &[Event])
        requires
            old(self).wf(),
        ensures
            final(self).wf(),
            final(self).kept() == keep_last(old(self).kept() + events@),
            final(self).steers() == old(self).steers(),
    {
        let ghost start = self.log@;
        let mut i: usize = 0;
        while i < events.len()
            invariant
                i <= events@.len(),
                self.log@ == keep_last(start + events@.take(i as int)),
                self.log@.len() <= LOG_CAP,
                self.mouse_steer == old(self).mouse_steer,
                start == old(self).log@,
                start.len() <= LOG_CAP,
            decreases events@.len() - i,
        {
            let e = events[i];
            let ghost before = start + events@.take(i as int);
            let ghost after = start + events@.take(i + 1);
            assert(after =~= before.push(e));
            if self.log.len() == LOG_CAP {
                self.log.pop_front();
            }
            self.log.push_back(e);
            assert(self.log@ =~= keep_last(after));
            i = i + 1;
        }
        assert(events@.take(events@.len() as int) =~= events@);
    }
}

impl Default for Debug {
    fn default() -> (d: Self)
        ensures
            d.wf(),
            d.steers(),
            d.kept() == Seq::<Event>::empty(),
    {
        Debug::new()
    }
}

} // verus!
