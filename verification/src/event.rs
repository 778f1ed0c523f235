//! Domain events emitted by the simulation, and the sink they flow into.
//!
//! [`crate::world::World::tick`] reports the meaningful things that happen — a
//! man dropped, landed, splatted, a level cleared, the game ended — to an
//! [`EventSink`] the caller passes in. The caller decides whether events are
//! collected at all: [`NoSink`] discards them, [`EventLog`] keeps them in
//! order.
use vstd::prelude::*;
use crate::score::{Height, Level, Points, Score};
use crate::stuntman::{Outcome, Wreck};

verus! {

/// Something the simulation did on a tick, in the order it happened.
#[derive(Clone, Copy, Debug, PartialEq, Eq, Structural)]
pub enum Event {
    /// The stuntman let go of the copter and began to fall.
    Dropped,
    /// A drop resolved: it was classified and scored. `points` is the score
    /// gained (0 unless landed) and `height` is the drop height.
    Resolved { outcome: Outcome, points: Points, height: Height },
    /// The success backflip animation began.
    CelebrationStarted,
    /// The crash animation began, leaving `wreck` behind when it finishes.
    CrashStarted { wreck: Wreck },
    /// A man's turn fully ended, with `men_left` still to play this level.
    ManRetired { men_left: i32 },
    /// All five men landed; the game advanced to `level`.
    LevelCleared { level: Level },
    /// The game ended, with this final `score`.
    GameEnded { score: Score },
}

/// A destination for [`Event`]s produced during a tick.
pub trait EventSink {
    /// The events this sink has kept, oldest first.
    spec fn kept(&self) -> Seq<Event>;

    /// Whether this sink keeps every event it is given, in order.
    spec fn keeps_events() -> bool;

    fn emit(&mut self, event: Event)
        ensures
            Self::keeps_events() ==> final(self).kept() == old(self).kept().push(event),
    ;
}

/// A sink that discards every event.
pub struct NoSink;

impl EventSink for NoSink {
    open spec fn kept(&self) -> Seq<Event> {
        Seq::empty()
    }

    open spec fn keeps_events() -> bool {
        false
    }

    fn emit(&mut self, event: Event) {
    }
}

/// A sink that collects events in order, for the debug UI and tests.
pub struct EventLog {
    events: Vec<Event>,
}

impl View for EventLog {
    type V = Seq<Event>;

    closed spec fn view(&self) -> Seq<Event> {
        self.events@
    }
}

impl Default for EventLog {
    fn default() -> (l: Self)
        ensures
            l@ == Seq::<Event>::empty(),
    {
        EventLog { events: Vec::new() }
    }
}

impl EventLog {
    /// The collected events, oldest first.
    pub fn events(&self) -> (es: &[Event])
        ensures
            es@ == self@,
    {
        self.events.as_slice()
    }

    /// Discard the collected events.
    pub fn clear(&mut self)
        ensures
            final(self)@ == Seq::<Event>::empty(),
    {
        self.events.clear();
    }
}

impl EventSink for EventLog {
    open spec fn kept(&self) -> Seq<Event> {
        self@
    }

    open spec fn keeps_events() -> bool {
        true
    }

    fn emit(&mut self, event: Event)
        ensures
            final(self)@ == old(self)@.push(event),
    {
        self.events.push(event);
    }
}

} // verus!
