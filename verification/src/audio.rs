//! The sound rules of the game, without any audio device: which one-shot
//! sounds a tick's events call for, when the looping copter drone starts and
//! stops, the noise source the drone is built from, and the 16-bit PCM WAV
//! framing every generated sound is wrapped in.
use vstd::prelude::*;
use crate::event::Event;
use crate::score::{Height, Points};
use crate::stuntman::Outcome;

verus! {

/// Output sample rate of every generated sound, in Hz.
pub const SAMPLE_RATE: u32 = 22050;
/// Highest level the fanfare rises for; the octave doubles each level up to here.
pub const MAX_LEVEL: i32 = 5;

/// A continuously looping sound tied to game state (not to a one-off event).
#[derive(Clone, Copy, PartialEq, Eq, Structural, Debug)]
pub enum Ambient {
    Copter,
}

/// A one-shot sound to play.
#[derive(Clone, Copy, PartialEq, Eq, Structural, Debug)]
pub enum Cue {
    /// The success fanfare, the one at this index (`0..MAX_LEVEL`, one per level).
    Fanfare(usize),
    /// The crash buzz.
    Splat,
}

/// What to do with a looping sound this frame.
#[derive(Clone, Copy, PartialEq, Eq, Structural, Debug)]
pub enum LoopAction {
    Start,
    Stop,
    Keep,
}

/// Whether an outcome is a crash (any non-hay result).
pub open spec fn crash_spec(o: Outcome) -> bool {
    o != Outcome::Landed
}

/// The fanfare for `level`: one per level, the last one for every level past
/// `MAX_LEVEL`.
pub open spec fn fanfare_index_spec(level: i32) -> int {
    if level < 1 {
        0
    } else if level > MAX_LEVEL {
        MAX_LEVEL - 1
    } else {
        level - 1
    }
}

/// The sound one event calls for: the fanfare when a celebration starts, the
/// splat when a drop resolves as a crash, nothing otherwise.
pub open spec fn cue_of(e: Event, level: i32) -> Option<Cue> {
    match e {
        Event::CelebrationStarted => Some(Cue::Fanfare(fanfare_index_spec(level) as usize)),
        Event::Resolved { outcome, .. } => if crash_spec(outcome) {
            Some(Cue::Splat)
        } else {
            None
        },
        _ => None,
    }
}

/// The sounds a run of events calls for, in order.
pub open spec fn cues_spec(es: Seq<Event>, level: i32) -> Seq<Cue>
    decreases es.len(),
{
    if es.len() == 0 {
        Seq::empty()
    } else {
        let rest = cues_spec(es.drop_last(), level);
        match cue_of(es.last(), level) {
            Some(c) => rest.push(c),
            None => rest,
        }
    }
}

/// What a looping sound that is `on` must do to match `active`: start on a
/// rising edge, stop on a falling edge, nothing otherwise.
pub open spec fn loop_action_spec(on: bool, active: bool) -> LoopAction {
    if active && !on {
        LoopAction::Start
    } else if !active && on {
        LoopAction::Stop
    } else {
        LoopAction::Keep
    }
}

/// Whether an outcome is a crash (any non-hay result), which gets the splat.
pub fn is_crash(outcome: Outcome) -> (b: bool)
    ensures
        b == crash_spec(outcome),
{
    match outcome {
        Outcome::Landed => false,
        Outcome::Splat | Outcome::HitDriver | Outcome::HitHorse => true,
    }
}

/// The index of the fanfare for `level`, clamped to `1..=MAX_LEVEL`.
pub fn fanfare_index(level: i32) -> (i: usize)
    ensures
        i == fanfare_index_spec(level),
        i < MAX_LEVEL,
{
    if level < 1 {
        0
    } else if level > MAX_LEVEL {
        (MAX_LEVEL - 1) as usize
    } else {
        (level - 1) as usize
    }
}

/// The one-shot sounds this tick's events call for, in order. `level` pitches
/// the fanfare and is read from the current game state.
pub fn cues(events: &[Event], level: i32) -> (out: Vec<Cue>)
    ensures
        out@ == cues_spec(events@, level),
{
    let mut out: Vec<Cue> = Vec::new();
    let mut i: usize = 0;
    while i < events.len()
        invariant
            i <= events@.len(),
            out@ == cues_spec(events@.take(i as int), level),
        decreases events@.len() - i,
    {
        let e = events[i];
        assert(events@.take(i + 1).drop_last() =~= events@.take(i as int));
        match e {
            Event::CelebrationStarted => {
                out.push(Cue::Fanfare(fanfare_index(level)));
            },
            Event::Resolved { outcome, .. } => {
                if is_crash(outcome) {
                    out.push(Cue::Splat);
                }
            },
            _ => {},
        }
        i = i + 1;
    }
    assert(events@.take(events@.len() as int) =~= events@);
    out
}

/// What a looping sound that is `on` must do so that it plays exactly while
/// `active`. Calling it every frame is fine: it only acts on a change.
pub fn loop_action(on: bool, active: bool) -> (a: LoopAction)
    ensures
        a == loop_action_spec(on, active),
{
    if active && !on {
        LoopAction::Start
    } else if !active && on {
        LoopAction::Stop
    } else {
        LoopAction::Keep
    }
}

/// Driving a loop every frame is idempotent: once it follows `active`, the
/// next frame with the same `active` does nothing, and the loop ends up
/// sounding exactly when `active`.
pub proof fn lemma_loop_follows(on: bool, active: bool)
    ensures
        loop_action_spec(active, active) == LoopAction::Keep,
        (loop_action_spec(on, active) == LoopAction::Start) ==> active && !on,
        (loop_action_spec(on, active) == LoopAction::Stop) ==> !active && on,
        (loop_action_spec(on, active) == LoopAction::Keep) ==> on == active,
{
}

/// Every crash sounds the splat: an outcome is a crash exactly when it leaves
/// a wreck (the ground, the driver or the horse), and the events of a
/// resolved drop call for exactly one splat for a crash and nothing for a
/// hay landing — whether or not the crash-start event follows.
pub proof fn lemma_every_crash_sounds(o: Outcome, p: Points, h: Height, level: i32)
    ensures
        crash_spec(o) <==> crate::world::wreck_spec(o) is Some,
        crash_spec(o) <==> o != Outcome::Landed,
        cues_spec(seq![Event::Resolved { outcome: o, points: p, height: h }], level) == if o
            == Outcome::Landed {
            Seq::<Cue>::empty()
        } else {
            seq![Cue::Splat]
        },
        crate::world::wreck_spec(o) matches Some(wr) ==> cues_spec(
            seq![Event::Resolved { outcome: o, points: p, height: h }, Event::CrashStarted { wreck: wr }],
            level,
        ) == seq![Cue::Splat],
{
    let e = Event::Resolved { outcome: o, points: p, height: h };
    let s1 = seq![e];
    assert(s1.drop_last() =~= Seq::<Event>::empty());
    assert(cues_spec(Seq::<Event>::empty(), level) == Seq::<Cue>::empty());
    assert(Seq::<Cue>::empty().push(Cue::Splat) =~= seq![Cue::Splat]);
    assert(s1.last() == e);
    assert(cues_spec(s1, level) == if o == Outcome::Landed {
        Seq::<Cue>::empty()
    } else {
        seq![Cue::Splat]
    });
    if let Some(wr) = crate::world::wreck_spec(o) {
        let s2 = seq![e, Event::CrashStarted { wreck: wr }];
        assert(s2.drop_last() =~= s1);
        assert(s2.last() == Event::CrashStarted { wreck: wr });
        assert(cues_spec(s2, level) == cues_spec(s1, level));
    }
}

/// One xorshift32 step (shifts 13, 17, 5).
pub open spec fn xorshift32(x: u32) -> u32 {
    let a = x ^ (x << 13u32);
    let b = a ^ (a >> 17u32);
    b ^ (b << 5u32)
}

/// A tiny xorshift32 noise source, so synthesis needs no external generator.
pub struct Noise(pub u32);

impl Noise {
    /// The noise source's fixed starting state.
    pub fn new() -> (n: Self)
        ensures
            n.0 == 0x1234_5678,
    {
        Noise(0x1234_5678)
    }

    /// The next raw noise value; a synthesizer maps it onto `[-1, 1)`.
    pub fn next_u32(&mut self) -> (x: u32)
        ensures
            x == xorshift32(old(self).0),
            final(self).0 == x,
    {
        let mut x = self.0;
        x ^= x << 13u32;
        x ^= x >> 17u32;
        x ^= x << 5u32;
        self.0 = x;
        x
    }
}

/// `v` as two little-endian bytes.
pub open spec fn le16(v: u16) -> Seq<u8> {
    seq![(v % 256) as u8, (v / 256) as u8]
}

/// `v` as four little-endian bytes.
pub open spec fn le32(v: u32) -> Seq<u8> {
    seq![(v % 256) as u8, ((v / 256) % 256) as u8, ((v / 65536) % 256) as u8, (v / 16777216) as u8]
}

/// The 44-byte header of a mono 16-bit PCM WAV holding `n` samples at
/// `SAMPLE_RATE`.
pub open spec fn wav_header(n: nat) -> Seq<u8> {
    let data_len = (2 * n) as u32;
    "RIFF"@.map_values(|c: char| c as u8) + le32((36 + 2 * n) as u32) + "WAVE"@.map_values(
        |c: char| c as u8,
    ) + "fmt "@.map_values(|c: char| c as u8) + le32(16) + le16(1) + le16(1) + le32(
        SAMPLE_RATE,
    ) + le32((SAMPLE_RATE * 2) as u32) + le16(2) + le16(16) + "data"@.map_values(|c: char| c as u8)
        + le32(data_len)
}

/// The samples as little-endian two's-complement 16-bit values.
pub open spec fn pcm_bytes(samples: Seq<i16>) -> Seq<u8>
    decreases samples.len(),
{
    if samples.len() == 0 {
        Seq::empty()
    } else {
        pcm_bytes(samples.drop_last()) + le16(samples.last() as u16)
    }
}

fn push_le16(out: &mut Vec<u8>, v: u16)
    ensures
        final(out)@ == old(out)@ + le16(v),
{
    out.push((v % 256) as u8);
    out.push((v / 256) as u8);
    assert(final(out)@ =~= old(out)@ + le16(v));
}

fn push_le32(out: &mut Vec<u8>, v: u32)
    ensures
        final(out)@ == old(out)@ + le32(v),
{
    out.push((v % 256) as u8);
    out.push(((v / 256) % 256) as u8);
    out.push(((v / 65536) % 256) as u8);
    out.push((v / 16777216) as u8);
    assert(final(out)@ =~= old(out)@ + le32(v));
}

fn push_tag(out: &mut Vec<u8>, tag: &str)
    requires
        tag@.len() == 4,
        forall|i: int| 0 <= i < 4 ==> (tag@[i] as u32) < 128,
    ensures
        final(out)@ == old(out)@ + tag@.map_values(|c: char| c as u8),
{
    let ghost start = out@;
    let mut i: usize = 0;
    while i < 4
        invariant
            tag@.len() == 4,
            i <= 4,
            forall|j: int| 0 <= j < 4 ==> (tag@[j] as u32) < 128,
            out@ == start + tag@.subrange(0, i as int).map_values(|c: char| c as u8),
        decreases 4 - i,
    {
        let c = tag.get_char(i);
        out.push(c as u8);
        assert(tag@.subrange(0, i + 1).map_values(|c: char| c as u8) =~= tag@.subrange(
            0,
            i as int,
        ).map_values(|c: char| c as u8).push(c as u8));
        i = i + 1;
    }
    assert(tag@.subrange(0, 4) =~= tag@);
}

/// Wrap mono 16-bit samples as a PCM WAV byte buffer: the 44-byte header,
/// then each sample in little-endian order.
pub fn wav(samples: &[i16]) -> (out: Vec<u8>)
    requires
        36 + 2 * samples@.len() <= u32::MAX,
    ensures
        out@ == wav_header(samples@.len()) + pcm_bytes(samples@),
        out@.len() == 44 + 2 * samples@.len(),
{
    let n = samples.len();
    let data_len = (n * 2) as u32;
    let mut out: Vec<u8> = Vec::new();
    proof {
        reveal_strlit("RIFF");
        reveal_strlit("WAVE");
        reveal_strlit("fmt ");
        reveal_strlit("data");
    }
    push_tag(&mut out, "RIFF");
    push_le32(&mut out, 36 + data_len);
    push_tag(&mut out, "WAVE");
    push_tag(&mut out, "fmt ");
    push_le32(&mut out, 16);
    push_le16(&mut out, 1);
    push_le16(&mut out, 1);
    push_le32(&mut out, SAMPLE_RATE);
    push_le32(&mut out, SAMPLE_RATE * 2);
    push_le16(&mut out, 2);
    push_le16(&mut out, 16);
    push_tag(&mut out, "data");
    push_le32(&mut out, data_len);
    let ghost header = out@;
    assert(header =~= wav_header(n as nat));
    let mut i: usize = 0;
    while i < n
        invariant
            n == samples@.len(),
            i <= n,
            header.len() == 44,
            out@ == header + pcm_bytes(samples@.take(i as int)),
        decreases n - i,
    {
        assert(samples@.take(i + 1).drop_last() =~= samples@.take(i as int));
        push_le16(&mut out, samples[i] as u16);
        assert(out@ =~= header + pcm_bytes(samples@.take(i + 1)));
        i = i + 1;
    }
    assert(samples@.take(n as int) =~= samples@);
    proof {
        lemma_pcm_len(samples@);
    }
    out
}

/// Two bytes per sample.
pub proof fn lemma_pcm_len(s: Seq<i16>)
    ensures
        pcm_bytes(s).len() == 2 * s.len(),
    decreases s.len(),
{
    if s.len() > 0 {
        lemma_pcm_len(s.drop_last());
    }
}

} // verus!
