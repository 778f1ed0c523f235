//! The score panel's rules, without drawing: the six numerals a score shows,
//! which numeral sprite stands for a digit, which thumb a resolved man gets,
//! and the two 1-bit fill patterns the panel is drawn with.
use vstd::prelude::*;
use crate::sprite::Sprite;
use crate::stuntman::Outcome;

verus! {

/// Integer division rounding toward zero, as machine `/` does.
pub open spec fn tdiv(x: int, d: int) -> int {
    if x >= 0 {
        x / d
    } else {
        -((-x) / d)
    }
}

/// The remainder that goes with [`tdiv`], as machine `%` does.
pub open spec fn trem(x: int, d: int) -> int {
    x - d * tdiv(x, d)
}

/// The six numerals the panel shows for `score`: its ten-thousands,
/// thousands, hundreds, tens and ones digits, then a trailing 0.
pub open spec fn score_digits_spec(score: i32) -> Seq<i32> {
    seq![
        trem(tdiv(score as int, 10000), 10) as i32,
        trem(tdiv(score as int, 1000), 10) as i32,
        trem(tdiv(score as int, 100), 10) as i32,
        trem(tdiv(score as int, 10), 10) as i32,
        trem(score as int, 10) as i32,
        0i32,
    ]
}

/// The six numerals to draw for `score`; the last is always 0, as the
/// panel shows it.
pub fn score_digits(score: i32) -> (d: [i32; 6])
    ensures
        d@ == score_digits_spec(score),
{
    let d = [
        (score / 10000) % 10,
        (score / 1000) % 10,
        (score / 100) % 10,
        (score / 10) % 10,
        score % 10,
        0,
    ];
    assert(d@ =~= score_digits_spec(score));
    d
}

/// For a score in `0..100000` the first five numerals are its decimal
/// digits, most significant first, so the panel reads the score times ten.
pub proof fn lemma_digits_spell_score(score: i32)
    requires
        0 <= score < 100000,
    ensures
        ({
            let d = score_digits_spec(score);
            &&& forall|i: int| 0 <= i < 6 ==> 0 <= #[trigger] d[i] <= 9
            &&& d[0] * 10000 + d[1] * 1000 + d[2] * 100 + d[3] * 10 + d[4] == score
        }),
{
    let s = score as int;
    assert(s / 10000 < 10);
    assert(s / 10000 % 10 == s / 10000);
    assert((s / 1000) % 10 == s / 1000 - 10 * (s / 10000)) by (nonlinear_arith)
        requires
            0 <= s < 100000,
    ;
    assert((s / 100) % 10 == s / 100 - 10 * (s / 1000)) by (nonlinear_arith)
        requires
            0 <= s,
    ;
    assert((s / 10) % 10 == s / 10 - 10 * (s / 100)) by (nonlinear_arith)
        requires
            0 <= s,
    ;
    assert(s % 10 == s - 10 * (s / 10)) by (nonlinear_arith)
        requires
            0 <= s,
    ;
    assert(0 <= (s / 1000) % 10 <= 9);
    assert(0 <= (s / 100) % 10 <= 9);
    assert(0 <= (s / 10) % 10 <= 9);
    assert(0 <= s % 10 <= 9);
}

/// The numeral sprite for digit `d` (anything above 8 shows a 9).
pub open spec fn digit_sprite_spec(d: i32) -> Sprite {
    if d == 0 {
        Sprite::Num0
    } else if d == 1 {
        Sprite::Num1
    } else if d == 2 {
        Sprite::Num2
    } else if d == 3 {
        Sprite::Num3
    } else if d == 4 {
        Sprite::Num4
    } else if d == 5 {
        Sprite::Num5
    } else if d == 6 {
        Sprite::Num6
    } else if d == 7 {
        Sprite::Num7
    } else if d == 8 {
        Sprite::Num8
    } else {
        Sprite::Num9
    }
}

/// The numeral sprite for a digit.
pub fn digit_sprite(d: i32) -> (s: Sprite)
    ensures
        s == digit_sprite_spec(d),
{
    match d {
        0 => Sprite::Num0,
        1 => Sprite::Num1,
        2 => Sprite::Num2,
        3 => Sprite::Num3,
        4 => Sprite::Num4,
        5 => Sprite::Num5,
        6 => Sprite::Num6,
        7 => Sprite::Num7,
        8 => Sprite::Num8,
        _ => Sprite::Num9,
    }
}

/// The thumb a man's result earns on the panel: up for a landing, down for
/// any crash, none while unresolved.
pub fn thumb(result: Option<Outcome>) -> (t: Option<bool>)
    ensures
        t == match result {
            Some(o) => Some(o == Outcome::Landed),
            None => None,
        },
{
    match result {
        Some(Outcome::Landed) => Some(true),
        Some(_) => Some(false),
        None => None,
    }
}

/// The dark-gray fill pattern: rows alternate `0x77` / `0xDD`, six of each
/// eight pixels set.
pub open spec fn dither_row(y: u32) -> u8 {
    if y % 2 == 0 {
        0x77
    } else {
        0xDD
    }
}

/// Whether pixel `(x, y)` of the HUD band's dark-gray fill is ink.
pub fn dither_pixel(x: u32, y: u32) -> (b: bool)
    ensures
        b == (((dither_row(y) >> ((7 - x % 8) as u8)) & 1u8) == 1u8),
{
    let row: u8 = if y % 2 == 0 {
        0x77
    } else {
        0xDD
    };
    let shift: u8 = (7 - x % 8) as u8;
    ((row >> shift) & 1u8) == 1u8
}

/// Whether pixel `(x, y)` of the 50% checkerboard covering the idle yoke is ink.
pub fn checker_pixel(x: u32, y: u32) -> (b: bool)
    ensures
        b == ((x as int + y as int) % 2 == 0),
{
    (x % 2) == (y % 2)
}

} // verus!
