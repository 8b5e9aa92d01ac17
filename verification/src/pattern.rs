//! Pure pattern generation: the cyclic hue wheel and the four animation
//! patterns that fill a strip from a step counter and a hue offset.

use crate::color::Rgb;
use vstd::prelude::*;

verus! {

/// Color at a position on the cyclic hue wheel. The 0..256 domain splits
/// into three 85-wide segments (red to green, green to blue, blue back to
/// red); within a segment one channel ramps down by 3 per unit, the next
/// ramps up by 3 per unit, and the third is held at 0.
pub open spec fn spec_rainbow(pos: u8) -> Rgb {
    if pos < 85 {
        Rgb { r: (255 - 3 * (pos as int)) as u8, g: (3 * (pos as int)) as u8, b: 0 }
    } else if pos < 170 {
        Rgb {
            r: 0,
            g: (255 - 3 * (pos as int - 85)) as u8,
            b: (3 * (pos as int - 85)) as u8,
        }
    } else {
        Rgb {
            r: (3 * (pos as int - 170)) as u8,
            g: 0,
            b: (255 - 3 * (pos as int - 170)) as u8,
        }
    }
}

/// Generate a rainbow color based on position (0-255).
pub fn rainbow(pos: u8) -> (c: Rgb)
    ensures
        c == spec_rainbow(pos),
{
    if pos < 85 {
        Rgb::new(255 - pos * 3, pos * 3, 0)
    } else if pos < 170 {
        let off = pos - 85;
        Rgb::new(0, 255 - off * 3, off * 3)
    } else {
        let off = pos - 170;
        Rgb::new(off * 3, 0, 255 - off * 3)
    }
}

/// The four seam positions where the hue wheel hands over from one
/// segment to the next and lands on a pure primary color.
pub open spec fn spec_seam(pos: u8) -> bool {
    pos == 0 || pos == 85 || pos == 170 || pos == 255
}

/// How many of a color's three channels are exactly 0.
pub open spec fn spec_zero_channels(c: Rgb) -> int {
    (if c.r == 0 { 1int } else { 0 }) + (if c.g == 0 { 1int } else { 0 }) + (if c.b == 0 {
        1int
    } else {
        0
    })
}

/// Channel structure of the hue wheel: each segment holds one channel at
/// 0 while the two active channels sum to exactly 255; strictly inside a
/// segment exactly one channel is 0, and at a seam two are.
pub proof fn lemma_rainbow_channels(pos: u8)
    ensures
        pos < 85 ==> spec_rainbow(pos).b == 0 && spec_rainbow(pos).r + spec_rainbow(pos).g == 255,
        85 <= pos < 170 ==> spec_rainbow(pos).r == 0 && spec_rainbow(pos).g + spec_rainbow(
            pos,
        ).b == 255,
        170 <= pos ==> spec_rainbow(pos).g == 0 && spec_rainbow(pos).r + spec_rainbow(pos).b
            == 255,
        spec_seam(pos) ==> spec_zero_channels(spec_rainbow(pos)) == 2,
        !spec_seam(pos) ==> spec_zero_channels(spec_rainbow(pos)) == 1,
{
}

/// The hue wheel never produces black: some channel is always lit.
pub proof fn lemma_rainbow_not_black(pos: u8)
    ensures
        !spec_rainbow(pos).is_black(),
{
    lemma_rainbow_channels(pos);
}

/// The four animation patterns the frame loop cycles through.
#[derive(Copy, Clone, Debug, PartialEq, Eq, Structural)]
pub enum PatternKind {
    Wave,
    Solid,
    Chase,
    Sparkle,
}

/// Index of the active pattern at a step count: the schedule dwells 50
/// steps on each of the four patterns in turn.
pub open spec fn spec_pattern_index(step: nat) -> nat {
    (step / 50) % 4
}

/// The pattern scheduled at a step count, as a function of the step alone.
pub open spec fn spec_select_pattern(step: nat) -> PatternKind {
    let i = spec_pattern_index(step);
    if i == 0 {
        PatternKind::Wave
    } else if i == 1 {
        PatternKind::Solid
    } else if i == 2 {
        PatternKind::Chase
    } else {
        PatternKind::Sparkle
    }
}

/// Pick the animation pattern for the given step of the frame loop.
pub fn select_pattern(step: u8) -> (k: PatternKind)
    ensures
        k == spec_select_pattern(step as nat),
{
    let i: u8 = (step / 50) % 4;
    if i == 0 {
        PatternKind::Wave
    } else if i == 1 {
        PatternKind::Solid
    } else if i == 2 {
        PatternKind::Chase
    } else {
        PatternKind::Sparkle
    }
}

/// The pattern schedule is periodic: four patterns of fifty steps each,
/// so the pattern selected at step `step + 200` is the one at `step`.
pub proof fn lemma_pattern_period(step: nat)
    ensures
        spec_select_pattern(step + 200) == spec_select_pattern(step),
        spec_pattern_index(step + 200) == spec_pattern_index(step),
{
    assert((step + 200) / 50 == step / 50 + 4) by (nonlinear_arith);
    assert((step / 50 + 4) % 4 == (step / 50) % 4) by (nonlinear_arith);
}

/// Color of LED `i` in a strip of `n` LEDs under the given pattern, step
/// and hue offset. All counter arithmetic wraps modulo 256, matching the
/// 8-bit counters of the frame loop.
pub open spec fn spec_led(kind: PatternKind, n: int, step: u8, offset: u8, i: int) -> Rgb
    recommends
        0 < n,
        0 <= i < n,
{
    match kind {
        PatternKind::Wave => spec_rainbow((((offset as int) + i * 255 / n) % 256) as u8),
        PatternKind::Solid => spec_rainbow(offset),
        PatternKind::Chase => if i == ((step as int) / 5) % n {
            spec_rainbow(offset)
        } else {
            Rgb { r: 0, g: 0, b: 0 }
        },
        PatternKind::Sparkle => if i == (((step as int) * 17) % 256) % n {
            Rgb { r: 255, g: 255, b: 255 }
        } else {
            Rgb { r: 0, g: 0, b: 0 }
        },
    }
}

/// In a Chase frame exactly one LED is lit: the LED at index
/// `(step / 5) % n` shows the hue wheel color at the current offset,
/// which is never black, and every other LED is exactly black.
pub proof fn lemma_chase_one_lit(n: int, step: u8, offset: u8, i: int)
    requires
        0 < n,
        0 <= i < n,
    ensures
        i == ((step as int) / 5) % n ==> spec_led(PatternKind::Chase, n, step, offset, i)
            == spec_rainbow(offset) && !spec_led(PatternKind::Chase, n, step, offset, i).is_black(),
        i != ((step as int) / 5) % n ==> spec_led(PatternKind::Chase, n, step, offset, i) == (Rgb {
            r: 0,
            g: 0,
            b: 0,
        }),
{
    lemma_rainbow_not_black(offset);
}

/// In a Sparkle frame exactly one LED is lit: the LED at index
/// `(step * 17 mod 256) % n` is pure white and every other LED is
/// exactly black.
pub proof fn lemma_sparkle_one_white(n: int, step: u8, i: int)
    requires
        0 < n,
        0 <= i < n,
    ensures
        i == (((step as int) * 17) % 256) % n ==> forall|offset: u8|
            spec_led(PatternKind::Sparkle, n, step, offset, i) == (Rgb {
                r: 255,
                g: 255,
                b: 255,
            }),
        i != (((step as int) * 17) % 256) % n ==> forall|offset: u8|
            spec_led(PatternKind::Sparkle, n, step, offset, i) == (Rgb { r: 0, g: 0, b: 0 }),
{
}

/// Color of one LED of the frame: a scrolling rainbow for Wave, a single
/// cycling hue for Solid, one lit LED walking the strip for Chase, and
/// one white LED at a pseudo-random position for Sparkle.
pub fn led_color(kind: PatternKind, n: usize, step: u8, offset: u8, i: usize) -> (c: Rgb)
    requires
        0 < n <= 0xFFFF,
        i < n,
    ensures
        c == spec_led(kind, n as int, step, offset, i as int),
{
    match kind {
        PatternKind::Wave => {
            let pos: usize = ((offset as usize) + i * 255 / n) % 256;
            rainbow(pos as u8)
        },
        PatternKind::Solid => rainbow(offset),
        PatternKind::Chase => {
            let lit: usize = ((step as usize) / 5) % n;
            if i == lit {
                rainbow(offset)
            } else {
                Rgb::new(0, 0, 0)
            }
        },
        PatternKind::Sparkle => {
            let lit: usize = ((step as usize) * 17 % 256) % n;
            if i == lit {
                Rgb::new(255, 255, 255)
            } else {
                Rgb::new(0, 0, 0)
            }
        },
    }
}

/// Fill a strip of `n` LEDs for one frame of the given pattern.
pub fn render_frame(kind: PatternKind, n: usize, step: u8, offset: u8) -> (strip: Vec<Rgb>)
    requires
        0 < n <= 0xFFFF,
    ensures
        strip@.len() == n,
        forall|i: int| 0 <= i < n ==> strip@[i] == spec_led(kind, n as int, step, offset, i),
{
    let mut strip: Vec<Rgb> = Vec::new();
    let mut i: usize = 0;
    while i < n
        invariant
            0 < n <= 0xFFFF,
            i <= n,
            strip@.len() == i,
            forall|j: int| 0 <= j < i ==> strip@[j] == spec_led(kind, n as int, step, offset, j),
        decreases n - i,
    {
        let c = led_color(kind, n, step, offset, i);
        strip.push(c);
        i = i + 1;
    }
    strip
}

} // verus!
