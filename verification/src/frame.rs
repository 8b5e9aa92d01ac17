//! The frame loop's compute path: advance the animation counters, render
//! the active pattern, pack every LED into its wire word, and hand the
//! words to the channel in strip order under backpressure.

use crate::channel::PixelChannel;
use crate::color::Rgb;
use crate::pattern::{render_frame, select_pattern, spec_led, spec_select_pattern, PatternKind};
use vstd::prelude::*;

verus! {

/// The frame loop's animation counters. Both are 8-bit and wrap.
#[derive(Copy, Clone, Debug, PartialEq, Eq, Structural)]
pub struct AnimationState {
    pub step: u8,
    pub offset: u8,
}

impl AnimationState {
    /// The state at startup: both counters at zero.
    pub fn new() -> (s: AnimationState)
        ensures
            s.step == 0,
            s.offset == 0,
    {
        AnimationState { step: 0, offset: 0 }
    }

    /// Advance to the next frame: the step counter increments, wrapping
    /// at 256, and on every fourth step the hue offset advances by 8,
    /// also wrapping.
    pub fn advance(&mut self)
        ensures
            final(self).step as int == (old(self).step as int + 1) % 256,
            (old(self).step as int + 1) % 256 % 4 == 0 ==> final(self).offset as int == (old(
                self,
            ).offset as int + 8) % 256,
            (old(self).step as int + 1) % 256 % 4 != 0 ==> final(self).offset == old(self).offset,
    {
        let stepped: u16 = (self.step as u16 + 1) % 256;
        self.step = stepped as u8;
        if self.step % 4 == 0 {
            let shifted: u16 = (self.offset as u16 + 8) % 256;
            self.offset = shifted as u8;
        }
    }
}

/// Pack a rendered strip into its wire words, one per LED, in strip
/// order.
pub fn frame_words(strip: &Vec<Rgb>) -> (words: Vec<u32>)
    ensures
        words@.len() == strip@.len(),
        forall|i: int| 0 <= i < strip@.len() ==> words@[i] == strip@[i].spec_grb24(),
{
    let mut words: Vec<u32> = Vec::new();
    let mut i: usize = 0;
    while i < strip.len()
        invariant
            i <= strip@.len(),
            words@.len() == i,
            forall|j: int| 0 <= j < i ==> words@[j] == strip@[j].spec_grb24(),
        decreases strip@.len() - i,
    {
        words.push(strip[i].to_grb24());
        i = i + 1;
    }
    words
}

/// The wire words of the frame at a given animation state: the pattern
/// scheduled for the step is rendered over `n` LEDs and every LED is
/// packed, in strip order.
pub fn next_frame_words(state: AnimationState, n: usize) -> (words: Vec<u32>)
    requires
        0 < n <= 0xFFFF,
    ensures
        words@.len() == n,
        forall|i: int|
            0 <= i < n ==> words@[i] == spec_led(
                spec_select_pattern(state.step as nat),
                n as int,
                state.step,
                state.offset,
                i,
            ).spec_grb24(),
{
    let kind: PatternKind = select_pattern(state.step);
    let strip = render_frame(kind, n, state.step, state.offset);
    frame_words(&strip)
}

/// Push a frame's words into the channel in strip order, with the
/// serializer's concurrent drain modeled by `drained`: whenever the
/// channel is full the producer waits for the drain instead of dropping.
/// Conservation: drained words followed by the queue equal the old
/// drained words, the old queue and the whole frame, in that order.
pub fn push_frame(ch: &mut PixelChannel, words: &Vec<u32>, drained: &mut Vec<u32>)
    requires
        old(ch).wf(),
    ensures
        final(ch).wf(),
        final(ch).spec_capacity() == old(ch).spec_capacity(),
        final(drained)@ + final(ch)@ == old(drained)@ + old(ch)@ + words@,
{
    let ghost base = old(drained)@ + old(ch)@;
    let mut i: usize = 0;
    while i < words.len()
        invariant
            i <= words@.len(),
            ch.wf(),
            ch.spec_capacity() == old(ch).spec_capacity(),
            drained@ + ch@ == base + words@.subrange(0, i as int),
        decreases words@.len() - i,
    {
        let ghost d_pre = drained@;
        let ghost c_pre = ch@;
        ch.push_blocking(words[i], drained);
        proof {
            assert(drained@ + ch@ =~= (d_pre + c_pre) + seq![words@[i as int]]);
            assert((d_pre + c_pre) + seq![words@[i as int]] =~= base + words@.subrange(
                0,
                i as int + 1,
            ));
        }
        i = i + 1;
    }
    proof {
        assert(base + words@.subrange(0, words@.len() as int) =~= old(drained)@ + old(ch)@
            + words@);
    }
}

} // verus!
