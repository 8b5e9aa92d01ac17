//! Model of the bit serializer: it drains wire words from the channel
//! and turns every bit into one pulse of fixed total duration, most
//! significant bit first, with word boundaries invisible on the wire.

use crate::channel::PixelChannel;
use vstd::prelude::*;

verus! {

/// Nanoseconds the line stays high for an encoded 0 bit.
pub const ZERO_HIGH_NS: u32 = 400;

/// Nanoseconds the line stays low for an encoded 0 bit.
pub const ZERO_LOW_NS: u32 = 850;

/// Nanoseconds the line stays high for an encoded 1 bit.
pub const ONE_HIGH_NS: u32 = 800;

/// Nanoseconds the line stays low for an encoded 1 bit.
pub const ONE_LOW_NS: u32 = 450;

/// Total duration of one encoded bit: the same for both bit values, so
/// the bit rate is constant and only the high/low split carries the bit.
pub const BIT_PERIOD_NS: u32 = 1250;

/// One pulse of the output waveform: the line is driven high for
/// `high_ns` nanoseconds, then low for `low_ns` nanoseconds.
#[derive(Copy, Clone, Debug, PartialEq, Eq, Structural)]
pub struct Pulse {
    pub high_ns: u32,
    pub low_ns: u32,
}

/// The pulse that encodes one bit: a long high phase for a 1, a short
/// one for a 0, the remainder of the period low either way.
pub open spec fn spec_pulse(bit: bool) -> Pulse {
    if bit {
        Pulse { high_ns: ONE_HIGH_NS, low_ns: ONE_LOW_NS }
    } else {
        Pulse { high_ns: ZERO_HIGH_NS, low_ns: ZERO_LOW_NS }
    }
}

/// Constant bit period: whichever value a bit has, its encoded high time
/// plus low time is the same total, `BIT_PERIOD_NS`.
pub proof fn lemma_constant_bit_period(bit: bool)
    ensures
        spec_pulse(bit).high_ns + spec_pulse(bit).low_ns == BIT_PERIOD_NS,
{
}

/// Bit `i` of a wire word, counting the most significant of the low 24
/// bits as bit 0: the order in which the serializer shifts them out.
pub open spec fn spec_word_bit(w: u32, i: int) -> bool {
    (w >> ((23 - i) as u32)) & 1 == 1
}

/// Extract transmit bit `i` of a wire word.
pub fn word_bit(w: u32, i: usize) -> (b: bool)
    requires
        i < 24,
    ensures
        b == spec_word_bit(w, i as int),
{
    let sh: u32 = (23 - i) as u32;
    (w >> sh) & 1 == 1
}

/// The pulse that the serializer emits for transmit bit `i` of a word.
pub open spec fn spec_bit_pulse(w: u32, i: int) -> Pulse {
    spec_pulse(spec_word_bit(w, i))
}

/// Encode one bit as its pulse.
pub fn bit_pulse(bit: bool) -> (p: Pulse)
    ensures
        p == spec_pulse(bit),
        p.high_ns + p.low_ns == BIT_PERIOD_NS,
{
    if bit {
        Pulse { high_ns: ONE_HIGH_NS, low_ns: ONE_LOW_NS }
    } else {
        Pulse { high_ns: ZERO_HIGH_NS, low_ns: ZERO_LOW_NS }
    }
}

/// The 24 pulses that serialize one wire word, most significant bit
/// first.
pub open spec fn spec_word_pulses(w: u32) -> Seq<Pulse> {
    Seq::new(24, |i: int| spec_bit_pulse(w, i))
}

/// The pulse train for a whole sequence of wire words: each word's 24
/// pulses, concatenated in word order with no gap — word boundaries are
/// invisible in the waveform.
pub open spec fn spec_stream_pulses(words: Seq<u32>) -> Seq<Pulse>
    decreases words.len(),
{
    if words.len() == 0 {
        Seq::<Pulse>::empty()
    } else {
        spec_word_pulses(words[0]) + spec_stream_pulses(words.drop_first())
    }
}

/// Pulse `24 * j + i` of a pulse train is pulse `i` of word `j`: the
/// drain order of the words fixes the position of every pulse.
pub proof fn lemma_stream_pulse_index(words: Seq<u32>, j: int, i: int)
    requires
        0 <= j < words.len(),
        0 <= i < 24,
    ensures
        spec_stream_pulses(words).len() == 24 * words.len(),
        spec_stream_pulses(words)[24 * j + i] == spec_bit_pulse(words[j], i),
    decreases j,
{
    lemma_stream_pulses_len(words);
    if j == 0 {
    } else {
        lemma_stream_pulse_index(words.drop_first(), j - 1, i);
        lemma_stream_pulses_len(words.drop_first());
    }
}

/// A pulse train holds exactly 24 pulses per word.
pub proof fn lemma_stream_pulses_len(words: Seq<u32>)
    ensures
        spec_stream_pulses(words).len() == 24 * words.len(),
    decreases words.len(),
{
    if words.len() > 0 {
        lemma_stream_pulses_len(words.drop_first());
    }
}

/// Serialize one wire word into its 24 pulses.
pub fn encode_word(w: u32) -> (pulses: Vec<Pulse>)
    ensures
        pulses@ == spec_word_pulses(w),
{
    let mut pulses: Vec<Pulse> = Vec::new();
    let mut i: usize = 0;
    while i < 24
        invariant
            i <= 24,
            pulses@.len() == i,
            forall|k: int| 0 <= k < i ==> pulses@[k] == spec_bit_pulse(w, k),
        decreases 24 - i,
    {
        let b = word_bit(w, i);
        pulses.push(bit_pulse(b));
        i = i + 1;
    }
    proof {
        assert(pulses@ =~= spec_word_pulses(w));
    }
    pulses
}

/// The serializer's private state: the word being shifted out and how
/// many of its bits are still pending. The frame producer never observes
/// or touches this.
pub struct TimingEncoder {
    current: u32,
    bits_left: u8,
}

impl TimingEncoder {
    /// The word currently being shifted out.
    pub closed spec fn spec_current(self) -> u32 {
        self.current
    }

    /// How many bits of the current word are still to be sent.
    pub closed spec fn spec_bits_left(self) -> nat {
        self.bits_left as nat
    }

    pub open spec fn wf(self) -> bool {
        self.spec_bits_left() <= 24
    }

    /// A serializer at a word boundary, waiting for its first word.
    pub fn new() -> (e: TimingEncoder)
        ensures
            e.wf(),
            e.spec_bits_left() == 0,
    {
        TimingEncoder { current: 0, bits_left: 0 }
    }

    /// One step of the serializer: emit the next pulse. Within a word the
    /// channel is untouched and the next pending bit is encoded; at a
    /// word boundary the next word is fetched from the front of the
    /// channel first. An empty channel at a boundary stalls the waveform:
    /// nothing is emitted, consumed or corrupted.
    pub fn next_pulse(&mut self, ch: &mut PixelChannel) -> (p: Option<Pulse>)
        requires
            old(self).wf(),
            old(ch).wf(),
        ensures
            final(self).wf(),
            final(ch).wf(),
            final(ch).spec_capacity() == old(ch).spec_capacity(),
            old(self).spec_bits_left() > 0 ==> {
                &&& final(ch)@ == old(ch)@
                &&& final(self).spec_current() == old(self).spec_current()
                &&& final(self).spec_bits_left() == (old(self).spec_bits_left() - 1) as nat
                &&& p == Some(
                    spec_bit_pulse(old(self).spec_current(), 24 - old(self).spec_bits_left()),
                )
            },
            old(self).spec_bits_left() == 0 && old(ch)@.len() == 0 ==> p is None
                && final(self).spec_bits_left() == 0
                && final(self).spec_current() == old(self).spec_current()
                && final(ch)@ == old(ch)@,
            old(self).spec_bits_left() == 0 && old(ch)@.len() > 0 ==> {
                &&& final(ch)@ == old(ch)@.drop_first()
                &&& final(self).spec_current() == old(ch)@[0]
                &&& final(self).spec_bits_left() == 23
                &&& p == Some(spec_bit_pulse(old(ch)@[0], 0))
            },
    {
        if self.bits_left == 0 {
            match ch.take_word() {
                None => {
                    return None;
                },
                Some(w) => {
                    self.current = w;
                    self.bits_left = 24;
                },
            }
        }
        let i: usize = (24 - self.bits_left) as usize;
        let b = word_bit(self.current, i);
        self.bits_left = self.bits_left - 1;
        Some(bit_pulse(b))
    }

    /// From a word boundary, drain the whole channel and serialize it:
    /// the emitted pulse train is exactly the train of the queued words
    /// in push order, and the serializer ends back at a word boundary.
    pub fn serialize_all(&mut self, ch: &mut PixelChannel) -> (pulses: Vec<Pulse>)
        requires
            old(self).wf(),
            old(ch).wf(),
            old(self).spec_bits_left() == 0,
        ensures
            final(self).wf(),
            final(self).spec_bits_left() == 0,
            final(ch).wf(),
            final(ch).spec_capacity() == old(ch).spec_capacity(),
            final(ch)@.len() == 0,
            pulses@ == spec_stream_pulses(old(ch)@),
    {
        let mut pulses: Vec<Pulse> = Vec::new();
        loop
            invariant
                self.wf(),
                self.spec_bits_left() == 0,
                ch.wf(),
                ch.spec_capacity() == old(ch).spec_capacity(),
                pulses@ + spec_stream_pulses(ch@) == spec_stream_pulses(old(ch)@),
            decreases ch@.len(),
        {
            let ghost pre = ch@;
            let ghost done = pulses@;
            match ch.take_word() {
                Some(word) => {
                    let mut word_pulses = encode_word(word);
                    pulses.append(&mut word_pulses);
                    proof {
                        assert(spec_stream_pulses(pre) == spec_word_pulses(word)
                            + spec_stream_pulses(ch@));
                        assert(pulses@ + spec_stream_pulses(ch@) =~= done + spec_stream_pulses(
                            pre,
                        ));
                    }
                },
                None => {
                    proof {
                        assert(pulses@ =~= spec_stream_pulses(old(ch)@));
                    }
                    return pulses;
                },
            }
        }
    }
}

} // verus!
