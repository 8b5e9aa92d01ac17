//! The bounded FIFO of wire words between the frame producer and the
//! bit serializer. Its capacity models the hardware FIFO depth: a full
//! channel makes the producer wait, an empty one stalls the serializer.

use vstd::prelude::*;

verus! {

/// A bounded, strictly first-in-first-out queue of 24-bit wire words.
/// The producer only enqueues, the serializer only dequeues, and neither
/// can drop or reorder a word.
pub struct PixelChannel {
    words: Vec<u32>,
    cap: usize,
}

impl View for PixelChannel {
    type V = Seq<u32>;

    closed spec fn view(&self) -> Seq<u32> {
        self.words@
    }
}

impl PixelChannel {
    /// Queue depth the channel was created with.
    pub closed spec fn spec_capacity(self) -> nat {
        self.cap as nat
    }

    /// The queue holds at least one slot and never more words than its
    /// capacity.
    pub open spec fn wf(self) -> bool {
        self@.len() <= self.spec_capacity() && self.spec_capacity() >= 1
    }

    /// An empty channel of the given depth.
    pub fn new(capacity: usize) -> (c: PixelChannel)
        requires
            capacity >= 1,
        ensures
            c.wf(),
            c@ == Seq::<u32>::empty(),
            c.spec_capacity() == capacity,
    {
        PixelChannel { words: Vec::new(), cap: capacity }
    }

    pub fn capacity(&self) -> (n: usize)
        ensures
            n == self.spec_capacity(),
    {
        self.cap
    }

    pub fn len(&self) -> (n: usize)
        ensures
            n == self@.len(),
    {
        self.words.len()
    }

    pub fn is_empty(&self) -> (e: bool)
        ensures
            e == (self@.len() == 0),
    {
        self.words.len() == 0
    }

    pub fn is_full(&self) -> (f: bool)
        ensures
            f == (self@.len() == self.spec_capacity()),
    {
        self.words.len() == self.cap
    }

    /// Enqueue `word` at the back if there is room and say whether it was
    /// taken: exactly when the channel is not full. A refused word leaves
    /// the queue untouched, so a blocked producer can simply retry — this
    /// is the backpressure the producer spins on.
    pub fn try_push(&mut self, word: u32) -> (ok: bool)
        requires
            old(self).wf(),
        ensures
            final(self).wf(),
            final(self).spec_capacity() == old(self).spec_capacity(),
            ok == (old(self)@.len() < old(self).spec_capacity()),
            ok ==> final(self)@ == old(self)@.push(word),
            !ok ==> final(self)@ == old(self)@,
    {
        if self.words.len() < self.cap {
            self.words.push(word);
            true
        } else {
            false
        }
    }

    /// Dequeue the oldest word, `None` on an empty channel. Only the
    /// timing encoder drains the channel; the frame producer never calls
    /// this.
    pub fn take_word(&mut self) -> (w: Option<u32>)
        requires
            old(self).wf(),
        ensures
            final(self).wf(),
            final(self).spec_capacity() == old(self).spec_capacity(),
            old(self)@.len() == 0 ==> w is None && final(self)@ == old(self)@,
            old(self)@.len() > 0 ==> w == Some(old(self)@[0]) && final(self)@ == old(
                self,
            )@.drop_first(),
    {
        if self.words.len() > 0 {
            let word = self.words.remove(0);
            proof {
                assert(self.words@ =~= old(self).words@.drop_first());
            }
            Some(word)
        } else {
            None
        }
    }

    /// Blocking push with the serializer's concurrent progress modeled by
    /// `drained`: if the channel is full, the oldest word moves to the
    /// back of `drained` (exactly what a drain would observe) and `word`
    /// is then enqueued. Conservation: the words seen by the drain
    /// followed by the words still queued equal the old queue followed by
    /// `word` — nothing is dropped and nothing is reordered.
    pub fn push_blocking(&mut self, word: u32, drained: &mut Vec<u32>)
        requires
            old(self).wf(),
        ensures
            final(self).wf(),
            final(self).spec_capacity() == old(self).spec_capacity(),
            final(self)@.len() > 0,
            final(drained)@ + final(self)@ == old(drained)@ + old(self)@.push(word),
    {
        if self.words.len() == self.cap {
            let word0 = self.words.remove(0);
            proof {
                assert(self.words@ =~= old(self).words@.drop_first());
            }
            drained.push(word0);
        }
        self.words.push(word);
        proof {
            if old(self)@.len() == old(self).spec_capacity() {
                assert(drained@ + self@ =~= old(drained)@ + old(self)@.push(word));
            } else {
                assert(drained@ + self@ =~= old(drained)@ + old(self)@.push(word));
            }
        }
    }

    /// Drain the whole channel in FIFO order: the result is exactly the
    /// queued sequence, in push order, and the channel is left empty.
    pub fn drain_all(&mut self) -> (out: Vec<u32>)
        requires
            old(self).wf(),
        ensures
            final(self).wf(),
            final(self).spec_capacity() == old(self).spec_capacity(),
            final(self)@.len() == 0,
            out@ == old(self)@,
    {
        let mut out: Vec<u32> = Vec::new();
        loop
            invariant
                self.wf(),
                self.spec_capacity() == old(self).spec_capacity(),
                out@ + self@ == old(self)@,
            decreases self@.len(),
        {
            match self.take_word() {
                Some(word) => {
                    out.push(word);
                    proof {
                        assert(out@ + self@ =~= old(self)@);
                    }
                },
                None => {
                    proof {
                        assert(out@ =~= old(self)@);
                    }
                    return out;
                },
            }
        }
    }
}

} // verus!
