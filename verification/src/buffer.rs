//! A fixed-capacity sample stack: samples are pushed at a cursor that wraps
//! around to the start when the buffer fills, and popped back from the
//! cursor.

use vstd::prelude::*;

verus! {

/// The samples and cursor after pushing `x` at cursor `i` of a buffer of
/// capacity `n`: the cursor wraps to 0 when it reaches `n`.
pub open spec fn push_spec<T>(samples: Seq<T>, i: nat, x: T, n: nat) -> (Seq<T>, nat) {
    (samples.update(i as int, x), (i + 1) % n)
}

/// The cursor and result of popping at cursor `i`: nothing when the cursor
/// is at the start, else the sample before it.
pub open spec fn pop_spec<T>(samples: Seq<T>, i: nat) -> (nat, Option<T>) {
    if i == 0 {
        (0, None)
    } else {
        ((i - 1) as nat, Some(samples[i - 1]))
    }
}

/// A stack of at most `SAMPLES_PER_BUFFER - 1` samples in a fixed array.
/// The caller supplies the sample type's zero, which fills empty slots.
#[derive(Clone, Copy, Debug)]
pub struct GenericAudioBuffer<T: Copy, const SAMPLES_PER_BUFFER: usize> {
    samples: [T; SAMPLES_PER_BUFFER],
    index: usize,
}

impl<T: Copy, const SAMPLES_PER_BUFFER: usize> GenericAudioBuffer<T, SAMPLES_PER_BUFFER> {
    /// Every slot of the buffer, in order.
    pub closed spec fn spec_samples(&self) -> Seq<T> {
        self.samples@
    }

    /// The cursor: the number of samples on the stack.
    pub closed spec fn spec_index(&self) -> nat {
        self.index as nat
    }

    /// The cursor points into the buffer.
    pub open spec fn wf(&self) -> bool {
        self.spec_samples().len() == SAMPLES_PER_BUFFER && (self.spec_index() < SAMPLES_PER_BUFFER
            || SAMPLES_PER_BUFFER == 0 && self.spec_index() == 0)
    }

    /// An empty buffer with every slot holding `zero`.
    pub fn new(zero: T) -> (b: Self)
        ensures
            b.wf(),
            b.spec_index() == 0,
            b.spec_samples() == Seq::new(SAMPLES_PER_BUFFER as nat, |i: int| zero),
    {
        let b = GenericAudioBuffer { samples: [zero; SAMPLES_PER_BUFFER], index: 0 };
        assert(b.spec_samples() =~= Seq::new(SAMPLES_PER_BUFFER as nat, |i: int| zero));
        b
    }

    /// The number of samples on the stack.
    pub fn len(&self) -> (r: usize)
        ensures
            r == self.spec_index(),
    {
        self.index
    }

    /// True when no sample is on the stack.
    pub fn is_empty(&self) -> (r: bool)
        ensures
            r == (self.spec_index() == 0),
    {
        self.index == 0
    }

    /// Push `sample` at the cursor and advance it, wrapping to the start when
    /// the buffer fills (which empties the stack).
    pub fn push(&mut self, sample: T)
        requires
            old(self).wf(),
            SAMPLES_PER_BUFFER > 0,
        ensures
            final(self).wf(),
            (final(self).spec_samples(), final(self).spec_index()) == push_spec(
                old(self).spec_samples(),
                old(self).spec_index(),
                sample,
                SAMPLES_PER_BUFFER as nat,
            ),
    {
        self.samples[self.index] = sample;
        self.index = (self.index + 1) % SAMPLES_PER_BUFFER;
    }

    /// Pop the sample before the cursor, if any.
    pub fn pop(&mut self) -> (r: Option<T>)
        requires
            old(self).wf(),
        ensures
            final(self).wf(),
            final(self).spec_samples() == old(self).spec_samples(),
            (final(self).spec_index(), r) == pop_spec(old(self).spec_samples(), old(self).spec_index()),
    {
        if self.index == 0 {
            None
        } else {
            self.index -= 1;
            Some(self.samples[self.index])
        }
    }

    /// Empty the stack and set every slot back to `zero`.
    pub fn clear(&mut self, zero: T)
        ensures
            final(self).wf(),
            final(self).spec_index() == 0,
            final(self).spec_samples() == Seq::new(SAMPLES_PER_BUFFER as nat, |i: int| zero),
    {
        let z = zero;
        let mut k: usize = 0;
        while k < SAMPLES_PER_BUFFER
            invariant
                k <= SAMPLES_PER_BUFFER,
                self.samples@.len() == SAMPLES_PER_BUFFER,
                forall|i: int| 0 <= i < k ==> self.samples@[i] == z,
            decreases SAMPLES_PER_BUFFER - k,
        {
            self.samples[k] = z;
            k = k + 1;
        }
        self.index = 0;
        assert(self.spec_samples() =~= Seq::new(SAMPLES_PER_BUFFER as nat, |i: int| zero));
    }

    /// The size in bytes of a buffer's samples.
    pub fn byte_size() -> (r: usize)
        requires
            vstd::layout::size_of::<T>() * SAMPLES_PER_BUFFER <= usize::MAX,
        ensures
            r == vstd::layout::size_of::<T>() * SAMPLES_PER_BUFFER,
    {
        core::mem::size_of::<T>() * SAMPLES_PER_BUFFER
    }

    /// Every slot of the buffer, in order.
    pub fn get_all(&self) -> (r: &[T])
        ensures
            r@ == self.spec_samples(),
    {
        self.samples.as_slice()
    }
}

/// Law: popping right after a push gives the pushed sample back and restores
/// the cursor, as long as the push did not fill the buffer (a push into the
/// last slot wraps the cursor to the start, and the pop then finds nothing).
pub proof fn lemma_pop_undoes_push<T>(samples: Seq<T>, i: nat, x: T, n: nat)
    requires
        samples.len() == n,
        i + 1 < n,
    ensures
        ({
            let (s2, i2) = push_spec(samples, i, x, n);
            pop_spec(s2, i2) == (i, Some(x))
        }),
{
    let (s2, i2) = push_spec(samples, i, x, n);
    assert(i2 == i + 1) by {
        vstd::arithmetic::div_mod::lemma_small_mod((i + 1) as nat, n);
    }
}

} // verus!
