use vstd::prelude::*;
use crate::sample::{Sample, C_BACKTRACE_SLOTS, MARKS_PER_SAMPLE, MAX_STACK_DEPTH};

verus! {

/// Why a sample was not taken into the buffer.
#[derive(Clone, Copy, Debug, PartialEq, Eq, Structural)]
pub enum RingbufferError {
    /// The buffer already holds as many samples as it has room for.
    Full,
}

/// A queue of samples with a fixed number of slots: first in, first out.
///
/// All slots are allocated when the buffer is made; `push` and `pop` move
/// indices only.
#[derive(Debug)]
pub struct Ringbuffer {
    slots: Vec<Sample>,
    read_index: usize,
    size: usize,
}

/// What a push leaves in a queue of `capacity` slots that held `contents`.
pub open spec fn pushed(contents: Seq<Sample>, capacity: nat, sample: Sample) -> Seq<Sample> {
    if contents.len() < capacity {
        contents.push(sample)
    } else {
        contents
    }
}

/// What a push answers on a queue of `capacity` slots that held `contents`.
pub open spec fn push_result(contents: Seq<Sample>, capacity: nat) -> Result<(), RingbufferError> {
    if contents.len() < capacity {
        Ok(())
    } else {
        Err(RingbufferError::Full)
    }
}

/// What a pop leaves in a queue that held `contents`.
pub open spec fn popped(contents: Seq<Sample>) -> Seq<Sample> {
    if contents.len() > 0 {
        contents.skip(1)
    } else {
        contents
    }
}

/// What a pop answers on a queue that held `contents`.
pub open spec fn pop_result(contents: Seq<Sample>) -> Option<Sample> {
    if contents.len() > 0 {
        Some(contents[0])
    } else {
        None
    }
}

/// The queue after pushing each of `samples` in turn.
pub open spec fn pushed_all(contents: Seq<Sample>, capacity: nat, samples: Seq<Sample>) -> Seq<
    Sample,
>
    decreases samples.len(),
{
    if samples.len() == 0 {
        contents
    } else {
        pushed(pushed_all(contents, capacity, samples.drop_last()), capacity, samples.last())
    }
}

/// The queue after `n` pops.
pub open spec fn popped_times(contents: Seq<Sample>, n: nat) -> Seq<Sample>
    decreases n,
{
    if n == 0 {
        contents
    } else {
        popped(popped_times(contents, (n - 1) as nat))
    }
}

/// What the collector is told of for a run of samples: for each in turn, its
/// thread and then its frame slots.
pub open spec fn marked_all(samples: Seq<Sample>) -> Seq<u64>
    decreases samples.len(),
{
    if samples.len() == 0 {
        Seq::empty()
    } else {
        marked_all(samples.drop_last()) + samples.last().marked()
    }
}

impl Ringbuffer {
    /// The slot that holds the `i`-th oldest sample.
    pub closed spec fn slot_of(&self, i: int) -> int {
        if self.read_index + i < self.slots.len() {
            self.read_index + i
        } else {
            self.read_index + i - self.slots.len()
        }
    }

    /// The indices stay inside the slots.
    pub closed spec fn wf(&self) -> bool {
        &&& self.size <= self.slots.len()
        &&& (self.read_index < self.slots.len() || self.read_index == 0)
    }

    /// The samples in the buffer, oldest first.
    pub closed spec fn view(&self) -> Seq<Sample> {
        Seq::new(self.size as nat, |i: int| self.slots[self.slot_of(i)])
    }

    /// The number of slots that the buffer was made with.
    pub closed spec fn spec_capacity(&self) -> nat {
        self.slots.len() as nat
    }

    /// A buffer never holds more samples than it has slots.
    pub proof fn lemma_size_within_capacity(&self)
        requires
            self.wf(),
        ensures
            self@.len() <= self.spec_capacity(),
    {
    }

    /// Makes an empty buffer with `capacity` slots.
    pub fn new(capacity: usize) -> (rb: Ringbuffer)
        ensures
            rb.wf(),
            rb@ == Seq::<Sample>::empty(),
            rb.spec_capacity() == capacity,
    {
        let blank = Sample {
            ruby_thread: 0,
            timestamp: 0,
            line_count: 0,
            frames: [0; MAX_STACK_DEPTH],
            linenos: [0; MAX_STACK_DEPTH],
            c_backtrace_pcs: [0; C_BACKTRACE_SLOTS],
        };
        let mut slots: Vec<Sample> = Vec::new();
        let mut i: usize = 0;
        while i < capacity
            invariant
                i <= capacity,
                slots.len() == i,
            decreases capacity - i,
        {
            slots.push(blank);
            i += 1;
        }
        let rb = Ringbuffer { slots, read_index: 0, size: 0 };
        assert(rb@ =~= Seq::<Sample>::empty());
        rb
    }

    /// The number of slots.
    pub fn capacity(&self) -> (n: usize)
        ensures
            n == self.spec_capacity(),
    {
        self.slots.len()
    }

    /// The number of samples waiting.
    pub fn len(&self) -> (n: usize)
        requires
            self.wf(),
        ensures
            n == self@.len(),
            n <= self.spec_capacity(),
    {
        self.size
    }

    /// Whether no sample is waiting.
    pub fn is_empty(&self) -> (b: bool)
        requires
            self.wf(),
        ensures
            b == (self@.len() == 0),
    {
        self.size == 0
    }

    /// Puts `sample` behind the samples that wait. A full buffer refuses it and
    /// stays as it was.
    pub fn push(&mut self, sample: Sample) -> (r: Result<(), RingbufferError>)
        requires
            old(self).wf(),
        ensures
            final(self).wf(),
            final(self).spec_capacity() == old(self).spec_capacity(),
            final(self)@ == pushed(old(self)@, old(self).spec_capacity(), sample),
            r == push_result(old(self)@, old(self).spec_capacity()),
            final(self)@.len() <= final(self).spec_capacity(),
    {
        let capacity: usize = self.slots.len();
        if self.size == capacity {
            return Err(RingbufferError::Full);
        }
        let room: usize = capacity - self.read_index;
        let at: usize = if self.size < room {
            self.read_index + self.size
        } else {
            self.size - room
        };
        self.slots[at] = sample;
        self.size = self.size + 1;
        assert(self@ =~= old(self)@.push(sample));
        Ok(())
    }

    /// Takes the oldest sample out. An empty buffer gives none.
    pub fn pop(&mut self) -> (r: Option<Sample>)
        requires
            old(self).wf(),
        ensures
            final(self).wf(),
            final(self).spec_capacity() == old(self).spec_capacity(),
            final(self)@ == popped(old(self)@),
            r == pop_result(old(self)@),
    {
        if self.size == 0 {
            return None;
        }
        let sample: Sample = self.slots[self.read_index];
        self.read_index = if self.read_index + 1 == self.slots.len() {
            0
        } else {
            self.read_index + 1
        };
        self.size = self.size - 1;
        assert(self@ =~= old(self)@.skip(1));
        Some(sample)
    }

    /// The `i`-th oldest of the samples that wait.
    pub fn get(&self, i: usize) -> (sample: &Sample)
        requires
            self.wf(),
            i < self@.len(),
        ensures
            *sample == self@[i as int],
    {
        let room: usize = self.slots.len() - self.read_index;
        let at: usize = if i < room {
            self.read_index + i
        } else {
            i - room
        };
        &self.slots[at]
    }

    /// The `i`-th handle that the collector must be told of for the samples
    /// that wait, or none where there are not so many. Allocates nothing.
    pub fn marked_at(&self, i: usize) -> (handle: Option<u64>)
        requires
            self.wf(),
        ensures
            i < marked_all(self@).len() ==> handle == Some(marked_all(self@)[i as int]),
            i >= marked_all(self@).len() ==> handle is None,
    {
        let which: usize = i / MARKS_PER_SAMPLE;
        let slot: usize = i % MARKS_PER_SAMPLE;
        proof {
            lemma_marked_all_len(self@);
        }
        if which < self.size {
            proof {
                lemma_marked_all_index(self@, which as int, slot as int);
            }
            Some(self.get(which).marked_at(slot))
        } else {
            None
        }
    }

    /// Lists what the collector must be told of for the samples that wait,
    /// oldest sample first.
    pub fn dmark(&self) -> (refs: Vec<u64>)
        requires
            self.wf(),
        ensures
            refs@ == marked_all(self@),
    {
        let mut refs: Vec<u64> = Vec::new();
        let mut i: usize = 0;
        while i < self.size
            invariant
                self.wf(),
                i <= self.size,
                refs@ == marked_all(self@.subrange(0, i as int)),
            decreases self.size - i,
        {
            let mut part: Vec<u64> = self.get(i).dmark();
            assert(self@.subrange(0, i + 1).drop_last() =~= self@.subrange(0, i as int));
            refs.append(&mut part);
            i += 1;
        }
        assert(self@.subrange(0, self.size as int) =~= self@);
        refs
    }
}

/// The collector is told of as many handles for each sample of a run.
pub proof fn lemma_marked_all_len(samples: Seq<Sample>)
    ensures
        marked_all(samples).len() == MARKS_PER_SAMPLE * samples.len(),
    decreases samples.len(),
{
    if samples.len() > 0 {
        lemma_marked_all_len(samples.drop_last());
        assert(samples.last().marked().len() == MARKS_PER_SAMPLE);
    }
}

/// What the collector is told of for a run holds, for each sample in turn and
/// without gaps, what it is told of for that sample.
pub proof fn lemma_marked_all_index(samples: Seq<Sample>, which: int, slot: int)
    requires
        0 <= which < samples.len(),
        0 <= slot < MARKS_PER_SAMPLE,
    ensures
        0 <= MARKS_PER_SAMPLE * which + slot < marked_all(samples).len(),
        marked_all(samples)[MARKS_PER_SAMPLE * which + slot] == samples[which].marked()[slot],
    decreases samples.len(),
{
    lemma_marked_all_len(samples);
    lemma_marked_all_len(samples.drop_last());
    assert(samples.last().marked().len() == MARKS_PER_SAMPLE);
    if which < samples.len() - 1 {
        lemma_marked_all_index(samples.drop_last(), which, slot);
    }
}

/// Pushing no more samples than an empty buffer has slots for leaves exactly
/// those samples, in the order in which they were pushed; popping as many times
/// then hands them out in that order and leaves the buffer empty.
pub proof fn lemma_push_then_pop_keeps_order(capacity: nat, samples: Seq<Sample>)
    requires
        samples.len() <= capacity,
    ensures
        pushed_all(Seq::empty(), capacity, samples) == samples,
        forall|k: nat|
            k < samples.len() ==> #[trigger] pop_result(popped_times(samples, k)) == Some(
                samples[k as int],
            ),
        popped_times(samples, samples.len()) == Seq::<Sample>::empty(),
        pop_result(popped_times(samples, samples.len())) == None::<Sample>,
    decreases samples.len(),
{
    if samples.len() > 0 {
        lemma_push_then_pop_keeps_order(capacity, samples.drop_last());
        assert(samples.drop_last().push(samples.last()) =~= samples);
    }
    assert forall|k: nat| k <= samples.len() implies #[trigger] popped_times(samples, k)
        == samples.skip(k as int) by {
        lemma_popped_times_skips(samples, k);
    }
    assert(samples.skip(samples.len() as int) =~= Seq::<Sample>::empty());
}

/// Popping `n` times from a queue that holds at least `n` samples drops its
/// first `n`.
pub proof fn lemma_popped_times_skips(contents: Seq<Sample>, n: nat)
    requires
        n <= contents.len(),
    ensures
        popped_times(contents, n) == contents.skip(n as int),
    decreases n,
{
    if n == 0 {
        assert(contents.skip(0) =~= contents);
    } else {
        lemma_popped_times_skips(contents, (n - 1) as nat);
        assert(contents.skip(n - 1).skip(1) =~= contents.skip(n as int));
    }
}

/// A push onto a full buffer fails and leaves the contents as they were.
pub proof fn lemma_push_on_full_changes_nothing(contents: Seq<Sample>, capacity: nat, sample: Sample)
    requires
        contents.len() == capacity,
    ensures
        pushed(contents, capacity, sample) == contents,
        push_result(contents, capacity) == Err::<(), RingbufferError>(RingbufferError::Full),
{
}

} // verus!
