use vstd::prelude::*;
use crate::profile::Profile;
use crate::ringbuffer::{marked_all, push_result, pushed, Ringbuffer, RingbufferError};
use crate::sample::{live_frames, Sample, MAX_STACK_DEPTH};
use crate::value_set::{inserted_all, lemma_inserted_all, ValueSet};

verus! {

/// Slots of the buffer of a new recorder: one second of samples of 16 threads
/// at 20 samples a second.
pub const DEFAULT_RINGBUFFER_CAPACITY: usize = 320;

/// What a flush retains of a run of samples: for each in turn, its thread and
/// then its frames before the first zero.
pub open spec fn retained_all(samples: Seq<Sample>) -> Seq<u64>
    decreases samples.len(),
{
    if samples.len() == 0 {
        Seq::empty()
    } else {
        retained_all(samples.drop_last()) + samples.last().retained()
    }
}

/// Holds the buffer that the signal handler fills, the profile that a flush
/// moves the buffered samples to, and every handle seen in a flushed sample.
#[derive(Debug)]
pub struct ProfileRecorder {
    profile: Profile,
    temporary_sample_buffer: Ringbuffer,
    backtrace_state: usize,
    known_values: ValueSet,
}

impl ProfileRecorder {
    /// The buffer and the set of known handles are sound.
    pub closed spec fn wf(&self) -> bool {
        &&& self.temporary_sample_buffer.wf()
        &&& self.known_values.wf()
    }

    /// The handles seen in flushed samples, in the order in which they were
    /// first seen.
    pub closed spec fn known(&self) -> Seq<u64> {
        self.known_values@
    }

    /// The samples of the profile, in the order in which they were flushed.
    pub closed spec fn flushed(&self) -> Seq<Sample> {
        self.profile.samples@
    }

    /// The samples that wait in the buffer, oldest first.
    pub closed spec fn buffered(&self) -> Seq<Sample> {
        self.temporary_sample_buffer@
    }

    /// The number of slots of the buffer.
    pub closed spec fn capacity(&self) -> nat {
        self.temporary_sample_buffer.spec_capacity()
    }

    /// When the session began.
    pub closed spec fn spec_start_timestamp(&self) -> u64 {
        self.profile.start_timestamp
    }

    /// The embedding's handle of the state that the native unwinder works with.
    pub closed spec fn spec_backtrace_state(&self) -> usize {
        self.backtrace_state
    }

    /// Every sample that the recorder holds, oldest first: the flushed ones,
    /// then the buffered ones.
    pub open spec fn history(&self) -> Seq<Sample> {
        self.flushed() + self.buffered()
    }

    /// What the collector is told of: the known handles, then what the
    /// buffered samples hold.
    pub open spec fn marked(&self) -> Seq<u64> {
        self.known() + marked_all(self.buffered())
    }

    /// Makes the recorder of a session that begins at `start_timestamp`.
    pub fn new(start_timestamp: u64, backtrace_state: usize) -> (recorder: ProfileRecorder)
        ensures
            recorder.wf(),
            recorder.spec_start_timestamp() == start_timestamp,
            recorder.flushed() == Seq::<Sample>::empty(),
            recorder.buffered() == Seq::<Sample>::empty(),
            recorder.capacity() == DEFAULT_RINGBUFFER_CAPACITY,
            recorder.spec_backtrace_state() == backtrace_state,
            recorder.known() == Seq::<u64>::empty(),
    {
        ProfileRecorder {
            profile: Profile { start_timestamp, samples: Vec::new() },
            temporary_sample_buffer: Ringbuffer::new(DEFAULT_RINGBUFFER_CAPACITY),
            backtrace_state,
            known_values: ValueSet::new(),
        }
    }

    /// Adds to the known handles what a flush retains of `sample`.
    fn retain(&mut self, sample: &Sample)
        requires
            old(self).wf(),
        ensures
            final(self).wf(),
            final(self).profile == old(self).profile,
            final(self).temporary_sample_buffer == old(self).temporary_sample_buffer,
            final(self).backtrace_state == old(self).backtrace_state,
            final(self).known() == inserted_all(old(self).known(), sample.retained()),
    {
        self.known_values.insert(sample.ruby_thread);
        assert(seq![sample.ruby_thread].drop_last() =~= Seq::<u64>::empty());
        assert(self.known() == inserted_all(old(self).known(), seq![sample.ruby_thread])) by {
            assert(inserted_all(old(self).known(), Seq::<u64>::empty()) == old(self).known());
        }
        let mut i: usize = 0;
        while i < MAX_STACK_DEPTH && sample.frames[i] != 0
            invariant
                i <= MAX_STACK_DEPTH,
                self.wf(),
                self.profile == old(self).profile,
                self.temporary_sample_buffer == old(self).temporary_sample_buffer,
                self.backtrace_state == old(self).backtrace_state,
                forall|k: int| 0 <= k < i ==> sample.frames[k] != 0,
                self.known() == inserted_all(
                    old(self).known(),
                    seq![sample.ruby_thread] + sample.frames@.subrange(0, i as int),
                ),
            decreases MAX_STACK_DEPTH - i,
        {
            let ghost before = seq![sample.ruby_thread] + sample.frames@.subrange(0, i as int);
            let ghost after = seq![sample.ruby_thread] + sample.frames@.subrange(0, i + 1);
            assert(after.drop_last() =~= before);
            self.known_values.insert(sample.frames[i]);
            i += 1;
        }
        proof {
            lemma_live_frames(sample.frames@, 0, i as int);
        }
    }

    /// Moves every buffered sample to the profile, oldest first, and adds to
    /// the known handles the thread of each and its frames before the first
    /// zero.
    pub fn flush_temporary_sample_buffer(&mut self)
        requires
            old(self).wf(),
        ensures
            final(self).wf(),
            final(self).buffered() == Seq::<Sample>::empty(),
            final(self).capacity() == old(self).capacity(),
            final(self).flushed() == old(self).flushed() + old(self).buffered(),
            final(self).spec_start_timestamp() == old(self).spec_start_timestamp(),
            final(self).spec_backtrace_state() == old(self).spec_backtrace_state(),
            final(self).known() == inserted_all(
                old(self).known(),
                retained_all(old(self).buffered()),
            ),
            final(self).history() == old(self).history(),
    {
        let ghost waiting = old(self).temporary_sample_buffer@;
        let ghost mut done: int = 0;
        assert(waiting.subrange(0, 0) =~= Seq::<Sample>::empty());
        assert(waiting.skip(0) =~= waiting);
        assert(self.profile.samples@ =~= old(self).profile.samples@ + waiting.subrange(0, 0));
        loop
            invariant
                self.wf(),
                0 <= done <= waiting.len(),
                waiting == old(self).temporary_sample_buffer@,
                self.temporary_sample_buffer@ == waiting.skip(done),
                self.temporary_sample_buffer.spec_capacity() == old(
                    self,
                ).temporary_sample_buffer.spec_capacity(),
                self.profile.samples@ == old(self).profile.samples@ + waiting.subrange(0, done),
                self.profile.start_timestamp == old(self).profile.start_timestamp,
                self.backtrace_state == old(self).backtrace_state,
                self.known() == inserted_all(
                    old(self).known(),
                    retained_all(waiting.subrange(0, done)),
                ),
            ensures
                done == waiting.len(),
            decreases waiting.len() - done,
        {
            let next: Option<Sample> = self.temporary_sample_buffer.pop();
            match next {
                None => {
                    break ;
                },
                Some(sample) => {
                    self.retain(&sample);
                    self.profile.samples.push(sample);
                    proof {
                        let head = waiting.subrange(0, done);
                        let more = waiting.subrange(0, done + 1);
                        assert(more.drop_last() =~= head);
                        lemma_inserted_all_concat(
                            old(self).known(),
                            retained_all(head),
                            sample.retained(),
                        );
                        assert(waiting.skip(done).skip(1) =~= waiting.skip(done + 1));
                        assert(self.profile.samples@ =~= old(self).profile.samples@ + more);
                        done = done + 1;
                    }
                },
            }
        }
        assert(waiting.subrange(0, done) =~= waiting);
        assert(self.history() =~= old(self).history());
    }

    /// Takes `sample` into the buffer, behind the samples that wait. A full
    /// buffer refuses it, and the sample is lost.
    pub fn record(&mut self, sample: Sample) -> (r: Result<(), RingbufferError>)
        requires
            old(self).wf(),
        ensures
            final(self).wf(),
            final(self).buffered() == pushed(old(self).buffered(), old(self).capacity(), sample),
            r == push_result(old(self).buffered(), old(self).capacity()),
            final(self).capacity() == old(self).capacity(),
            final(self).flushed() == old(self).flushed(),
            final(self).spec_start_timestamp() == old(self).spec_start_timestamp(),
            final(self).spec_backtrace_state() == old(self).spec_backtrace_state(),
            final(self).known() == old(self).known(),
    {
        self.temporary_sample_buffer.push(sample)
    }

    /// The profile as it stands: the samples flushed so far.
    pub fn profile(&self) -> (profile: &Profile)
        ensures
            profile.samples@ == self.flushed(),
            profile.start_timestamp == self.spec_start_timestamp(),
    {
        &self.profile
    }

    /// The embedding's handle of the state that the native unwinder works with.
    #[verifier::when_used_as_spec(spec_backtrace_state)]
    pub fn backtrace_state(&self) -> (state: usize)
        ensures
            state == self.spec_backtrace_state(),
    {
        self.backtrace_state
    }

    /// The number of samples that wait in the buffer.
    pub fn buffered_len(&self) -> (n: usize)
        requires
            self.wf(),
        ensures
            n == self.buffered().len(),
            n <= self.capacity(),
    {
        self.temporary_sample_buffer.len()
    }

    /// While a sample waits in the buffer, the collector is told of its thread
    /// and of every frame that it holds.
    pub proof fn lemma_buffered_handles_are_marked(&self, i: int, j: int)
        requires
            0 <= i < self.buffered().len(),
            0 <= j < MAX_STACK_DEPTH,
        ensures
            self.marked().contains(self.buffered()[i].frames[j]),
            self.marked().contains(self.buffered()[i].ruby_thread),
    {
        let tail = marked_all(self.buffered());
        lemma_marked_all_holds_every_slot(self.buffered(), i, j);
        let a = choose|a: int| 0 <= a < tail.len() && tail[a] == self.buffered()[i].frames[j];
        assert(self.marked()[self.known().len() + a] == tail[a]);
        let b = choose|b: int| 0 <= b < tail.len() && tail[b] == self.buffered()[i].ruby_thread;
        assert(self.marked()[self.known().len() + b] == tail[b]);
    }

    /// After a flush the known handles are those that were known before and
    /// those that the flush retains of the samples that waited, and no others.
    pub proof fn lemma_flush_knows(&self, after: ProfileRecorder)
        requires
            self.wf(),
            after.known() == inserted_all(self.known(), retained_all(self.buffered())),
        ensures
            forall|w: u64|
                after.known().contains(w) <==> (self.known().contains(w) || retained_all(
                    self.buffered(),
                ).contains(w)),
    {
        self.known_values.lemma_no_duplicates();
        lemma_inserted_all(self.known(), retained_all(self.buffered()));
    }

    /// Every known handle is among what the collector is told of.
    pub proof fn lemma_known_handles_are_marked(&self, k: int)
        requires
            0 <= k < self.known().len(),
        ensures
            self.marked().contains(self.known()[k]),
    {
        assert(self.marked()[k] == self.known()[k]);
    }

    /// The `i`-th handle that the collector must keep alive, or none where
    /// there are not so many. Allocates nothing.
    pub fn marked_at(&self, i: usize) -> (handle: Option<u64>)
        requires
            self.wf(),
        ensures
            i < self.marked().len() ==> handle == Some(self.marked()[i as int]),
            i >= self.marked().len() ==> handle is None,
    {
        let known: usize = self.known_values.len();
        if i < known {
            Some(self.known_values.get(i))
        } else {
            self.temporary_sample_buffer.marked_at(i - known)
        }
    }

    /// Lists every handle that the collector must keep alive: the known
    /// handles, then the thread and the frame slots of each buffered sample.
    pub fn dmark(&self) -> (refs: Vec<u64>)
        requires
            self.wf(),
        ensures
            refs@ == self.marked(),
    {
        let mut refs: Vec<u64> = self.known_values.to_vec();
        let mut buffered: Vec<u64> = self.temporary_sample_buffer.dmark();
        refs.append(&mut buffered);
        refs
    }
}

/// Where the frames before `to` are not zero and the frames end at `to` or hold
/// zero there, the frames that count from `from` on are those up to `to`.
pub proof fn lemma_live_frames(frames: Seq<u64>, from: int, to: int)
    requires
        0 <= from <= to <= frames.len(),
        forall|k: int| 0 <= k < to ==> frames[k] != 0,
        to == frames.len() || frames[to] == 0,
    ensures
        live_frames(frames, from) == frames.subrange(from, to),
    decreases to - from,
{
    if from < to {
        lemma_live_frames(frames, from + 1, to);
        assert(seq![frames[from]] + frames.subrange(from + 1, to) =~= frames.subrange(from, to));
    } else {
        assert(frames.subrange(from, to) =~= Seq::<u64>::empty());
    }
}

/// Every frame slot of every sample in a run, and the thread of each, is among
/// what the collector is told of for the run.
pub proof fn lemma_marked_all_holds_every_slot(samples: Seq<Sample>, i: int, j: int)
    requires
        0 <= i < samples.len(),
        0 <= j < MAX_STACK_DEPTH,
    ensures
        marked_all(samples).contains(samples[i].frames[j]),
        marked_all(samples).contains(samples[i].ruby_thread),
    decreases samples.len(),
{
    let front = marked_all(samples.drop_last());
    let last = samples.last().marked();
    if i == samples.len() - 1 {
        assert((front + last)[front.len() as int] == samples[i].ruby_thread);
        assert((front + last)[front.len() + j + 1] == samples[i].frames[j]);
    } else {
        lemma_marked_all_holds_every_slot(samples.drop_last(), i, j);
        let a = choose|a: int| 0 <= a < front.len() && front[a] == samples[i].frames[j];
        assert((front + last)[a] == samples[i].frames[j]);
        let b = choose|b: int| 0 <= b < front.len() && front[b] == samples[i].ruby_thread;
        assert((front + last)[b] == samples[i].ruby_thread);
    }
}

/// Adding two runs of handles one after the other is adding the two as one run.
pub proof fn lemma_inserted_all_concat(order: Seq<u64>, first: Seq<u64>, second: Seq<u64>)
    ensures
        inserted_all(order, first + second) == inserted_all(
            inserted_all(order, first),
            second,
        ),
    decreases second.len(),
{
    if second.len() == 0 {
        assert(first + second =~= first);
    } else {
        lemma_inserted_all_concat(order, first, second.drop_last());
        assert((first + second).drop_last() =~= first + second.drop_last());
        assert((first + second).last() == second.last());
    }
}

} // verus!
