use vstd::prelude::*;

verus! {

/// Largest number of managed frames that one sample holds.
pub const MAX_STACK_DEPTH: usize = 500;

/// Largest number of native program counters that one sample holds.
pub const MAX_C_STACK_DEPTH: usize = 1000;

/// Slots of the native table: the count, then the program counters.
pub const C_BACKTRACE_SLOTS: usize = 1001;

/// How many managed frames the host is asked for at most. A sample keeps the
/// first `MAX_STACK_DEPTH` of what it reports.
pub const HOST_FRAME_LIMIT: usize = 2000;

/// Handles that the collector is told of for one sample: the thread and each
/// frame slot.
pub const MARKS_PER_SAMPLE: usize = 501;

/// One stack snapshot of a thread.
///
/// `frames` and `linenos` run in parallel; slots from `line_count` on hold zero.
/// Slot 0 of `c_backtrace_pcs` holds how many native program counters follow it.
#[derive(Clone, Copy, Debug, PartialEq, Eq)]
pub struct Sample {
    pub ruby_thread: u64,
    pub timestamp: u64,
    pub line_count: i32,
    pub frames: [u64; MAX_STACK_DEPTH],
    pub linenos: [i32; MAX_STACK_DEPTH],
    pub c_backtrace_pcs: [usize; C_BACKTRACE_SLOTS],
}

/// The smaller of two numbers.
pub open spec fn min_nat(a: nat, b: nat) -> nat {
    if a <= b {
        a
    } else {
        b
    }
}

/// The native table that a walk over `pcs` leaves: the count, the first
/// `MAX_C_STACK_DEPTH` program counters in order, then zeros.
pub open spec fn native_table(pcs: Seq<usize>) -> Seq<usize> {
    Seq::new(
        C_BACKTRACE_SLOTS as nat,
        |i: int|
            if i == 0 {
                min_nat(pcs.len(), MAX_C_STACK_DEPTH as nat) as usize
            } else if i <= min_nat(pcs.len(), MAX_C_STACK_DEPTH as nat) {
                pcs[i - 1]
            } else {
                0usize
            },
    )
}

/// How many managed frames a sample keeps of what the host reported.
pub open spec fn kept_depth(frames: Seq<u64>, linenos: Seq<i32>) -> nat {
    min_nat(min_nat(frames.len(), linenos.len()), MAX_STACK_DEPTH as nat)
}

/// The first `depth` entries of `src`, padded with `zero` to `len` slots.
pub open spec fn padded<T>(src: Seq<T>, depth: nat, len: nat, zero: T) -> Seq<T> {
    Seq::new(
        len,
        |i: int|
            if i < depth {
                src[i]
            } else {
                zero
            },
    )
}

/// The frames of `frames` before the first zero among the slots from `from` on.
pub open spec fn live_frames(frames: Seq<u64>, from: int) -> Seq<u64>
    decreases frames.len() - from,
{
    if from < 0 || from >= frames.len() || frames[from] == 0 {
        Seq::empty()
    } else {
        seq![frames[from]] + live_frames(frames, from + 1)
    }
}

/// Takes one program counter from the unwinder into the native table.
///
/// Answers 0 when the counter was stored and the walk may go on, 1 when the
/// table is full and the walk must stop.
pub fn record_native_pc(pcs: &mut [usize; C_BACKTRACE_SLOTS], pc: usize) -> (stop: i32)
    ensures
        old(pcs)[0] >= MAX_C_STACK_DEPTH ==> stop == 1 && *final(pcs) == *old(pcs),
        old(pcs)[0] < MAX_C_STACK_DEPTH ==> stop == 0 && final(pcs)@ == old(pcs)@.update(
            0,
            (old(pcs)[0] + 1) as usize,
        ).update(old(pcs)[0] + 1, pc),
{
    let count: usize = pcs[0];
    if count >= MAX_C_STACK_DEPTH {
        return 1;
    }
    pcs[0] = count + 1;
    pcs[count + 1] = pc;
    0
}

/// Walks the program counters that the unwinder reports, in order, until they
/// end or the table is full.
pub fn walk_native(pcs: &[usize]) -> (table: [usize; C_BACKTRACE_SLOTS])
    ensures
        table@ == native_table(pcs@),
{
    let mut table: [usize; C_BACKTRACE_SLOTS] = [0; C_BACKTRACE_SLOTS];
    let mut i: usize = 0;
    while i < pcs.len()
        invariant
            i <= pcs.len(),
            i <= MAX_C_STACK_DEPTH,
            table@ =~= native_table(pcs@.subrange(0, i as int)),
        decreases pcs.len() - i,
    {
        let stop: i32 = record_native_pc(&mut table, pcs[i]);
        if stop != 0 {
            return table;
        }
        i += 1;
    }
    assert(pcs@.subrange(0, i as int) =~= pcs@);
    table
}

/// The native table of a sample: that of the walk, or zeros where no walk was
/// made.
pub open spec fn native_table_of(native_pcs: Option<Seq<usize>>) -> Seq<usize> {
    match native_pcs {
        Some(pcs) => native_table(pcs),
        None => Seq::new(C_BACKTRACE_SLOTS as nat, |i: int| 0usize),
    }
}

/// What a slice that may be absent holds.
pub open spec fn view_of(native_pcs: Option<&[usize]>) -> Option<Seq<usize>> {
    match native_pcs {
        Some(pcs) => Some(pcs@),
        None => None,
    }
}

/// The sample that `capture` builds from these reports.
pub open spec fn captured(
    ruby_thread: u64,
    timestamp: u64,
    native_pcs: Option<Seq<usize>>,
    frames: Seq<u64>,
    linenos: Seq<i32>,
) -> Sample {
    choose|s: Sample| s.is_capture_of(ruby_thread, timestamp, native_pcs, frames, linenos)
}

/// Two samples built from the same reports are the same sample.
pub proof fn lemma_capture_is_unique(
    a: Sample,
    b: Sample,
    ruby_thread: u64,
    timestamp: u64,
    native_pcs: Option<Seq<usize>>,
    frames: Seq<u64>,
    linenos: Seq<i32>,
)
    requires
        a.is_capture_of(ruby_thread, timestamp, native_pcs, frames, linenos),
    ensures
        captured(ruby_thread, timestamp, native_pcs, frames, linenos).is_capture_of(
            ruby_thread,
            timestamp,
            native_pcs,
            frames,
            linenos,
        ),
        b.is_capture_of(ruby_thread, timestamp, native_pcs, frames, linenos) ==> a == b,
{
    if b.is_capture_of(ruby_thread, timestamp, native_pcs, frames, linenos) {
        assert(a.frames@ =~= b.frames@);
        assert(a.linenos@ =~= b.linenos@);
        assert(a.c_backtrace_pcs@ =~= b.c_backtrace_pcs@);
        assert(a.frames == b.frames);
        assert(a.linenos == b.linenos);
        assert(a.c_backtrace_pcs == b.c_backtrace_pcs);
    }
}

/// A sample built from reports keeps its depths within their bounds, and its
/// managed frames from `line_count` on are zero.
pub proof fn lemma_capture_is_bounded(
    sample: Sample,
    ruby_thread: u64,
    timestamp: u64,
    native_pcs: Option<Seq<usize>>,
    frames: Seq<u64>,
    linenos: Seq<i32>,
)
    requires
        sample.is_capture_of(ruby_thread, timestamp, native_pcs, frames, linenos),
    ensures
        0 <= sample.line_count <= 500,
        sample.c_backtrace_pcs[0] <= 1000,
        forall|i: int| sample.line_count <= i < 500 ==> sample.frames[i] == 0,
        sample.wf(),
{
    assert forall|i: int| sample.line_count <= i < 500 implies sample.frames[i] == 0 by {
        assert(sample.frames[i] == sample.frames@[i]);
    }
}

impl Sample {
    /// Whether this sample holds exactly what the reports give: the thread and
    /// the time, the native table of the walk, and the first managed frames
    /// with their lines, as many as the sample keeps, before zeros.
    pub open spec fn is_capture_of(
        &self,
        ruby_thread: u64,
        timestamp: u64,
        native_pcs: Option<Seq<usize>>,
        frames: Seq<u64>,
        linenos: Seq<i32>,
    ) -> bool {
        &&& self.ruby_thread == ruby_thread
        &&& self.timestamp == timestamp
        &&& self.line_count == kept_depth(frames, linenos)
        &&& self.frames@ == padded(
            frames,
            kept_depth(frames, linenos),
            MAX_STACK_DEPTH as nat,
            0u64,
        )
        &&& self.linenos@ == padded(
            linenos,
            kept_depth(frames, linenos),
            MAX_STACK_DEPTH as nat,
            0i32,
        )
        &&& self.c_backtrace_pcs@ == native_table_of(native_pcs)
    }

    /// Every invariant of a sample: the depths are within their bounds and the
    /// managed frames from `line_count` on are zero.
    pub open spec fn wf(&self) -> bool {
        &&& 0 <= self.line_count <= MAX_STACK_DEPTH
        &&& self.c_backtrace_pcs[0] <= MAX_C_STACK_DEPTH
        &&& forall|i: int| self.line_count <= i < MAX_STACK_DEPTH ==> self.frames[i] == 0
    }

    /// The native program counters of the sample, innermost first.
    pub open spec fn native_pcs(&self) -> Seq<usize> {
        self.c_backtrace_pcs@.subrange(1, 1 + self.c_backtrace_pcs[0] as int)
    }

    /// What the collector is told of for this sample: the thread, then every
    /// frame slot.
    pub open spec fn marked(&self) -> Seq<u64> {
        seq![self.ruby_thread] + self.frames@
    }

    /// What a flush retains of this sample: the thread, then the frames before
    /// the first zero.
    pub open spec fn retained(&self) -> Seq<u64> {
        seq![self.ruby_thread] + live_frames(self.frames@, 0)
    }

    /// Builds the sample of `ruby_thread` at `timestamp` from what the unwinder
    /// and the host reported.
    ///
    /// `native_pcs` is the unwinder's sequence of program counters, absent when
    /// no native walk was made. `frames` and `linenos` are the host's managed
    /// frames with their line numbers, innermost first.
    pub fn capture(
        ruby_thread: u64,
        timestamp: u64,
        native_pcs: Option<&[usize]>,
        frames: &[u64],
        linenos: &[i32],
    ) -> (sample: Sample)
        ensures
            sample.wf(),
            sample.is_capture_of(ruby_thread, timestamp, view_of(native_pcs), frames@, linenos@),
            sample == captured(ruby_thread, timestamp, view_of(native_pcs), frames@, linenos@),
    {
        let c_backtrace_pcs: [usize; C_BACKTRACE_SLOTS] = match native_pcs {
            Some(pcs) => walk_native(pcs),
            None => {
                let zeros: [usize; C_BACKTRACE_SLOTS] = [0; C_BACKTRACE_SLOTS];
                assert(zeros@ =~= Seq::new(C_BACKTRACE_SLOTS as nat, |i: int| 0usize));
                zeros
            },
        };
        let mut sample = Sample {
            ruby_thread,
            timestamp,
            line_count: 0,
            frames: [0; MAX_STACK_DEPTH],
            linenos: [0; MAX_STACK_DEPTH],
            c_backtrace_pcs,
        };
        let mut depth: usize = frames.len();
        if linenos.len() < depth {
            depth = linenos.len();
        }
        if MAX_STACK_DEPTH < depth {
            depth = MAX_STACK_DEPTH;
        }
        let mut i: usize = 0;
        while i < depth
            invariant
                i <= depth,
                depth == kept_depth(frames@, linenos@),
                c_backtrace_pcs@ == native_table_of(view_of(native_pcs)),
                sample.ruby_thread == ruby_thread,
                sample.timestamp == timestamp,
                sample.line_count == i,
                sample.c_backtrace_pcs == c_backtrace_pcs,
                sample.frames@ =~= padded(frames@, i as nat, MAX_STACK_DEPTH as nat, 0u64),
                sample.linenos@ =~= padded(linenos@, i as nat, MAX_STACK_DEPTH as nat, 0i32),
            decreases depth - i,
        {
            sample.frames[i] = frames[i];
            sample.linenos[i] = linenos[i];
            i += 1;
            sample.line_count = sample.line_count + 1;
        }
        proof {
            lemma_capture_is_unique(
                sample,
                captured(ruby_thread, timestamp, view_of(native_pcs), frames@, linenos@),
                ruby_thread,
                timestamp,
                view_of(native_pcs),
                frames@,
                linenos@,
            );
        }
        sample
    }

    /// The `slot`-th handle that the collector must be told of for this sample:
    /// the thread first, then the frame slots in order.
    pub fn marked_at(&self, slot: usize) -> (handle: u64)
        requires
            slot < MARKS_PER_SAMPLE,
        ensures
            handle == self.marked()[slot as int],
    {
        if slot == 0 {
            self.ruby_thread
        } else {
            self.frames[slot - 1]
        }
    }

    /// Lists what the collector must be told of for this sample: the thread,
    /// then each of the frame slots in order.
    pub fn dmark(&self) -> (refs: Vec<u64>)
        ensures
            refs@ == self.marked(),
    {
        let mut refs: Vec<u64> = Vec::new();
        refs.push(self.ruby_thread);
        let mut i: usize = 0;
        while i < MAX_STACK_DEPTH
            invariant
                i <= MAX_STACK_DEPTH,
                refs@ =~= seq![self.ruby_thread] + self.frames@.subrange(0, i as int),
            decreases MAX_STACK_DEPTH - i,
        {
            refs.push(self.frames[i]);
            i += 1;
        }
        assert(self.frames@.subrange(0, MAX_STACK_DEPTH as int) =~= self.frames@);
        refs
    }
}

} // verus!
