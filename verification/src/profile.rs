use vstd::prelude::*;
use crate::sample::Sample;

verus! {

/// What a session has recorded: when it began, and its samples in the order in
/// which they were flushed.
#[derive(Debug)]
pub struct Profile {
    pub start_timestamp: u64,
    pub samples: Vec<Sample>,
}

/// Whether, among the samples of each thread, no timestamp is smaller than an
/// earlier one.
pub open spec fn per_thread_monotone(samples: Seq<Sample>) -> bool {
    forall|i: int, j: int|
        0 <= i < j < samples.len() && samples[i].ruby_thread == samples[j].ruby_thread
            ==> samples[i].timestamp <= samples[j].timestamp
}

/// Whether `sample` is no older than any sample of its thread in `samples`.
pub open spec fn not_older_than_recorded(samples: Seq<Sample>, sample: Sample) -> bool {
    forall|i: int|
        0 <= i < samples.len() && samples[i].ruby_thread == sample.ruby_thread
            ==> samples[i].timestamp <= sample.timestamp
}

/// Where the samples of each thread so far are in the order of their
/// timestamps, they stay so when a sample is added that is no older than the
/// recorded samples of its thread.
pub proof fn lemma_monotone_grows(samples: Seq<Sample>, sample: Sample)
    requires
        per_thread_monotone(samples),
        not_older_than_recorded(samples, sample),
    ensures
        per_thread_monotone(samples.push(sample)),
{
}

} // verus!
