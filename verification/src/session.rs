use vstd::prelude::*;
use crate::profile::{lemma_monotone_grows, not_older_than_recorded, per_thread_monotone};
use crate::ringbuffer::pushed;
use crate::sample::Sample;

verus! {

/// What happens to the recorder of a started session.
pub enum SessionEvent {
    /// The signal handler built this sample and offered it to the buffer.
    Signal(Sample),
    /// The buffered samples were moved to the profile.
    Flush,
}

/// The flushed and the buffered samples of a recorder with `capacity` slots
/// after `events` happened, in their order, to a new one.
pub open spec fn replay(capacity: nat, events: Seq<SessionEvent>) -> (Seq<Sample>, Seq<Sample>)
    decreases events.len(),
{
    if events.len() == 0 {
        (Seq::empty(), Seq::empty())
    } else {
        let (flushed, buffered) = replay(capacity, events.drop_last());
        match events.last() {
            SessionEvent::Signal(sample) => (flushed, pushed(buffered, capacity, sample)),
            SessionEvent::Flush => (flushed + buffered, Seq::empty()),
        }
    }
}

/// The profile of a session that is stopped after `events`.
pub open spec fn final_profile(capacity: nat, events: Seq<SessionEvent>) -> Seq<Sample> {
    replay(capacity, events).0 + replay(capacity, events).1
}

/// Whether the samples of each thread were taken at times that do not go back.
pub open spec fn clock_keeps_order(events: Seq<SessionEvent>) -> bool {
    forall|i: int, j: int|
        0 <= i < j < events.len() && sampled_thread(#[trigger] events[i]) is Some && sampled_thread(
            #[trigger] events[j],
        ) == sampled_thread(events[i]) ==> sampled_time(events[i]) <= sampled_time(events[j])
}

/// The thread that an event sampled, if it sampled one.
pub open spec fn sampled_thread(event: SessionEvent) -> Option<u64> {
    match event {
        SessionEvent::Signal(sample) => Some(sample.ruby_thread),
        SessionEvent::Flush => None,
    }
}

/// The time at which an event sampled; zero for one that did not.
pub open spec fn sampled_time(event: SessionEvent) -> u64 {
    match event {
        SessionEvent::Signal(sample) => sample.timestamp,
        SessionEvent::Flush => 0,
    }
}

/// Whether each of `samples` was offered by one of `events`.
pub open spec fn all_offered(samples: Seq<Sample>, events: Seq<SessionEvent>) -> bool {
    forall|k: int|
        0 <= k < samples.len() ==> exists|e: int|
            0 <= e < events.len() && #[trigger] events[e] == SessionEvent::Signal(
                #[trigger] samples[k],
            )
}

/// In the profile of any stopped session whose clock does not go back for a
/// thread, the samples of each thread stand in the order of their timestamps,
/// whichever samples were lost to a full buffer and whenever the flushes came.
pub proof fn lemma_session_profile_is_monotone(capacity: nat, events: Seq<SessionEvent>)
    requires
        clock_keeps_order(events),
    ensures
        per_thread_monotone(final_profile(capacity, events)),
        all_offered(final_profile(capacity, events), events),
    decreases events.len(),
{
    let profile = final_profile(capacity, events);
    if events.len() == 0 {
    } else {
        let earlier = events.drop_last();
        let before = final_profile(capacity, earlier);
        let (flushed, buffered) = replay(capacity, earlier);
        assert(clock_keeps_order(earlier)) by {
            assert forall|i: int, j: int|
                0 <= i < j < earlier.len() && sampled_thread(#[trigger] earlier[i]) is Some
                    && sampled_thread(#[trigger] earlier[j]) == sampled_thread(
                    earlier[i],
                ) implies sampled_time(earlier[i]) <= sampled_time(earlier[j]) by {
                assert(earlier[i] == events[i] && earlier[j] == events[j]);
            }
        }
        lemma_session_profile_is_monotone(capacity, earlier);
        assert forall|k: int| 0 <= k < before.len() implies exists|e: int|
            0 <= e < events.len() && #[trigger] events[e] == SessionEvent::Signal(
                #[trigger] before[k],
            ) by {
            let e = choose|e: int|
                0 <= e < earlier.len() && #[trigger] earlier[e] == SessionEvent::Signal(before[k]);
            assert(events[e] == earlier[e]);
        }
        match events.last() {
            SessionEvent::Flush => {
                assert(profile =~= before);
            },
            SessionEvent::Signal(sample) => {
                if buffered.len() < capacity {
                    assert(profile =~= before.push(sample));
                    assert forall|k: int|
                        0 <= k < before.len() && before[k].ruby_thread
                            == sample.ruby_thread implies before[k].timestamp
                        <= sample.timestamp by {
                        let e = choose|e: int|
                            0 <= e < events.len() && #[trigger] events[e] == SessionEvent::Signal(
                                before[k],
                            );
                        assert(events[events.len() - 1] == events.last());
                        assert(sampled_thread(events[e]) is Some);
                    }
                    lemma_monotone_grows(before, sample);
                    assert forall|k: int| 0 <= k < profile.len() implies exists|e: int|
                        0 <= e < events.len() && #[trigger] events[e] == SessionEvent::Signal(
                            #[trigger] profile[k],
                        ) by {
                        if k < before.len() {
                            assert(profile[k] == before[k]);
                            let e = choose|e: int|
                                0 <= e < events.len() && #[trigger] events[e]
                                    == SessionEvent::Signal(before[k]);
                            assert(events[e] == SessionEvent::Signal(profile[k]));
                        } else {
                            assert(events[events.len() - 1] == SessionEvent::Signal(profile[k]));
                        }
                    }
                } else {
                    assert(profile =~= before);
                }
            },
        }
    }
}

} // verus!
