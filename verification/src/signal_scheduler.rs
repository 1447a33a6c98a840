use vstd::prelude::*;
use crate::configuration::{interval_refused, time_mode_of, Configuration, ConfigurationError, TimeMode};
use crate::profile::{lemma_monotone_grows, not_older_than_recorded, per_thread_monotone, Profile};
use crate::profile_recorder::{retained_all, ProfileRecorder, DEFAULT_RINGBUFFER_CAPACITY};
use crate::ringbuffer::{push_result, pushed, RingbufferError};
use crate::sample::{captured, view_of, Sample};
use crate::value_set::{inserted_all, ValueSet};

verus! {

/// The period, in milliseconds, at which the buffer is flushed in the
/// background.
pub const FLUSH_PERIOD_MS: u64 = 500;

/// Where a session stands.
#[derive(Clone, Copy, Debug, PartialEq, Eq, Structural)]
pub enum SchedulerState {
    Uninitialized,
    Configured,
    Running,
    Stopped,
}

/// What a profiling signal resolves to: the thread whose timer fired.
#[derive(Clone, Copy, Debug, PartialEq, Eq, Structural)]
pub struct SignalHandlerArgs {
    pub context_ruby_thread: u64,
}

/// One repeating timer to arm: on which thread, at which period, by which
/// clock, and the payload that its signal carries.
#[derive(Clone, Copy, Debug, PartialEq, Eq, Structural)]
pub struct TimerRequest {
    pub ruby_thread: u64,
    pub interval_ms: u64,
    pub time_mode: TimeMode,
    pub payload: usize,
}

/// Who tried to get exclusive hold of the session and found it taken.
#[derive(Clone, Copy, Debug, PartialEq, Eq, Structural)]
pub enum LockSite {
    SignalHandler,
    Flusher,
    Stop,
    CollectorMark,
}

/// What to do when exclusive hold of the session could not be had at once.
#[derive(Clone, Copy, Debug, PartialEq, Eq, Structural)]
pub enum ContentionAction {
    /// Lose the sample and return.
    DropSample,
    /// Skip this flush and wait for the next period.
    SkipTick,
    /// Tell the caller that the stop failed.
    ReportFailure,
    /// Give up the process: a handle would go unreported to the collector.
    Abort,
}

/// What each site does on contention. Nobody waits and nobody tries again.
pub open spec fn contention_action(site: LockSite) -> ContentionAction {
    match site {
        LockSite::SignalHandler => ContentionAction::DropSample,
        LockSite::Flusher => ContentionAction::SkipTick,
        LockSite::Stop => ContentionAction::ReportFailure,
        LockSite::CollectorMark => ContentionAction::Abort,
    }
}

/// The timers for `targets`, whose payloads count up from `first_payload`.
pub open spec fn timer_requests(
    targets: Seq<u64>,
    interval_ms: u64,
    time_mode: TimeMode,
    first_payload: nat,
) -> Seq<TimerRequest> {
    Seq::new(
        targets.len(),
        |i: int|
            TimerRequest {
                ruby_thread: targets[i],
                interval_ms,
                time_mode,
                payload: (first_payload + i) as usize,
            },
    )
}

/// A profiling session: its configuration, its recorder once started, and the
/// threads whose timers are armed. The payload of a thread's timer is the
/// place of the thread among the armed threads.
#[derive(Debug)]
pub struct SignalScheduler {
    configuration: Option<Configuration>,
    profile_recorder: Option<ProfileRecorder>,
    armed_threads: ValueSet,
    stopped: bool,
}

impl SignalScheduler {
    /// The parts are sound and fit the state.
    pub closed spec fn wf(&self) -> bool {
        &&& self.armed_threads.wf()
        &&& self.configuration is Some ==> self.configuration->0.wf()
        &&& self.profile_recorder is Some ==> self.profile_recorder->0.wf()
            && self.configuration is Some
        &&& self.stopped ==> self.profile_recorder is Some
        &&& self.profile_recorder is None ==> self.armed_threads@ == Seq::<u64>::empty()
    }

    /// The configuration, once one was accepted.
    pub closed spec fn configuration(&self) -> Option<Configuration> {
        self.configuration
    }

    /// The recorder, once the session was started.
    pub closed spec fn recorder(&self) -> Option<ProfileRecorder> {
        self.profile_recorder
    }

    /// The threads whose timers are armed, in the order of their payloads.
    pub closed spec fn armed(&self) -> Seq<u64> {
        self.armed_threads@
    }

    /// Whether the session was stopped.
    pub closed spec fn stopped(&self) -> bool {
        self.stopped
    }

    /// Where the session stands.
    pub open spec fn spec_state(&self) -> SchedulerState {
        if self.recorder() is Some {
            if self.stopped() {
                SchedulerState::Stopped
            } else {
                SchedulerState::Running
            }
        } else if self.configuration() is Some {
            SchedulerState::Configured
        } else {
            SchedulerState::Uninitialized
        }
    }

    /// Makes a session that is not configured yet: it has no configuration and
    /// no recorder, no timer is armed for it, and it was not stopped.
    pub fn new() -> (scheduler: SignalScheduler)
        ensures
            scheduler.wf(),
            scheduler.spec_state() == SchedulerState::Uninitialized,
            scheduler.configuration() is None,
            scheduler.recorder() is None,
            scheduler.armed() == Seq::<u64>::empty(),
            !scheduler.stopped(),
    {
        SignalScheduler {
            configuration: None,
            profile_recorder: None,
            armed_threads: ValueSet::new(),
            stopped: false,
        }
    }

    /// Where the session stands.
    #[verifier::when_used_as_spec(spec_state)]
    pub fn state(&self) -> (state: SchedulerState)
        ensures
            state == self.spec_state(),
    {
        if self.profile_recorder.is_some() {
            if self.stopped {
                SchedulerState::Stopped
            } else {
                SchedulerState::Running
            }
        } else if self.configuration.is_some() {
            SchedulerState::Configured
        } else {
            SchedulerState::Uninitialized
        }
    }

    /// Takes the arguments of the session and keeps the configuration built
    /// from them. Answers whether a warning on the interval is due.
    ///
    /// On an unknown time mode nothing changes and the error is returned.
    pub fn initialize(
        &mut self,
        interval_ms: Option<i64>,
        threads: Option<&[u64]>,
        live_threads: &[u64],
        time_mode: Option<&str>,
        track_new_threads: Option<bool>,
    ) -> (r: Result<bool, ConfigurationError>)
        requires
            old(self).wf(),
        ensures
            final(self).wf(),
            final(self).recorder() == old(self).recorder(),
            final(self).armed() == old(self).armed(),
            final(self).stopped() == old(self).stopped(),
            match r {
                Ok(warn) => {
                    &&& warn == interval_refused(interval_ms)
                    &&& final(self).configuration() is Some
                    &&& final(self).configuration()->0.is_built_from(
                        interval_ms,
                        match threads {
                            Some(t) => Some(t@),
                            None => None,
                        },
                        live_threads@,
                        match time_mode {
                            Some(s) => Some(s@),
                            None => None,
                        },
                        track_new_threads,
                    )
                },
                Err(e) => {
                    &&& e == ConfigurationError::InvalidTimeMode
                    &&& time_mode is Some
                    &&& time_mode_of(time_mode->0@) is None
                    &&& final(self).configuration() == old(self).configuration()
                },
            },
    {
        match Configuration::new(interval_ms, threads, live_threads, time_mode, track_new_threads) {
            Ok((configuration, warn)) => {
                self.configuration = Some(configuration);
                Ok(warn)
            },
            Err(e) => Err(e),
        }
    }

    /// Starts a configured session at `start_timestamp`: makes its recorder
    /// and answers the timers to arm, one for each target thread in order.
    ///
    /// A session that is not configured, or that was started before, stays as
    /// it is, and the answer is none.
    pub fn start(&mut self, start_timestamp: u64, backtrace_state: usize) -> (plan: Option<
        Vec<TimerRequest>,
    >)
        requires
            old(self).wf(),
        ensures
            final(self).wf(),
            final(self).configuration() == old(self).configuration(),
            old(self).spec_state() == SchedulerState::Configured ==> {
                &&& final(self).spec_state() == SchedulerState::Running
                &&& final(self).recorder()->0.flushed() == Seq::<Sample>::empty()
                &&& final(self).recorder()->0.buffered() == Seq::<Sample>::empty()
                &&& final(self).recorder()->0.known() == Seq::<u64>::empty()
                &&& final(self).recorder()->0.capacity() == DEFAULT_RINGBUFFER_CAPACITY
                &&& final(self).recorder()->0.spec_start_timestamp() == start_timestamp
                &&& final(self).recorder()->0.spec_backtrace_state() == backtrace_state
                &&& final(self).armed() == old(self).configuration()->0.spec_target_ruby_threads()
                &&& plan is Some
                &&& plan->0@ == timer_requests(
                    final(self).armed(),
                    old(self).configuration()->0.spec_interval_ms(),
                    old(self).configuration()->0.spec_time_mode(),
                    0,
                )
            },
            old(self).spec_state() != SchedulerState::Configured ==> {
                &&& plan is None
                &&& final(self).recorder() == old(self).recorder()
                &&& final(self).armed() == old(self).armed()
                &&& final(self).stopped() == old(self).stopped()
            },
    {
        if self.profile_recorder.is_some() {
            return None;
        }
        let mut plan: Vec<TimerRequest> = Vec::new();
        match &self.configuration {
            None => {
                return None;
            },
            Some(configuration) => {
                let targets = configuration.target_ruby_threads();
                let interval_ms: u64 = configuration.interval_ms();
                let time_mode: TimeMode = configuration.time_mode();
                let mut i: usize = 0;
                while i < targets.len()
                    invariant
                        i <= targets@.len(),
                        plan@ =~= timer_requests(
                            targets@.subrange(0, i as int),
                            interval_ms,
                            time_mode,
                            0,
                        ),
                    decreases targets@.len() - i,
                {
                    plan.push(
                        TimerRequest {
                            ruby_thread: targets.get(i),
                            interval_ms,
                            time_mode,
                            payload: i,
                        },
                    );
                    i += 1;
                }
                assert(targets@.subrange(0, i as int) =~= targets@);
                self.armed_threads = targets.duplicate();
            },
        }
        self.profile_recorder = Some(ProfileRecorder::new(start_timestamp, backtrace_state));
        Some(plan)
    }

    /// Resolves the payload of a profiling signal to the thread whose timer
    /// carries it. A payload that no armed timer carries resolves to none.
    pub fn handler_args(&self, payload: usize) -> (args: Option<SignalHandlerArgs>)
        ensures
            payload < self.armed().len() ==> args == Some(
                SignalHandlerArgs { context_ruby_thread: self.armed()[payload as int] },
            ),
            payload >= self.armed().len() ==> args is None,
    {
        if payload < self.armed_threads.len() {
            Some(SignalHandlerArgs { context_ruby_thread: self.armed_threads.get(payload) })
        } else {
            None
        }
    }

    /// Takes `ruby_thread`, which the host has just seen, among the armed
    /// threads, where the session runs, follows new threads and has not armed
    /// it yet; answers the timer to arm for it. Otherwise nothing changes and
    /// the answer is none.
    pub fn observe_thread(&mut self, ruby_thread: u64) -> (request: Option<TimerRequest>)
        requires
            old(self).wf(),
        ensures
            final(self).wf(),
            final(self).configuration() == old(self).configuration(),
            final(self).recorder() == old(self).recorder(),
            final(self).stopped() == old(self).stopped(),
            old(self).arms_on_sight(ruby_thread) ==> {
                &&& final(self).armed() == old(self).armed().push(ruby_thread)
                &&& request == Some(
                    TimerRequest {
                        ruby_thread,
                        interval_ms: old(self).configuration()->0.spec_interval_ms(),
                        time_mode: old(self).configuration()->0.spec_time_mode(),
                        payload: old(self).armed().len() as usize,
                    },
                )
            },
            !old(self).arms_on_sight(ruby_thread) ==> {
                &&& final(self).armed() == old(self).armed()
                &&& request is None
            },
    {
        if self.profile_recorder.is_none() || self.stopped {
            return None;
        }
        let (follows, interval_ms, time_mode): (bool, u64, TimeMode) = match &self.configuration {
            None => (false, 0, TimeMode::CpuTime),
            Some(configuration) => (
                configuration.track_new_threads(),
                configuration.interval_ms(),
                configuration.time_mode(),
            ),
        };
        if !follows {
            return None;
        }
        let payload: usize = self.armed_threads.len();
        let fresh: bool = self.armed_threads.insert(ruby_thread);
        if fresh {
            Some(TimerRequest { ruby_thread, interval_ms, time_mode, payload })
        } else {
            None
        }
    }

    /// Whether a thread that the host has just seen gets a timer: the session
    /// runs, follows new threads, and has no timer armed for it.
    pub open spec fn arms_on_sight(&self, ruby_thread: u64) -> bool {
        &&& self.spec_state() == SchedulerState::Running
        &&& self.configuration()->0.spec_track_new_threads()
        &&& !self.armed().contains(ruby_thread)
    }

    /// The body of the signal handler, once exclusive hold of the session was
    /// had: builds the sample of the interrupted thread from what the
    /// unwinder and the host reported, and puts it into the buffer. A full
    /// buffer loses the sample.
    ///
    /// Signals come from timers, and timers are armed by a start: the session
    /// must have been started.
    pub fn signal_handler(
        &mut self,
        args: &SignalHandlerArgs,
        timestamp: u64,
        native_pcs: Option<&[usize]>,
        frames: &[u64],
        linenos: &[i32],
    ) -> (r: Result<(), RingbufferError>)
        requires
            old(self).wf(),
            old(self).recorder() is Some,
        ensures
            final(self).wf(),
            final(self).configuration() == old(self).configuration(),
            final(self).armed() == old(self).armed(),
            final(self).stopped() == old(self).stopped(),
            final(self).recorder() is Some,
            final(self).recorder()->0.buffered() == pushed(
                old(self).recorder()->0.buffered(),
                old(self).recorder()->0.capacity(),
                captured(
                    args.context_ruby_thread,
                    timestamp,
                    view_of(native_pcs),
                    frames@,
                    linenos@,
                ),
            ),
            captured(
                args.context_ruby_thread,
                timestamp,
                view_of(native_pcs),
                frames@,
                linenos@,
            ).is_capture_of(
                args.context_ruby_thread,
                timestamp,
                view_of(native_pcs),
                frames@,
                linenos@,
            ),
            r == push_result(
                old(self).recorder()->0.buffered(),
                old(self).recorder()->0.capacity(),
            ),
            final(self).recorder()->0.capacity() == old(self).recorder()->0.capacity(),
            final(self).recorder()->0.flushed() == old(self).recorder()->0.flushed(),
            final(self).recorder()->0.known() == old(self).recorder()->0.known(),
            final(self).recorder()->0.spec_start_timestamp() == old(
                self,
            ).recorder()->0.spec_start_timestamp(),
            final(self).recorder()->0.spec_backtrace_state() == old(
                self,
            ).recorder()->0.spec_backtrace_state(),
            per_thread_monotone(old(self).recorder()->0.history()) && not_older_than_recorded(
                old(self).recorder()->0.history(),
                captured(
                    args.context_ruby_thread,
                    timestamp,
                    view_of(native_pcs),
                    frames@,
                    linenos@,
                ),
            ) ==> per_thread_monotone(final(self).recorder()->0.history()),
    {
        let sample = Sample::capture(args.context_ruby_thread, timestamp, native_pcs, frames, linenos);
        let mut recorder: ProfileRecorder = self.profile_recorder.take().unwrap();
        let ghost before = recorder.history();
        let r = recorder.record(sample);
        proof {
            if r is Ok {
                assert(recorder.history() =~= before.push(sample));
                if per_thread_monotone(before) && not_older_than_recorded(before, sample) {
                    lemma_monotone_grows(before, sample);
                }
            } else {
                assert(recorder.history() =~= before);
            }
        }
        self.profile_recorder = Some(recorder);
        r
    }

    /// One tick of the background flusher, once exclusive hold of the session
    /// was had: moves the buffered samples to the profile. Before the start
    /// there is nothing to do.
    pub fn flush(&mut self)
        requires
            old(self).wf(),
        ensures
            final(self).wf(),
            final(self).configuration() == old(self).configuration(),
            final(self).armed() == old(self).armed(),
            final(self).stopped() == old(self).stopped(),
            old(self).recorder() is None ==> final(self).recorder() is None,
            old(self).recorder() is Some ==> final(self).recorder() is Some && is_flush_of(
                final(self).recorder()->0,
                old(self).recorder()->0,
            ),
    {
        if self.profile_recorder.is_some() {
            let mut recorder: ProfileRecorder = self.profile_recorder.take().unwrap();
            recorder.flush_temporary_sample_buffer();
            self.profile_recorder = Some(recorder);
        }
    }

    /// Stops a started session, once exclusive hold of it was had: moves the
    /// buffered samples to the profile, which is then complete. Timers stay
    /// armed.
    ///
    /// To stop a session that was never started is a fault of the caller: the
    /// session must have been started.
    pub fn stop(&mut self)
        requires
            old(self).wf(),
            old(self).recorder() is Some,
        ensures
            final(self).wf(),
            final(self).spec_state() == SchedulerState::Stopped,
            final(self).configuration() == old(self).configuration(),
            final(self).armed() == old(self).armed(),
            final(self).recorder() is Some,
            is_flush_of(final(self).recorder()->0, old(self).recorder()->0),
    {
        self.flush();
        self.stopped = true;
    }

    /// The profile as it stands, once the session was started.
    pub fn profile(&self) -> (profile: Option<&Profile>)
        ensures
            self.recorder() is None ==> profile is None,
            self.recorder() is Some ==> profile is Some && profile->0.samples@
                == self.recorder()->0.flushed() && profile->0.start_timestamp
                == self.recorder()->0.spec_start_timestamp(),
    {
        match &self.profile_recorder {
            Some(recorder) => Some(recorder.profile()),
            None => None,
        }
    }

    /// What the collector must keep alive for this session: nothing before the
    /// start, then what the recorder retains.
    pub open spec fn marked(&self) -> Seq<u64> {
        match self.recorder() {
            Some(recorder) => recorder.marked(),
            None => Seq::<u64>::empty(),
        }
    }

    /// The `i`-th handle that the collector must keep alive for this session,
    /// or none where there are not so many. Allocates nothing.
    pub fn marked_at(&self, i: usize) -> (handle: Option<u64>)
        requires
            self.wf(),
        ensures
            i < self.marked().len() ==> handle == Some(self.marked()[i as int]),
            i >= self.marked().len() ==> handle is None,
    {
        match &self.profile_recorder {
            Some(recorder) => recorder.marked_at(i),
            None => None,
        }
    }

    /// Lists every handle that the collector must keep alive for this
    /// session: none before the start, then what the recorder retains.
    pub fn dmark(&self) -> (refs: Vec<u64>)
        requires
            self.wf(),
        ensures
            refs@ == self.marked(),
    {
        match &self.profile_recorder {
            Some(recorder) => recorder.dmark(),
            None => Vec::new(),
        }
    }
}

/// Whether `after` is what a flush makes of `before`.
pub open spec fn is_flush_of(after: ProfileRecorder, before: ProfileRecorder) -> bool {
    &&& after.buffered() == Seq::<Sample>::empty()
    &&& after.capacity() == before.capacity()
    &&& after.flushed() == before.flushed() + before.buffered()
    &&& after.spec_start_timestamp() == before.spec_start_timestamp()
    &&& after.spec_backtrace_state() == before.spec_backtrace_state()
    &&& after.known() == inserted_all(before.known(), retained_all(before.buffered()))
    &&& after.history() == before.history()
}

/// Says what a site does when it could not get exclusive hold of the session
/// at once.
pub fn on_contention(site: LockSite) -> (action: ContentionAction)
    ensures
        action == contention_action(site),
{
    match site {
        LockSite::SignalHandler => ContentionAction::DropSample,
        LockSite::Flusher => ContentionAction::SkipTick,
        LockSite::Stop => ContentionAction::ReportFailure,
        LockSite::CollectorMark => ContentionAction::Abort,
    }
}

} // verus!
