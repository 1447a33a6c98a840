use pf2::configuration::{ConfigurationError, TimeMode};
use pf2::ringbuffer::RingbufferError;
use pf2::signal_scheduler::{
    on_contention, ContentionAction, LockSite, SchedulerState, SignalHandlerArgs, SignalScheduler,
    TimerRequest, FLUSH_PERIOD_MS,
};

const T1: u64 = 0x7001;
const T2: u64 = 0x7002;

#[test]
fn new_scheduler_is_uninitialized() {
    let s = SignalScheduler::new();
    assert_eq!(s.state(), SchedulerState::Uninitialized);
    assert!(s.profile().is_none());
    assert!(s.dmark().is_empty());
    assert_eq!(s.handler_args(0), None);
}

#[test]
fn initialize_configures() {
    let mut s = SignalScheduler::new();
    assert_eq!(s.initialize(Some(10), Some(&[T1]), &[T1, T2], Some("wall"), None), Ok(false));
    assert_eq!(s.state(), SchedulerState::Configured);
}

#[test]
fn initialize_refuses_unknown_time_mode() {
    let mut s = SignalScheduler::new();
    assert_eq!(
        s.initialize(Some(10), Some(&[T1]), &[], Some("both"), None),
        Err(ConfigurationError::InvalidTimeMode)
    );
    assert_eq!(s.state(), SchedulerState::Uninitialized);
}

#[test]
fn initialize_warns_on_negative_interval() {
    let mut s = SignalScheduler::new();
    assert_eq!(s.initialize(Some(-1), None, &[T1], None, None), Ok(true));
    let plan = s.start(0, 0).unwrap();
    assert_eq!(plan[0].interval_ms, 49);
    assert_eq!(plan[0].time_mode, TimeMode::CpuTime);
}

#[test]
fn start_answers_one_timer_per_target() {
    let mut s = SignalScheduler::new();
    s.initialize(Some(10), Some(&[T1, T2, T1]), &[], Some("wall"), None).unwrap();
    let plan = s.start(1000, 5).unwrap();
    assert_eq!(
        plan,
        vec![
            TimerRequest { ruby_thread: T1, interval_ms: 10, time_mode: TimeMode::WallTime, payload: 0 },
            TimerRequest { ruby_thread: T2, interval_ms: 10, time_mode: TimeMode::WallTime, payload: 1 },
        ]
    );
    assert_eq!(s.state(), SchedulerState::Running);
    assert_eq!(s.handler_args(1), Some(SignalHandlerArgs { context_ruby_thread: T2 }));
    assert_eq!(s.handler_args(2), None);
    assert_eq!(s.profile().unwrap().start_timestamp, 1000);
}

#[test]
fn second_start_is_refused() {
    let mut s = SignalScheduler::new();
    s.initialize(None, Some(&[T1]), &[], None, None).unwrap();
    assert!(s.start(1000, 5).is_some());
    assert!(s.start(2000, 6).is_none());
    assert_eq!(s.profile().unwrap().start_timestamp, 1000);
    assert_eq!(s.state(), SchedulerState::Running);
}

#[test]
fn session_yields_samples_of_the_target_thread() {
    let mut s = SignalScheduler::new();
    s.initialize(Some(10), Some(&[T1]), &[], Some("wall"), None).unwrap();
    let plan = s.start(0, 0).unwrap();
    assert_eq!(plan.len(), 1);
    let mut now: u64 = 0;
    while now < 200_000_000 {
        now += 10_000_000;
        let args = s.handler_args(plan[0].payload).unwrap();
        assert_eq!(s.signal_handler(&args, now, Some(&[0x1, 0x2]), &[0xf1], &[7]), Ok(()));
    }
    s.stop();
    assert_eq!(s.state(), SchedulerState::Stopped);
    let profile = s.profile().unwrap();
    assert_eq!(profile.samples.len(), 20);
    assert!(profile.samples.iter().all(|x| x.ruby_thread == T1));
    assert_eq!(profile.samples[0].timestamp, 10_000_000);
    assert_eq!(profile.samples[0].line_count, 1);
}

#[test]
fn timestamps_of_each_thread_do_not_go_back() {
    let mut s = SignalScheduler::new();
    s.initialize(Some(10), Some(&[T1, T2]), &[], Some("cpu"), None).unwrap();
    s.start(0, 0).unwrap();
    let a1 = s.handler_args(0).unwrap();
    let a2 = s.handler_args(1).unwrap();
    let mut now: u64 = 0;
    for round in 0..50u64 {
        now += 3;
        s.signal_handler(&a1, now, None, &[1], &[1]).unwrap();
        now += 4;
        s.signal_handler(&a2, now, None, &[2], &[2]).unwrap();
        if round % 7 == 0 {
            s.flush();
        }
    }
    s.stop();
    let samples = &s.profile().unwrap().samples;
    assert_eq!(samples.len(), 100);
    for i in 0..samples.len() {
        for j in i + 1..samples.len() {
            if samples[i].ruby_thread == samples[j].ruby_thread {
                assert!(samples[i].timestamp <= samples[j].timestamp);
            }
        }
    }
}

#[test]
fn handler_loses_samples_when_buffer_is_full() {
    let mut s = SignalScheduler::new();
    s.initialize(None, Some(&[T1]), &[], None, None).unwrap();
    s.start(0, 0).unwrap();
    let args = s.handler_args(0).unwrap();
    for n in 0..320u64 {
        assert_eq!(s.signal_handler(&args, n, None, &[], &[]), Ok(()));
    }
    assert_eq!(s.signal_handler(&args, 999, None, &[], &[]), Err(RingbufferError::Full));
    s.flush();
    assert_eq!(s.signal_handler(&args, 1000, None, &[], &[]), Ok(()));
    s.stop();
    assert_eq!(s.profile().unwrap().samples.len(), 321);
}

#[test]
fn collector_hears_of_buffered_frames() {
    let mut s = SignalScheduler::new();
    s.initialize(None, Some(&[T1]), &[], None, None).unwrap();
    s.start(0, 0).unwrap();
    let args = s.handler_args(0).unwrap();
    let f: u64 = 0xbeef;
    s.signal_handler(&args, 1, None, &[f], &[1]).unwrap();
    assert!(s.dmark().contains(&f));
    s.flush();
    assert_eq!(s.dmark(), vec![T1, f]);
    assert_eq!(s.marked_at(1), Some(f));
    assert_eq!(s.marked_at(2), None);
}

#[test]
fn new_threads_are_armed_only_when_followed() {
    let mut s = SignalScheduler::new();
    s.initialize(Some(20), Some(&[T1]), &[], Some("cpu"), Some(true)).unwrap();
    assert_eq!(s.observe_thread(T2), None);
    s.start(0, 0).unwrap();
    assert_eq!(s.observe_thread(T1), None);
    assert_eq!(
        s.observe_thread(T2),
        Some(TimerRequest { ruby_thread: T2, interval_ms: 20, time_mode: TimeMode::CpuTime, payload: 1 })
    );
    assert_eq!(s.observe_thread(T2), None);
    assert_eq!(s.handler_args(1), Some(SignalHandlerArgs { context_ruby_thread: T2 }));

    let mut quiet = SignalScheduler::new();
    quiet.initialize(None, Some(&[T1]), &[], None, None).unwrap();
    quiet.start(0, 0).unwrap();
    assert_eq!(quiet.observe_thread(T2), None);
}

#[test]
fn stop_may_be_asked_again() {
    let mut s = SignalScheduler::new();
    s.initialize(None, Some(&[T1]), &[], None, None).unwrap();
    s.start(0, 0).unwrap();
    s.stop();
    let args = s.handler_args(0).unwrap();
    s.signal_handler(&args, 5, None, &[], &[]).unwrap();
    s.stop();
    assert_eq!(s.profile().unwrap().samples.len(), 1);
    assert_eq!(s.state(), SchedulerState::Stopped);
}

#[test]
fn contention_table() {
    assert_eq!(on_contention(LockSite::SignalHandler), ContentionAction::DropSample);
    assert_eq!(on_contention(LockSite::Flusher), ContentionAction::SkipTick);
    assert_eq!(on_contention(LockSite::Stop), ContentionAction::ReportFailure);
    assert_eq!(on_contention(LockSite::CollectorMark), ContentionAction::Abort);
    assert_eq!(FLUSH_PERIOD_MS, 500);
}

#[test]
fn start_before_initialize_is_refused() {
    let mut s = SignalScheduler::new();
    assert!(s.start(0, 0).is_none());
    assert_eq!(s.state(), SchedulerState::Uninitialized);
    assert!(s.profile().is_none());
}
