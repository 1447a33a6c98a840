use vstd::prelude::*;
use vstd::string::StrSliceExecFns;
use crate::value_set::{inserted_all, ValueSet};

verus! {

/// Interval used when none is given, or when the given one is not usable.
pub const DEFAULT_INTERVAL_MS: u64 = 49;

/// The clock by which a thread's sampling interval is measured.
#[derive(Clone, Copy, Debug, PartialEq, Eq, Structural)]
pub enum TimeMode {
    /// CPU time consumed by the thread.
    CpuTime,
    /// Wall-clock time elapsed.
    WallTime,
}

/// Why a configuration was refused.
#[derive(Clone, Copy, Debug, PartialEq, Eq, Structural)]
pub enum ConfigurationError {
    /// The time mode was neither `cpu` nor `wall`.
    InvalidTimeMode,
}

/// What the text of a time mode stands for.
pub open spec fn time_mode_of(s: Seq<char>) -> Option<TimeMode> {
    if s == "cpu"@ {
        Some(TimeMode::CpuTime)
    } else if s == "wall"@ {
        Some(TimeMode::WallTime)
    } else {
        None
    }
}

impl TimeMode {
    /// Reads a time mode: exactly `cpu` or `wall`, anything else is an error.
    pub fn from_str(s: &str) -> (r: Result<TimeMode, ConfigurationError>)
        ensures
            r == match time_mode_of(s@) {
                Some(m) => Ok::<TimeMode, ConfigurationError>(m),
                None => Err::<TimeMode, ConfigurationError>(ConfigurationError::InvalidTimeMode),
            },
    {
        proof {
            reveal_strlit("cpu");
            reveal_strlit("wall");
        }
        let n: usize = s.unicode_len();
        if n == 3 {
            if s.get_char(0) == 'c' && s.get_char(1) == 'p' && s.get_char(2) == 'u' {
                assert(s@ =~= "cpu"@);
                return Ok(TimeMode::CpuTime);
            }
        } else if n == 4 {
            if s.get_char(0) == 'w' && s.get_char(1) == 'a' && s.get_char(2) == 'l' && s.get_char(
                3,
            ) == 'l' {
                assert(s@ =~= "wall"@);
                return Ok(TimeMode::WallTime);
            }
        }
        Err(ConfigurationError::InvalidTimeMode)
    }
}

/// The interval in milliseconds that a session samples at: the given one, or
/// the default where none was given or the given one is negative.
pub open spec fn interval_of(interval_ms: Option<i64>) -> u64 {
    match interval_ms {
        Some(v) => if v >= 0 {
            v as u64
        } else {
            DEFAULT_INTERVAL_MS
        },
        None => DEFAULT_INTERVAL_MS,
    }
}

/// Whether a given interval was set aside for the default, so that a warning is
/// due.
pub open spec fn interval_refused(interval_ms: Option<i64>) -> bool {
    interval_ms is Some && interval_ms->0 < 0
}

/// The threads that a session samples, each once, in the order given: the given
/// ones, or the live ones where none were given.
pub open spec fn targets_of(threads: Option<Seq<u64>>, live_threads: Seq<u64>) -> Seq<u64> {
    inserted_all(
        Seq::empty(),
        match threads {
            Some(t) => t,
            None => live_threads,
        },
    )
}

/// The time mode of a session: the one that the text names, or CPU time where
/// no text was given; none where the text names no mode.
pub open spec fn mode_of(time_mode: Option<Seq<char>>) -> Option<TimeMode> {
    match time_mode {
        Some(s) => time_mode_of(s),
        None => Some(TimeMode::CpuTime),
    }
}

/// The parameters of one profiling session. Nothing changes them once made.
#[derive(Debug)]
pub struct Configuration {
    interval_ms: u64,
    target_ruby_threads: ValueSet,
    time_mode: TimeMode,
    track_new_threads: bool,
}

impl Configuration {
    /// The set of target threads is sound.
    pub closed spec fn wf(&self) -> bool {
        self.target_ruby_threads.wf()
    }

    /// The sampling interval in milliseconds.
    pub closed spec fn spec_interval_ms(&self) -> u64 {
        self.interval_ms
    }

    /// The threads to sample, each once, in the order given.
    pub closed spec fn spec_target_ruby_threads(&self) -> Seq<u64> {
        self.target_ruby_threads@
    }

    /// The clock by which the interval is measured.
    pub closed spec fn spec_time_mode(&self) -> TimeMode {
        self.time_mode
    }

    /// Whether threads that appear during the session are sampled too.
    pub closed spec fn spec_track_new_threads(&self) -> bool {
        self.track_new_threads
    }

    /// Whether this configuration holds exactly what the arguments ask for.
    pub open spec fn is_built_from(
        &self,
        interval_ms: Option<i64>,
        threads: Option<Seq<u64>>,
        live_threads: Seq<u64>,
        time_mode: Option<Seq<char>>,
        track_new_threads: Option<bool>,
    ) -> bool {
        &&& self.wf()
        &&& self.spec_interval_ms() == interval_of(interval_ms)
        &&& self.spec_target_ruby_threads() == targets_of(threads, live_threads)
        &&& Some(self.spec_time_mode()) == mode_of(time_mode)
        &&& self.spec_track_new_threads() == (track_new_threads == Some(true))
    }

    /// Builds the configuration from the arguments of a session, each of which
    /// may be absent. `live_threads` are the threads that exist now: they are
    /// the targets where `threads` is absent.
    ///
    /// A time mode other than `cpu` or `wall` is an error. A negative interval
    /// is not: the default takes its place, and the flag beside the
    /// configuration says that a warning is due.
    pub fn new(
        interval_ms: Option<i64>,
        threads: Option<&[u64]>,
        live_threads: &[u64],
        time_mode: Option<&str>,
        track_new_threads: Option<bool>,
    ) -> (r: Result<(Configuration, bool), ConfigurationError>)
        ensures
            match r {
                Ok((c, warn)) => {
                    &&& c.is_built_from(
                        interval_ms,
                        match threads {
                            Some(t) => Some(t@),
                            None => None,
                        },
                        live_threads@,
                        match time_mode {
                            Some(s) => Some(s@),
                            None => None,
                        },
                        track_new_threads,
                    )
                    &&& warn == interval_refused(interval_ms)
                },
                Err(e) => {
                    &&& e == ConfigurationError::InvalidTimeMode
                    &&& time_mode is Some
                    &&& time_mode_of(time_mode->0@) is None
                },
            },
    {
        let mut warn: bool = false;
        let interval: u64 = match interval_ms {
            Some(v) => {
                if v >= 0 {
                    v as u64
                } else {
                    warn = true;
                    DEFAULT_INTERVAL_MS
                }
            },
            None => DEFAULT_INTERVAL_MS,
        };
        let mode: TimeMode = match time_mode {
            Some(s) => {
                match TimeMode::from_str(s) {
                    Ok(m) => m,
                    Err(e) => {
                        return Err(e);
                    },
                }
            },
            None => TimeMode::CpuTime,
        };
        let mut targets = ValueSet::new();
        match threads {
            Some(t) => targets.insert_all(t),
            None => targets.insert_all(live_threads),
        }
        let track: bool = match track_new_threads {
            Some(b) => b,
            None => false,
        };
        Ok(
            (
                Configuration {
                    interval_ms: interval,
                    target_ruby_threads: targets,
                    time_mode: mode,
                    track_new_threads: track,
                },
                warn,
            ),
        )
    }

    /// The sampling interval in milliseconds.
    #[verifier::when_used_as_spec(spec_interval_ms)]
    pub fn interval_ms(&self) -> (r: u64)
        ensures
            r == self.spec_interval_ms(),
    {
        self.interval_ms
    }

    /// The threads to sample, each once.
    pub fn target_ruby_threads(&self) -> (r: &ValueSet)
        ensures
            r@ == self.spec_target_ruby_threads(),
            self.wf() ==> r.wf(),
    {
        &self.target_ruby_threads
    }

    /// The clock by which the interval is measured.
    #[verifier::when_used_as_spec(spec_time_mode)]
    pub fn time_mode(&self) -> (r: TimeMode)
        ensures
            r == self.spec_time_mode(),
    {
        self.time_mode
    }

    /// Whether threads that appear during the session are sampled too.
    #[verifier::when_used_as_spec(spec_track_new_threads)]
    pub fn track_new_threads(&self) -> (r: bool)
        ensures
            r == self.spec_track_new_threads(),
    {
        self.track_new_threads
    }
}

} // verus!
