//! The engine of a sampling profiler for a managed runtime.
//!
//! Timers interrupt the monitored threads; the handler builds a [`sample::Sample`]
//! of the interrupted thread and puts it into a fixed [`ringbuffer::Ringbuffer`];
//! a flush moves the buffered samples into the [`profile::Profile`] and retains
//! the handles they hold, so that the host's collector can be told what must
//! stay alive. [`signal_scheduler::SignalScheduler`] ties these together as one
//! session with a life cycle.
//!
//! Everything here works on plain values: thread and frame handles are `u64`,
//! timestamps are nanoseconds of a monotonic clock. Signals, timers, locks and
//! the host's calls belong to the embedding.

pub mod configuration;
pub mod profile;
pub mod profile_recorder;
pub mod ringbuffer;
pub mod sample;
pub mod session;
pub mod signal_scheduler;
pub mod value_set;
