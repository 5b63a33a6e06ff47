//! A single-threaded event reactor for supervising build processes.
//!
//! The library holds the reactor's logic: the clock arithmetic, the timer
//! queue, the registry of watched inputs and the decisions taken on each wake
//! of the multiplexed wait. The system calls themselves (creating the
//! multiplexing instance and the signal channel, waiting, reading a signal,
//! reaping children) are made by the caller, which hands their raw results to
//! [`Loop`] and acts on the [`Step`] it returns.

mod clock;
mod event;
mod reactor;
mod timers;

pub use clock::{
    clamp_i64, get_time_ms, is_clock_reading, time_to_ms, Timespec, MS_PER_SEC, NS_PER_MS,
    NS_PER_SEC,
};
pub use event::{is_termination, Event, Signal, SIGCHLD, SIGINT, SIGQUIT, SIGTERM};
pub use timers::{
    is_earliest, is_min_deadline, lemma_pop_takes_one, lemma_pops_in_deadline_order,
    lemma_tied_entries_each_once, pops, TimerQueue,
};
pub use reactor::{
    deadline_from, deadline_spec, has_due, lemma_successive_timeouts_ordered,
    lemma_termination_preempts_timers,
    lemma_timeout_never_early, lemma_transient_outcomes_invisible, signal_step, timeout_for,
    wait_outcome, wake_of, Loop, PollError, Step, Wake, EAGAIN, EINTR, ETIMEDOUT,
};
