use vstd::prelude::*;

verus! {

/// Signal number of an interrupt request (Linux numbering).
pub const SIGINT: i32 = 2;

/// Signal number of a quit request (Linux numbering).
pub const SIGQUIT: i32 = 3;

/// Signal number of a termination request (Linux numbering).
pub const SIGTERM: i32 = 15;

/// Signal number sent when a child process changes state (Linux numbering).
pub const SIGCHLD: i32 = 17;

/// A process-level condition reported by the reactor.
#[derive(Clone, Copy, Debug, PartialEq, Eq, Structural)]
pub enum Signal {
    /// A termination request arrived, with its signal number.
    Terminate(i32),
    /// A child process ended, with its process id and wait status.
    Child(i32, i32),
}

/// The signal numbers that ask the process to stop: interrupt, terminate
/// and quit.
pub open spec fn is_termination(signo: i32) -> bool {
    signo == SIGINT || signo == SIGTERM || signo == SIGQUIT
}

/// What one poll of the reactor reports.
#[derive(Clone, Debug, PartialEq, Eq)]
pub enum Event<Name> {
    /// A termination request or a child's exit was observed.
    Signal(Signal),
    /// The timer with the earliest deadline came due and left the queue.
    Timeout(Name),
    /// A registered input became readable.
    Input(Name),
}

} // verus!
