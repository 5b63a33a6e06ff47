use crate::clock::{clamp_i64, get_time_ms, is_clock_reading};
use crate::event::{is_termination, Event, Signal, SIGINT, SIGQUIT, SIGTERM};
use crate::timers::{is_min_deadline, lemma_pops_in_deadline_order, pops, TimerQueue};
use std::collections::HashMap;
use vstd::prelude::*;

verus! {

broadcast use vstd::std_specs::hash::group_hash_axioms;

/// `errno` value of an interrupted call (Linux numbering).
pub const EINTR: i32 = 4;

/// `errno` value of a call that would block (Linux numbering).
pub const EAGAIN: i32 = 11;

/// `errno` value of a timed-out call (Linux numbering).
pub const ETIMEDOUT: i32 = 110;

/// The raw result of one multiplexed wait, sorted by meaning.
///
/// The wait reports the ready descriptor, or a negated `errno`:
/// `-ETIMEDOUT` when the timeout elapsed first.
#[derive(Clone, Copy, Debug, PartialEq, Eq, Structural)]
pub enum Wake {
    /// The timeout elapsed with nothing ready.
    TimedOut,
    /// A signal interrupted the wait before anything was ready.
    Interrupted,
    /// The wait failed, with the (negated) error it gave.
    Failed(i32),
    /// The signal channel has a signal to read.
    SignalReady,
    /// This registered input became readable.
    InputReady(i32),
}

/// The meaning of the wait result `rc`, given the signal channel `sfd`.
pub open spec fn wake_of(rc: i32, sfd: i32) -> Wake {
    if rc == -ETIMEDOUT {
        Wake::TimedOut
    } else if rc == -EINTR {
        Wake::Interrupted
    } else if rc < 0 {
        Wake::Failed(rc)
    } else if rc == sfd {
        Wake::SignalReady
    } else {
        Wake::InputReady(rc)
    }
}

/// A failure inside a poll from which the reactor cannot recover.
#[derive(Clone, Copy, Debug, PartialEq, Eq, Structural)]
pub enum PollError {
    /// The multiplexed wait failed, with its result.
    WaitFailed(i32),
    /// Reading the signal channel failed, with its result.
    SignalReadFailed(i32),
    /// A descriptor that was never registered became ready.
    UnknownInput(i32),
}

/// What the caller does next within one poll.
#[derive(Debug, PartialEq, Eq)]
pub enum Step<Name> {
    /// Nothing to report: check for exited children and wait again.
    Again,
    /// Read one signal from the signal channel and hand the result to
    /// [`Loop::on_signal`].
    ReadSignal,
    /// The poll ends with this event.
    Fire(Event<Name>),
    /// The poll cannot go on.
    Fatal(PollError),
}

/// The wait timeout, in milliseconds, for a deadline `d` at time `now`:
/// the time left, no less than zero and no more than `i32::MAX`.
pub open spec fn timeout_for(d: i64, now: i64) -> int {
    if d - now <= 0 {
        0
    } else if d - now > i32::MAX {
        i32::MAX as int
    } else {
        d - now
    }
}

/// Some entry of `q` is due at time `now`.
pub open spec fn has_due<Name>(q: Seq<(i64, Name)>, now: i64) -> bool {
    exists|i: int| 0 <= i < q.len() && #[trigger] q[i].0 <= now
}

/// The deadline of a timer of `duration_ms` milliseconds started at `now`.
pub open spec fn deadline_spec(now: i64, duration_ms: u64) -> i64 {
    clamp_i64(now + duration_ms) as i64
}

/// The deadline of a timer of `duration_ms` milliseconds started at `now`,
/// saturated at the largest time.
pub fn deadline_from(now: i64, duration_ms: u64) -> (r: i64)
    ensures
        r == deadline_spec(now, duration_ms),
{
    let sum: i128 = now as i128 + duration_ms as i128;
    if sum > i64::MAX as i128 {
        i64::MAX
    } else {
        sum as i64
    }
}

/// What the reactor does on the wait result `rc` read at time `now`: the
/// queue goes from `q0` to `q1` and the step is `s`.
pub open spec fn wait_outcome<Name: Clone>(
    q0: Seq<(i64, Name)>,
    inputs: Map<i32, Name>,
    sfd: i32,
    rc: i32,
    now: i64,
    q1: Seq<(i64, Name)>,
    s: Step<Name>,
) -> bool {
    match wake_of(rc, sfd) {
        Wake::TimedOut => if has_due(q0, now) {
            exists|e: (i64, Name)|
                #[trigger] pops(q0, e, q1) && e.0 <= now && s == Step::Fire(Event::Timeout(e.1))
        } else {
            q1 == q0 && s == Step::<Name>::Again
        },
        Wake::Interrupted => q1 == q0 && s == Step::<Name>::Again,
        Wake::Failed(e) => q1 == q0 && s == Step::<Name>::Fatal(PollError::WaitFailed(e)),
        Wake::SignalReady => q1 == q0 && s == Step::<Name>::ReadSignal,
        Wake::InputReady(fd) => q1 == q0 && if inputs.contains_key(fd) {
            exists|n: Name| #[trigger] cloned(inputs[fd], n) && s == Step::Fire(Event::Input(n))
        } else {
            s == Step::<Name>::Fatal(PollError::UnknownInput(fd))
        },
    }
}

/// What the reactor does on the result `rc` of reading the signal channel:
/// a signal number, `EINTR` or `EAGAIN` for a read to be tried again, or a
/// result no greater than zero for a failed read.
pub open spec fn signal_step<Name>(rc: i32) -> Step<Name> {
    if rc == EINTR || rc == EAGAIN {
        Step::Again
    } else if rc <= 0 {
        Step::Fatal(PollError::SignalReadFailed(rc))
    } else if is_termination(rc) {
        Step::Fire(Event::Signal(Signal::Terminate(rc)))
    } else {
        Step::Again
    }
}

/// The state of an event reactor: its timers, its registered inputs and the
/// descriptor of its signal channel.
///
/// The descriptors themselves are owned by the caller; the reactor decides,
/// from the raw results of each wait and each signal read, what comes next.
pub struct Loop<Name> {
    queue: TimerQueue<Name>,
    inputs: HashMap<i32, Name>,
    signal_fd: i32,
}

impl<Name: Clone> Loop<Name> {
    /// The queued timers.
    pub closed spec fn timers(&self) -> Seq<(i64, Name)> {
        self.queue@
    }

    /// The registered inputs, by descriptor.
    pub closed spec fn inputs(&self) -> Map<i32, Name> {
        self.inputs@
    }

    /// The descriptor of the signal channel.
    pub closed spec fn signal_fd(&self) -> i32 {
        self.signal_fd
    }

    /// A reactor watching the signal channel `signal_fd`, with no timers and
    /// no inputs.
    pub fn new(signal_fd: i32) -> (r: Self)
        ensures
            r.timers() == Seq::<(i64, Name)>::empty(),
            r.inputs() == Map::<i32, Name>::empty(),
            r.signal_fd() == signal_fd,
    {
        Loop { queue: TimerQueue::new(), inputs: HashMap::new(), signal_fd }
    }

    /// The number of queued timers.
    pub fn timer_count(&self) -> (r: usize)
        ensures
            r == self.timers().len(),
    {
        self.queue.len()
    }

    /// The descriptor of the signal channel.
    pub fn get_signal_fd(&self) -> (r: i32)
        ensures
            r == self.signal_fd(),
    {
        self.signal_fd
    }

    /// Schedules `name` to come due at the absolute time `deadline`, in
    /// milliseconds.
    pub fn add_deadline(&mut self, deadline: i64, name: Name)
        ensures
            final(self).timers() == old(self).timers().push((deadline, name)),
            final(self).inputs() == old(self).inputs(),
            final(self).signal_fd() == old(self).signal_fd(),
    {
        self.queue.push(deadline, name);
    }

    /// Schedules `name` to come due `duration_ms` milliseconds from now.
    ///
    /// The deadline is the clock's reading plus the duration, saturated at
    /// the largest time.
    pub fn add_timeout(&mut self, duration_ms: u64, name: Name)
        ensures
            exists|now: i64|
                is_clock_reading(now) && final(self).timers() == old(self).timers().push(
                    (#[trigger] deadline_spec(now, duration_ms), name),
                ),
            final(self).inputs() == old(self).inputs(),
            final(self).signal_fd() == old(self).signal_fd(),
    {
        let now = get_time_ms();
        let deadline = deadline_from(now, duration_ms);
        self.add_deadline(deadline, name);
    }

    /// Registers the readable descriptor `fd` under `name`, replacing any
    /// name it had. The reactor watches the descriptor but does not own it.
    pub fn add_input(&mut self, fd: i32, name: Name)
        ensures
            final(self).inputs() == old(self).inputs().insert(fd, name),
            final(self).timers() == old(self).timers(),
            final(self).signal_fd() == old(self).signal_fd(),
    {
        self.inputs.insert(fd, name);
    }

    /// The wait timeout at time `now`: `-1` (wait indefinitely) with no
    /// timers, else the time left until the earliest deadline, clamped to
    /// `[0, i32::MAX]`.
    pub fn timeout_at(&self, now: i64) -> (r: i32)
        ensures
            self.timers().len() == 0 ==> r == -1,
            self.timers().len() > 0 ==> exists|d: i64|
                #[trigger] is_min_deadline(self.timers(), d) && r == timeout_for(d, now),
    {
        match self.queue.earliest() {
            None => -1,
            Some(d) => {
                let left: i128 = d as i128 - now as i128;
                if left <= 0 {
                    0
                } else if left > i32::MAX as i128 {
                    i32::MAX
                } else {
                    left as i32
                }
            },
        }
    }

    /// The wait timeout now, as [`Loop::timeout_at`] gives it for a reading
    /// of the clock.
    pub fn get_timeout(&self) -> (r: i32)
        ensures
            exists|now: i64| is_clock_reading(now) && {
                &&& self.timers().len() == 0 ==> r == -1
                &&& self.timers().len() > 0 ==> exists|d: i64|
                    #[trigger] is_min_deadline(self.timers(), d) && r == timeout_for(d, now)
            },
    {
        let now = get_time_ms();
        self.timeout_at(now)
    }

    /// Decides what follows the wait result `rc`, with the clock read at
    /// `now` after the wait.
    ///
    /// On a timeout the earliest timer is taken and reported only if it is
    /// due by `now`: a wait that returns early fires nothing.
    pub fn on_wait(&mut self, rc: i32, now: i64) -> (r: Step<Name>)
        ensures
            wait_outcome(old(self).timers(), old(self).inputs(), old(self).signal_fd(), rc, now,
                final(self).timers(), r),
            final(self).inputs() == old(self).inputs(),
            final(self).signal_fd() == old(self).signal_fd(),
    {
        if rc == -ETIMEDOUT {
            match self.take_due(now) {
                Some(name) => Step::Fire(Event::Timeout(name)),
                None => Step::Again,
            }
        } else if rc == -EINTR {
            Step::Again
        } else if rc < 0 {
            Step::Fatal(PollError::WaitFailed(rc))
        } else if rc == self.signal_fd {
            Step::ReadSignal
        } else {
            match self.input_name(rc) {
                Some(name) => Step::Fire(Event::Input(name)),
                None => Step::Fatal(PollError::UnknownInput(rc)),
            }
        }
    }

    /// Takes the earliest timer if it is due by `now`.
    fn take_due(&mut self, now: i64) -> (r: Option<Name>)
        ensures
            has_due(old(self).timers(), now) ==> exists|e: (i64, Name)|
                #[trigger] pops(old(self).timers(), e, final(self).timers()) && e.0 <= now && r
                    == Some(e.1),
            !has_due(old(self).timers(), now) ==> final(self).timers() == old(self).timers() && r
                is None,
            final(self).inputs() == old(self).inputs(),
            final(self).signal_fd() == old(self).signal_fd(),
    {
        let ghost q0 = self.queue@;
        let first = self.queue.earliest();
        if first.is_none() {
            return None;
        }
        let d = first.unwrap();
        if d > now {
            proof {
                if has_due(q0, now) {
                    let j = choose|j: int| 0 <= j < q0.len() && #[trigger] q0[j].0 <= now;
                    let k = choose|k: int| crate::timers::is_earliest(q0, k) && #[trigger] q0[k].0 == d;
                    assert(q0[k].0 <= q0[j].0);
                }
            }
            return None;
        }
        let popped = self.queue.pop_earliest();
        match popped {
            Some(e) => {
                proof {
                    let i = choose|i: int|
                        crate::timers::is_earliest(q0, i) && #[trigger] q0[i] == e
                            && self.queue@ == q0.remove(i);
                    let k = choose|k: int| crate::timers::is_earliest(q0, k) && #[trigger] q0[k].0 == d;
                    assert(q0[i].0 <= q0[k].0);
                    assert(q0[i].0 <= now);
                    assert(pops(q0, e, self.queue@));
                    assert(q0 == old(self).timers());
                    assert(self.queue@ == self.timers());
                }
                Some(e.1)
            },
            None => {
                assert(q0.len() > 0);
                None
            },
        }
    }

    /// A clone of the name registered for `fd`, if any.
    fn input_name(&self, fd: i32) -> (r: Option<Name>)
        ensures
            self.inputs().contains_key(fd) ==> (r matches Some(n) && cloned(self.inputs()[fd], n)),
            !self.inputs().contains_key(fd) ==> r is None,
    {
        match self.inputs.get(&fd) {
            Some(n) => Some(n.clone()),
            None => None,
        }
    }

    /// Decides what follows the result `rc` of reading the signal channel.
    ///
    /// A termination request ends the poll at once, whatever timers are due;
    /// a child's state change and any other signal lead to another round.
    pub fn on_signal(&self, rc: i32) -> (r: Step<Name>)
        ensures
            r == signal_step::<Name>(rc),
    {
        if rc == EINTR || rc == EAGAIN {
            Step::Again
        } else if rc <= 0 {
            Step::Fatal(PollError::SignalReadFailed(rc))
        } else if rc == SIGTERM || rc == SIGINT || rc == SIGQUIT {
            Step::Fire(Event::Signal(Signal::Terminate(rc)))
        } else {
            Step::Again
        }
    }
}

/// Two timeouts reported one after the other, with no timer added between
/// them, come in order of their deadlines.
pub proof fn lemma_successive_timeouts_ordered<Name: Clone>(
    q0: Seq<(i64, Name)>,
    inputs: Map<i32, Name>,
    sfd: i32,
    rc1: i32,
    now1: i64,
    q1: Seq<(i64, Name)>,
    n1: Name,
    rc2: i32,
    now2: i64,
    q2: Seq<(i64, Name)>,
    n2: Name,
)
    requires
        wait_outcome(q0, inputs, sfd, rc1, now1, q1, Step::Fire(Event::Timeout(n1))),
        wait_outcome(q1, inputs, sfd, rc2, now2, q2, Step::Fire(Event::Timeout(n2))),
    ensures
        exists|e1: (i64, Name), e2: (i64, Name)|
            #[trigger] pops(q0, e1, q1) && #[trigger] pops(q1, e2, q2) && e1.1 == n1 && e2.1 == n2
                && e1.0 <= e2.0,
{
    assert(wake_of(rc1, sfd) == Wake::TimedOut);
    assert(wake_of(rc2, sfd) == Wake::TimedOut);
    assert(has_due(q0, now1));
    assert(has_due(q1, now2));
    let e1 = choose|e: (i64, Name)|
        #[trigger] pops(q0, e, q1) && e.0 <= now1 && Step::Fire(Event::Timeout(n1)) == Step::Fire(
            Event::Timeout(e.1),
        );
    let e2 = choose|e: (i64, Name)|
        #[trigger] pops(q1, e, q2) && e.0 <= now2 && Step::Fire(Event::Timeout(n2)) == Step::Fire(
            Event::Timeout(e.1),
        );
    lemma_pops_in_deadline_order(q0, e1, q1, e2, q2);
}

/// No timer fires early: when a wake reports the timer `n`, and every timer
/// named `n` was started at `start` for `duration_ms` milliseconds (with no
/// saturation of its deadline), at least that long has passed by `now`.
pub proof fn lemma_timeout_never_early<Name: Clone>(
    q0: Seq<(i64, Name)>,
    inputs: Map<i32, Name>,
    sfd: i32,
    rc: i32,
    now: i64,
    q1: Seq<(i64, Name)>,
    n: Name,
    start: i64,
    duration_ms: u64,
)
    requires
        wait_outcome(q0, inputs, sfd, rc, now, q1, Step::Fire(Event::Timeout(n))),
        forall|i: int|
            0 <= i < q0.len() && (#[trigger] q0[i]).1 == n ==> q0[i].0 == deadline_spec(
                start,
                duration_ms,
            ),
        start + duration_ms <= i64::MAX,
    ensures
        now - start >= duration_ms,
{
    assert(wake_of(rc, sfd) == Wake::TimedOut);
    assert(has_due(q0, now));
    let e = choose|e: (i64, Name)|
        #[trigger] pops(q0, e, q1) && e.0 <= now && Step::Fire(Event::Timeout(n)) == Step::Fire(
            Event::Timeout(e.1),
        );
    let i = choose|i: int| crate::timers::is_earliest(q0, i) && #[trigger] q0[i] == e && q1 == q0.remove(i);
    assert(q0[i].1 == n);
}

/// A termination request outranks due timers: when the signal channel is
/// ready, no timer is taken, and reading a termination signal ends the poll
/// with that signal.
pub proof fn lemma_termination_preempts_timers<Name: Clone>(
    q0: Seq<(i64, Name)>,
    inputs: Map<i32, Name>,
    sfd: i32,
    now: i64,
    q1: Seq<(i64, Name)>,
    s: Step<Name>,
    signo: i32,
)
    requires
        sfd >= 0,
        has_due(q0, now),
        wait_outcome(q0, inputs, sfd, sfd, now, q1, s),
        is_termination(signo),
    ensures
        s == Step::<Name>::ReadSignal,
        q1 == q0,
        signal_step::<Name>(signo) == Step::<Name>::Fire(Event::Signal(Signal::Terminate(signo))),
{
}

/// Interrupted waits and reads are invisible: they report nothing and leave
/// the timers as they were, so the next round sees the same state.
pub proof fn lemma_transient_outcomes_invisible<Name: Clone>(
    q0: Seq<(i64, Name)>,
    inputs: Map<i32, Name>,
    sfd: i32,
    now: i64,
    q1: Seq<(i64, Name)>,
    s: Step<Name>,
)
    requires
        wait_outcome(q0, inputs, sfd, (-EINTR) as i32, now, q1, s),
    ensures
        s == Step::<Name>::Again,
        q1 == q0,
        signal_step::<Name>(EINTR) == Step::<Name>::Again,
        signal_step::<Name>(EAGAIN) == Step::<Name>::Again,
{
}

} // verus!
