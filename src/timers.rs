use vstd::prelude::*;

verus! {

/// Entry `i` of `q` has a deadline no later than that of any other entry.
pub open spec fn is_earliest<Name>(q: Seq<(i64, Name)>, i: int) -> bool {
    &&& 0 <= i < q.len()
    &&& forall|j: int| 0 <= j < q.len() ==> q[i].0 <= #[trigger] q[j].0
}

/// `d` is the smallest deadline in `q`.
pub open spec fn is_min_deadline<Name>(q: Seq<(i64, Name)>, d: i64) -> bool {
    exists|i: int| is_earliest(q, i) && #[trigger] q[i].0 == d
}

/// Removing the earliest entry `e` of `q` leaves `rest`.
///
/// Among entries with equal deadlines any one may be taken: no order
/// between them is promised.
pub open spec fn pops<Name>(q: Seq<(i64, Name)>, e: (i64, Name), rest: Seq<(i64, Name)>) -> bool {
    exists|i: int| is_earliest(q, i) && #[trigger] q[i] == e && rest == q.remove(i)
}

/// Timer entries, each an absolute deadline in milliseconds and a name.
///
/// The queue hands out entries by increasing deadline; entries that share a
/// deadline carry no order among themselves.
pub struct TimerQueue<Name> {
    entries: Vec<(i64, Name)>,
}

impl<Name> View for TimerQueue<Name> {
    type V = Seq<(i64, Name)>;

    closed spec fn view(&self) -> Seq<(i64, Name)> {
        self.entries@
    }
}

impl<Name> TimerQueue<Name> {
    /// An empty queue.
    pub fn new() -> (r: Self)
        ensures
            r@ == Seq::<(i64, Name)>::empty(),
    {
        TimerQueue { entries: Vec::new() }
    }

    /// The number of queued entries.
    pub fn len(&self) -> (r: usize)
        ensures
            r == self@.len(),
    {
        self.entries.len()
    }

    /// Adds an entry due at `deadline`.
    pub fn push(&mut self, deadline: i64, name: Name)
        ensures
            final(self)@ == old(self)@.push((deadline, name)),
    {
        self.entries.push((deadline, name));
    }

    /// The index of an entry with the smallest deadline, if any.
    fn earliest_index(&self) -> (r: Option<usize>)
        ensures
            r is None <==> self@.len() == 0,
            r matches Some(i) ==> is_earliest(self@, i as int),
    {
        let n = self.entries.len();
        if n == 0 {
            return None;
        }
        let mut best: usize = 0;
        let mut k: usize = 1;
        while k < n
            invariant
                n == self@.len(),
                0 <= best < n,
                1 <= k <= n,
                forall|j: int| 0 <= j < k ==> self@[best as int].0 <= #[trigger] self@[j].0,
            decreases n - k,
        {
            if self.entries[k].0 < self.entries[best].0 {
                best = k;
            }
            k = k + 1;
        }
        Some(best)
    }

    /// The smallest queued deadline, or `None` when the queue is empty.
    pub fn earliest(&self) -> (r: Option<i64>)
        ensures
            r is None <==> self@.len() == 0,
            r matches Some(d) ==> is_min_deadline(self@, d),
    {
        match self.earliest_index() {
            None => None,
            Some(i) => {
                let d = self.entries[i].0;
                assert(is_earliest(self@, i as int) && self@[i as int].0 == d);
                Some(d)
            },
        }
    }

    /// Removes and returns an entry with the smallest deadline, or `None`
    /// (leaving the queue as it was) when it is empty.
    pub fn pop_earliest(&mut self) -> (r: Option<(i64, Name)>)
        ensures
            r is None <==> old(self)@.len() == 0,
            r is None ==> final(self)@ == old(self)@,
            r matches Some(e) ==> pops(old(self)@, e, final(self)@),
    {
        match self.earliest_index() {
            None => None,
            Some(i) => {
                let e = self.entries.remove(i);
                assert(is_earliest(old(self)@, i as int) && old(self)@[i as int] == e);
                Some(e)
            },
        }
    }
}

/// Entries leave the queue in order of their deadlines: of two entries taken
/// one after the other, the first is due no later than the second.
pub proof fn lemma_pops_in_deadline_order<Name>(
    q0: Seq<(i64, Name)>,
    e1: (i64, Name),
    q1: Seq<(i64, Name)>,
    e2: (i64, Name),
    q2: Seq<(i64, Name)>,
)
    requires
        pops(q0, e1, q1),
        pops(q1, e2, q2),
    ensures
        e1.0 <= e2.0,
{
    let i = choose|i: int| is_earliest(q0, i) && #[trigger] q0[i] == e1 && q1 == q0.remove(i);
    let j = choose|j: int| is_earliest(q1, j) && #[trigger] q1[j] == e2 && q2 == q1.remove(j);
    if j < i {
        assert(q1[j] == q0[j]);
    } else {
        assert(q1[j] == q0[j + 1]);
    }
}

/// Taking an entry removes exactly that one entry: what is taken, together
/// with what is left, is what was queued.
pub proof fn lemma_pop_takes_one<Name>(q: Seq<(i64, Name)>, e: (i64, Name), rest: Seq<(i64, Name)>)
    requires
        pops(q, e, rest),
    ensures
        q.to_multiset() == rest.to_multiset().insert(e),
{
    broadcast use vstd::seq_lib::group_to_multiset_ensures;
    broadcast use vstd::multiset::group_multiset_axioms;

    let i = choose|i: int| is_earliest(q, i) && #[trigger] q[i] == e && rest == q.remove(i);
    vstd::seq_lib::to_multiset_remove(q, i);
    assert(q.to_multiset().count(e) > 0);
    assert(q.to_multiset() =~= q.to_multiset().remove(e).insert(e));
}

/// Two entries that share a deadline are each handed out exactly once by two
/// successive takes, in one order or the other.
pub proof fn lemma_tied_entries_each_once<Name>(
    q0: Seq<(i64, Name)>,
    e1: (i64, Name),
    q1: Seq<(i64, Name)>,
    e2: (i64, Name),
    q2: Seq<(i64, Name)>,
)
    requires
        q0.len() == 2,
        q0[0].0 == q0[1].0,
        pops(q0, e1, q1),
        pops(q1, e2, q2),
    ensures
        (e1 == q0[0] && e2 == q0[1]) || (e1 == q0[1] && e2 == q0[0]),
        q2.len() == 0,
{
    let i = choose|i: int| is_earliest(q0, i) && #[trigger] q0[i] == e1 && q1 == q0.remove(i);
    let j = choose|j: int| is_earliest(q1, j) && #[trigger] q1[j] == e2 && q2 == q1.remove(j);
    assert(j == 0);
    if i == 0 {
        assert(q1[0] == q0[1]);
    } else {
        assert(q1[0] == q0[0]);
    }
}

} // verus!
