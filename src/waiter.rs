use vstd::prelude::*;

verus! {

/// A pending request: its priority and the signal that wakes it.
pub struct Waiter<S> {
    pub priority: u32,
    pub signal: S,
}

/// `w` has a priority no greater than any entry of `s`.
pub open spec fn is_lowest<S>(s: Seq<Waiter<S>>, w: Waiter<S>) -> bool {
    forall|j: int| 0 <= j < s.len() ==> w.priority <= #[trigger] s[j].priority
}

/// `after` is `before` with one entry `w` of lowest priority taken out.
pub open spec fn takes_lowest<S>(before: Seq<Waiter<S>>, after: Seq<Waiter<S>>, w: Waiter<S>) -> bool {
    exists|i: int|
        0 <= i < before.len() && before[i] == w && after == before.remove(i) && is_lowest(before, w)
}

/// `after` is reached from `before` by taking out a lowest entry, one after another,
/// the entries of `taken` in this order.
pub open spec fn pops_seq<S>(before: Seq<Waiter<S>>, after: Seq<Waiter<S>>, taken: Seq<Waiter<S>>) -> bool
    decreases taken.len(),
{
    if taken.len() == 0 {
        after == before
    } else {
        exists|mid: Seq<Waiter<S>>|
            pops_seq(before, mid, taken.drop_last()) && #[trigger] takes_lowest(mid, after, taken.last())
    }
}

/// `after` is reached from `before` by taking out lowest entries, of which `w` is the last.
pub open spec fn wakes<S>(before: Seq<Waiter<S>>, after: Seq<Waiter<S>>, w: Waiter<S>) -> bool {
    exists|taken: Seq<Waiter<S>>|
        #[trigger] pops_seq(before, after, taken) && taken.len() > 0 && taken.last() == w
}

/// Whether `a` is served before `b`: the lower priority value comes first.
pub fn served_before<S>(a: &Waiter<S>, b: &Waiter<S>) -> (r: bool)
    ensures
        r == (a.priority < b.priority),
{
    a.priority < b.priority
}

/// The pending waiters, kept in order of arrival; a lowest priority leaves first.
pub struct WaitQueue<S> {
    items: Vec<Waiter<S>>,
}

impl<S> WaitQueue<S> {
    /// The waiters, in order of arrival.
    pub closed spec fn view(&self) -> Seq<Waiter<S>> {
        self.items@
    }

    /// An empty queue.
    pub fn new() -> (q: Self)
        ensures
            q@ == Seq::<Waiter<S>>::empty(),
    {
        WaitQueue { items: Vec::new() }
    }

    /// The number of waiters.
    pub fn len(&self) -> (r: usize)
        ensures
            r == self@.len(),
    {
        self.items.len()
    }

    /// Whether no waiter is queued.
    pub fn is_empty(&self) -> (r: bool)
        ensures
            r == (self@.len() == 0),
    {
        self.items.len() == 0
    }

    /// Adds a waiter.
    pub fn push(&mut self, priority: u32, signal: S)
        ensures
            final(self)@ == old(self)@.push(Waiter { priority, signal }),
    {
        self.items.push(Waiter { priority, signal });
    }

    /// Position of a lowest-priority entry; the queue must not be empty.
    fn lowest_index(&self) -> (r: usize)
        requires
            self@.len() > 0,
        ensures
            r < self@.len(),
            is_lowest(self@, self@[r as int]),
    {
        let mut best: usize = 0;
        let mut i: usize = 1;
        while i < self.items.len()
            invariant
                self.items@ == self@,
                0 < i <= self@.len(),
                best < i,
                forall|j: int| 0 <= j < i ==> self@[best as int].priority <= #[trigger] self@[j].priority,
            decreases self@.len() - i,
        {
            if served_before(&self.items[i], &self.items[best]) {
                best = i;
            }
            i = i + 1;
        }
        best
    }

    /// Takes out a waiter of lowest priority, or returns `None` when the queue is empty.
    pub fn pop(&mut self) -> (r: Option<Waiter<S>>)
        ensures
            r is None <==> old(self)@.len() == 0,
            r is None ==> final(self)@ == old(self)@,
            r is Some ==> final(self)@.len() == old(self)@.len() - 1,
            r matches Some(w) ==> takes_lowest(old(self)@, final(self)@, w),
    {
        if self.items.len() == 0 {
            return None;
        }
        let i = self.lowest_index();
        let w = self.items.remove(i);
        proof {
            assert(takes_lowest(old(self)@, self@, w) ) by {
                assert(old(self)@[i as int] == w);
            }
        }
        Some(w)
    }

    /// Wakes one waiter: takes out waiters lowest priority first and hands each one's
    /// signal to `deliver`, until a delivery succeeds or the queue is empty. Every
    /// waiter taken out but the one woken was passed to `deliver` and not delivered.
    /// Returns the priority of the waiter woken, if any.
    pub fn release_one<F: Fn(S) -> bool>(&mut self, deliver: F) -> (woken: Option<u32>)
        requires
            forall|s: S| deliver.requires((s,)),
        ensures
            exists|taken: Seq<Waiter<S>>|
                {
                    &&& #[trigger] pops_seq(old(self)@, final(self)@, taken)
                    &&& forall|i: int|
                        0 <= i < taken.len() && !(woken is Some && i == taken.len() - 1)
                            ==> deliver.ensures((#[trigger] taken[i].signal,), false)
                    &&& woken is None ==> final(self)@.len() == 0
                    &&& woken matches Some(p) ==> taken.len() > 0 && p == taken.last().priority
                        && deliver.ensures((taken.last().signal,), true)
                },
            woken matches Some(p) ==> exists|w: Waiter<S>| wakes(old(self)@, final(self)@, w) && w.priority == p,
            woken matches Some(p) ==> forall|j: int|
                0 <= j < final(self)@.len() ==> p <= #[trigger] final(self)@[j].priority,
    {
        let ghost start = self@;
        let ghost mut taken: Seq<Waiter<S>> = Seq::empty();
        loop
            invariant
                start == old(self)@,
                forall|s: S| deliver.requires((s,)),
                pops_seq(start, self@, taken),
                self@.len() + taken.len() == start.len(),
                forall|i: int| 0 <= i < taken.len() ==> deliver.ensures((#[trigger] taken[i].signal,), false),
            decreases self@.len(),
        {
            let ghost before = self@;
            match self.pop() {
                None => {
                    return None;
                },
                Some(w) => {
                    let priority = w.priority;
                    let ghost wg = w;
                    proof {
                        assert(takes_lowest(before, self@, wg));
                        let prev = taken;
                        taken = taken.push(wg);
                        assert(taken.drop_last() =~= prev);
                        assert(taken.last() == wg);
                        assert(pops_seq(start, before, taken.drop_last()));
                        assert(takes_lowest(before, self@, taken.last()));
                        assert(pops_seq(start, self@, taken));
                    }
                    let delivered = deliver(w.signal);
                    if delivered {
                        proof {
                            assert(wakes(start, self@, wg));
                            assert forall|j: int| 0 <= j < self@.len() implies priority <= #[trigger] self@[j].priority by {
                                lemma_remaining_not_lower(before, self@, wg, j);
                            }
                        }
                        return Some(priority);
                    }
                    proof {
                        assert(taken[taken.len() - 1] == wg);
                    }
                },
            }
        }
    }

}

/// Removing lowest entries keeps every entry at or above a bound that held before.
pub proof fn lemma_pops_keep_bound<S>(
    before: Seq<Waiter<S>>,
    after: Seq<Waiter<S>>,
    taken: Seq<Waiter<S>>,
    lo: u32,
)
    requires
        pops_seq(before, after, taken),
        forall|j: int| 0 <= j < before.len() ==> lo <= #[trigger] before[j].priority,
    ensures
        forall|j: int| 0 <= j < after.len() ==> lo <= #[trigger] after[j].priority,
    decreases taken.len(),
{
    if taken.len() > 0 {
        let mid = choose|mid: Seq<Waiter<S>>|
            pops_seq(before, mid, taken.drop_last()) && #[trigger] takes_lowest(mid, after, taken.last());
        lemma_pops_keep_bound(before, mid, taken.drop_last(), lo);
        let w = taken.last();
        let i = choose|i: int|
            0 <= i < mid.len() && mid[i] == w && after == mid.remove(i) && is_lowest(mid, w);
        assert forall|j: int| 0 <= j < after.len() implies lo <= #[trigger] after[j].priority by {
            if j < i {
                assert(after[j] == mid[j]);
            } else {
                assert(after[j] == mid[j + 1]);
            }
        }
    }
}

/// Successive releases wake waiters in priority order: with no arrival between two
/// releases, the waiter woken by the first has a priority no greater than the one
/// woken by the second, whatever abandoned waiters each passed over.
pub proof fn lemma_wake_order<S>(
    q0: Seq<Waiter<S>>,
    q1: Seq<Waiter<S>>,
    q2: Seq<Waiter<S>>,
    first: Waiter<S>,
    second: Waiter<S>,
)
    requires
        wakes(q0, q1, first),
        wakes(q1, q2, second),
    ensures
        first.priority <= second.priority,
{
    let t1 = choose|t: Seq<Waiter<S>>| #[trigger] pops_seq(q0, q1, t) && t.len() > 0 && t.last() == first;
    let m1 = choose|m: Seq<Waiter<S>>|
        pops_seq(q0, m, t1.drop_last()) && #[trigger] takes_lowest(m, q1, t1.last());
    assert forall|j: int| 0 <= j < q1.len() implies first.priority <= #[trigger] q1[j].priority by {
        lemma_remaining_not_lower(m1, q1, first, j);
    }
    let t2 = choose|t: Seq<Waiter<S>>| #[trigger] pops_seq(q1, q2, t) && t.len() > 0 && t.last() == second;
    let m2 = choose|m: Seq<Waiter<S>>|
        pops_seq(q1, m, t2.drop_last()) && #[trigger] takes_lowest(m, q2, t2.last());
    lemma_pops_keep_bound(q1, m2, t2.drop_last(), first.priority);
    let k = choose|k: int|
        0 <= k < m2.len() && m2[k] == second && q2 == m2.remove(k) && is_lowest(m2, second);
    assert(first.priority <= m2[k].priority);
}

/// Waiters leave in priority order: of two successive removals with no arrival
/// between them, the first has a priority no greater than the second.
pub proof fn lemma_release_order<S>(
    q0: Seq<Waiter<S>>,
    q1: Seq<Waiter<S>>,
    q2: Seq<Waiter<S>>,
    first: Waiter<S>,
    second: Waiter<S>,
)
    requires
        takes_lowest(q0, q1, first),
        takes_lowest(q1, q2, second),
    ensures
        first.priority <= second.priority,
{
    let i = choose|i: int|
        0 <= i < q0.len() && q0[i] == first && q1 == q0.remove(i) && is_lowest(q0, first);
    let k = choose|k: int|
        0 <= k < q1.len() && q1[k] == second && q2 == q1.remove(k) && is_lowest(q1, second);
    if k < i {
        assert(q0[k] == second);
    } else {
        assert(q0[k + 1] == second);
    }
}

/// A waiter that stays behind after a removal never ranks below the one removed.
pub proof fn lemma_remaining_not_lower<S>(q0: Seq<Waiter<S>>, q1: Seq<Waiter<S>>, w: Waiter<S>, j: int)
    requires
        takes_lowest(q0, q1, w),
        0 <= j < q1.len(),
    ensures
        w.priority <= q1[j].priority,
{
    let i = choose|i: int|
        0 <= i < q0.len() && q0[i] == w && q1 == q0.remove(i) && is_lowest(q0, w);
    if j < i {
        assert(q0[j] == q1[j]);
    } else {
        assert(q0[j + 1] == q1[j]);
    }
}

} // verus!
