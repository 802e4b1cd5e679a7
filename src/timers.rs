use vstd::prelude::*;

verus! {

/// A pending callback: when it is due, in milliseconds of the session clock,
/// and the tag that its module gave it.
#[derive(Clone, Copy, PartialEq, Eq, Structural, Debug)]
pub struct Timeout {
    pub time: u64,
    pub kind: u32,
}

/// Each entry is due no later than the next one.
pub open spec fn deadline_sorted(q: Seq<Timeout>) -> bool {
    forall|i: int| 0 <= i < q.len() - 1 ==> #[trigger] q[i].time <= q[i + 1].time
}

/// Pending timeouts, earliest first; among equal deadlines, in the order they
/// were scheduled.
pub struct Timers {
    queue: Vec<Timeout>,
}

impl View for Timers {
    type V = Seq<Timeout>;

    closed spec fn view(&self) -> Seq<Timeout> {
        self.queue@
    }
}

/// A queue kept in deadline order hands out its entries in deadline order:
/// whatever the order of scheduling, each entry is due no later than every
/// entry behind it, and popping takes the front.
pub proof fn lemma_drain_in_deadline_order(q: Seq<Timeout>)
    requires
        deadline_sorted(q),
    ensures
        forall|i: int, j: int| 0 <= i <= j < q.len() ==> q[i].time <= q[j].time,
{
    assert forall|i: int, j: int| 0 <= i <= j < q.len() implies q[i].time <= q[j].time by {
        lemma_sorted_span(q, i, j);
    }
}

proof fn lemma_sorted_span(q: Seq<Timeout>, i: int, j: int)
    requires
        deadline_sorted(q),
        0 <= i <= j < q.len(),
    ensures
        q[i].time <= q[j].time,
    decreases j - i,
{
    if i < j {
        lemma_sorted_span(q, i, j - 1);
        assert(q[j - 1].time <= q[j].time);
    }
}

impl Timers {
    pub open spec fn wf(&self) -> bool {
        deadline_sorted(self@)
    }

    pub fn new() -> (r: Timers)
        ensures
            r.wf(),
            r@ == Seq::<Timeout>::empty(),
    {
        Timers { queue: Vec::new() }
    }

    pub fn len(&self) -> (r: usize)
        ensures
            r == self@.len(),
    {
        self.queue.len()
    }

    /// Adds a timeout behind every pending one due no later than it, and in
    /// front of every one due later.
    pub fn insert(&mut self, t: Timeout)
        requires
            old(self).wf(),
        ensures
            final(self).wf(),
            exists|i: int|
                0 <= i <= old(self)@.len() && final(self)@ == old(self)@.insert(i, t) && (forall|j: int|
                    0 <= j < i ==> old(self)@[j].time <= t.time) && (forall|j: int|
                    i <= j < old(self)@.len() ==> old(self)@[j].time > t.time),
    {
        let ghost q = self@;
        let mut i: usize = 0;
        while i < self.queue.len() && self.queue[i].time <= t.time
            invariant
                i <= q.len(),
                self@ == q,
                deadline_sorted(q),
                forall|j: int| 0 <= j < i ==> q[j].time <= t.time,
            decreases q.len() - i,
        {
            i = i + 1;
        }
        proof {
            assert forall|j: int| i <= j < q.len() implies q[j].time > t.time by {
                lemma_sorted_span(q, i as int, j);
            }
        }
        self.queue.insert(i, t);
        assert(self@ == q.insert(i as int, t));
        assert forall|k: int| 0 <= k < self@.len() - 1 implies #[trigger] self@[k].time <= self@[k
            + 1].time by {
            if k + 1 < i {
                assert(q[k].time <= q[k + 1].time);
            } else if k + 1 == i {
            } else if k == i {
            } else {
                assert(q[k - 1].time <= q[k].time);
            }
        }
    }

    /// The earliest deadline, if any timeout is pending.
    pub fn next_deadline(&self) -> (r: Option<u64>)
        ensures
            r == (if self@.len() == 0 {
                None
            } else {
                Some(self@[0].time)
            }),
    {
        if self.queue.len() == 0 {
            None
        } else {
            Some(self.queue[0].time)
        }
    }

    /// Removes and returns the earliest timeout if it is due at `now`.
    pub fn pop_due(&mut self, now: u64) -> (r: Option<Timeout>)
        requires
            old(self).wf(),
        ensures
            final(self).wf(),
            old(self)@.len() > 0 && old(self)@[0].time <= now ==> r == Some(old(self)@[0])
                && final(self)@ == old(self)@.drop_first(),
            !(old(self)@.len() > 0 && old(self)@[0].time <= now) ==> r.is_none() && final(self)@
                == old(self)@,
    {
        if self.queue.len() > 0 && self.queue[0].time <= now {
            let t = self.queue.remove(0);
            assert(self@ =~= old(self)@.drop_first());
            assert forall|k: int| 0 <= k < self@.len() - 1 implies #[trigger] self@[k].time
                <= self@[k + 1].time by {
                assert(old(self)@[k + 1].time <= old(self)@[k + 2].time);
            }
            Some(t)
        } else {
            None
        }
    }
}

} // verus!
