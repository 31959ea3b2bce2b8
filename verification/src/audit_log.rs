//! The bounded audit log of shared-state changes: every applied change is
//! recorded with the next sequence number, newest last, and once the log
//! holds more than its capacity the oldest records drop.
use vstd::prelude::*;

verus! {

/// The last `capacity` elements of `s` (all of `s` when it is no longer).
pub open spec fn newest<A>(s: Seq<A>, capacity: nat) -> Seq<A> {
    if s.len() > capacity {
        s.subrange(s.len() - capacity, s.len() as int)
    } else {
        s
    }
}

/// `es` stamped with their positions as sequence numbers.
pub open spec fn stamped<R>(es: Seq<R>) -> Seq<(u64, R)> {
    Seq::new(es.len(), |i: int| (i as u64, es[i]))
}

/// The records a fresh log of capacity `capacity` holds after recording
/// `es` in order, one [`AuditLog::record`] at a time.
pub open spec fn records_after<R>(es: Seq<R>, capacity: nat) -> Seq<(u64, R)>
    decreases es.len(),
{
    if es.len() == 0 {
        Seq::empty()
    } else {
        newest(
            records_after(es.drop_last(), capacity).push(((es.len() - 1) as u64, es.last())),
            capacity,
        )
    }
}

proof fn lemma_newest_absorbs<A>(s: Seq<A>, x: A, capacity: nat)
    ensures
        newest(newest(s, capacity).push(x), capacity) == newest(s.push(x), capacity),
{
    let t = s.push(x);
    if s.len() > capacity {
        if capacity == 0 {
            assert(newest(newest(s, capacity).push(x), capacity) =~= Seq::<A>::empty());
            assert(newest(t, capacity) =~= Seq::<A>::empty());
        } else {
            assert(newest(newest(s, capacity).push(x), capacity) =~= newest(t, capacity));
        }
    } else {
        assert(newest(s, capacity) == s);
    }
}

/// Law: a fresh log of capacity `capacity` that has recorded `es` in order
/// holds the newest `min(n, capacity)` of them, oldest first, each stamped
/// with its position in the whole sequence: the oldest records drop first
/// and the sequence numbers stay consecutive.
pub proof fn lemma_log_after_n_records<R>(es: Seq<R>, capacity: nat)
    requires
        es.len() <= u64::MAX,
    ensures
        records_after(es, capacity) == newest(stamped(es), capacity),
        records_after(es, capacity).len() == if es.len() < capacity {
            es.len()
        } else {
            capacity
        },
        forall|j: int|
            0 <= j < records_after(es, capacity).len() ==> #[trigger] records_after(es, capacity)[j]
                == ((es.len() - records_after(es, capacity).len() + j) as u64, es[es.len()
                - records_after(es, capacity).len() + j]),
    decreases es.len(),
{
    if es.len() > 0 {
        let prev = es.drop_last();
        lemma_log_after_n_records(prev, capacity);
        assert(stamped(prev).push(((es.len() - 1) as u64, es.last())) =~= stamped(es));
        lemma_newest_absorbs(stamped(prev), ((es.len() - 1) as u64, es.last()), capacity);
    } else {
        assert(stamped(es) =~= Seq::<(u64, R)>::empty());
    }
}

/// A bounded log of records (each an applied change with its origin),
/// every one stamped with its sequence number.
pub struct AuditLog<R> {
    records: Vec<(u64, R)>,
    next_seq: u64,
    capacity: usize,
}

impl<R> AuditLog<R> {
    /// The records, oldest first.
    pub closed spec fn records_view(&self) -> Seq<(u64, R)> {
        self.records@
    }

    /// The sequence number the next record gets.
    pub closed spec fn next_seq_view(&self) -> u64 {
        self.next_seq
    }

    /// How many records the log keeps.
    pub closed spec fn capacity_view(&self) -> usize {
        self.capacity
    }

    /// The log is well formed: no longer than its capacity, and its records
    /// carry consecutive sequence numbers ending just below the next one.
    pub open spec fn wf(&self) -> bool {
        &&& self.records_view().len() <= self.capacity_view()
        &&& self.records_view().len() <= self.next_seq_view()
        &&& forall|i: int|
            0 <= i < self.records_view().len() ==> #[trigger] self.records_view()[i].0
                == self.next_seq_view() - self.records_view().len() + i
    }

    /// An empty log that keeps at most `capacity` records, numbering from 0.
    pub fn new(capacity: usize) -> (l: Self)
        ensures
            l.wf(),
            l.records_view() == Seq::<(u64, R)>::empty(),
            l.next_seq_view() == 0,
            l.capacity_view() == capacity,
    {
        let l = AuditLog { records: Vec::new(), next_seq: 0, capacity };
        assert(l.records_view() =~= Seq::<(u64, R)>::empty());
        l
    }

    /// Record `entry` with the next sequence number, then drop the oldest
    /// records while the log is longer than its capacity.
    pub fn record(&mut self, entry: R)
        requires
            old(self).wf(),
            old(self).next_seq_view() < u64::MAX,
        ensures
            final(self).wf(),
            final(self).next_seq_view() == old(self).next_seq_view() + 1,
            final(self).capacity_view() == old(self).capacity_view(),
            final(self).records_view() == newest(
                old(self).records_view().push((old(self).next_seq_view(), entry)),
                old(self).capacity_view() as nat,
            ),
    {
        let ghost full = self.records_view().push((self.next_seq, entry));
        let seq = self.next_seq;
        self.next_seq = seq + 1;
        self.records.push((seq, entry));
        assert(self.records_view() =~= full);
        assert forall|i: int| 0 <= i < full.len() implies #[trigger] full[i].0 == self.next_seq
            - full.len() + i by {
            if i < full.len() - 1 {
                assert(full[i] == old(self).records_view()[i]);
            }
        }
        let ghost mut dropped: int = 0;
        while self.records.len() > self.capacity
            invariant
                0 <= dropped <= full.len(),
                self.records_view() == full.subrange(dropped, full.len() as int),
                self.capacity == old(self).capacity,
                self.next_seq == old(self).next_seq + 1,
                full.len() <= self.next_seq,
                forall|i: int| 0 <= i < full.len() ==> #[trigger] full[i].0 == self.next_seq - full.len() + i,
                dropped > 0 ==> self.records@.len() >= self.capacity,
            decreases self.records@.len(),
        {
            self.records.remove(0);
            proof {
                dropped = dropped + 1;
                assert(self.records_view() =~= full.subrange(dropped, full.len() as int));
            }
        }
        proof {
            let cap = self.capacity as int;
            if full.len() > cap {
                assert(dropped == full.len() - cap);
            } else {
                assert(dropped == 0);
            }
            assert(self.records_view() =~= newest(full, self.capacity as nat));
            assert forall|i: int| 0 <= i < self.records_view().len() implies #[trigger] self.records_view()[i].0
                == self.next_seq - self.records_view().len() + i by {
                assert(self.records_view()[i] == full[dropped + i]);
            }
        }
    }

    /// The records, oldest first.
    pub fn entries(&self) -> (e: &[(u64, R)])
        ensures
            e@ == self.records_view(),
    {
        self.records.as_slice()
    }
}

} // verus!
