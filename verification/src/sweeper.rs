//! The retention sweeper's batching: one sweep enumerates every message
//! identifier and deletes them in fixed-size batches. A failed batch aborts
//! the sweep — the remaining identifiers stay undeleted until they are
//! re-enumerated by the next sweep, which makes sweeping idempotent.

use vstd::prelude::*;

verus! {

/// Identifiers deleted per batch.
pub const SWEEP_BATCH_SIZE: usize = 100;

/// Number of batches a sweep over `n` identifiers issues when no batch
/// fails: `n` divided by the batch size, rounded up.
pub open spec fn spec_batch_count(n: int) -> int {
    (n + SWEEP_BATCH_SIZE - 1) / SWEEP_BATCH_SIZE as int
}

/// One enumerate-and-batch-delete pass over the remote message collection.
pub struct Sweep {
    ids: Vec<String>,
    next_start: usize,
    aborted: bool,
}

impl Sweep {
    /// The enumerated identifiers this sweep covers.
    pub closed spec fn ids_seq(&self) -> Seq<String> {
        self.ids@
    }

    /// Index of the first identifier not yet handed out in a batch.
    pub closed spec fn next_index(&self) -> int {
        self.next_start as int
    }

    /// Whether a failed batch has aborted the sweep.
    pub closed spec fn is_aborted(&self) -> bool {
        self.aborted
    }

    /// Well-formedness: the next batch starts inside (or just past) the
    /// enumerated identifiers.
    pub closed spec fn wf(&self) -> bool {
        self.next_start <= self.ids@.len()
    }

    /// A sweep over freshly enumerated identifiers.
    pub fn new(ids: Vec<String>) -> (s: Sweep)
        ensures
            s.wf(),
            s.ids_seq() == ids@,
            s.next_index() == 0,
            !s.is_aborted(),
    {
        Sweep { ids, next_start: 0, aborted: false }
    }

    /// Identifiers not yet handed out in any batch (left undeleted if the
    /// sweep is aborted now).
    pub fn remaining(&self) -> (n: usize)
        requires
            self.wf(),
        ensures
            n == self.ids_seq().len() - self.next_index(),
    {
        self.ids.len() - self.next_start
    }

    /// Number of batches this sweep issues if no batch fails.
    pub fn total_batches(&self) -> (n: usize)
        ensures
            n == spec_batch_count(self.ids_seq().len() as int),
    {
        let len = self.ids.len();
        let n = len / SWEEP_BATCH_SIZE + if len % SWEEP_BATCH_SIZE > 0 {
            1
        } else {
            0
        };
        proof {
            assert(n == spec_batch_count(len as int)) by (nonlinear_arith)
                requires
                    n == len / SWEEP_BATCH_SIZE + if len % SWEEP_BATCH_SIZE > 0 {
                        1int
                    } else {
                        0int
                    },
                    len >= 0,
            ;
        }
        n
    }

    /// The next delete batch: up to `SWEEP_BATCH_SIZE` identifiers in
    /// enumeration order, or `None` when the sweep is aborted or every
    /// identifier has been handed out. Issuing a batch never touches the
    /// identifiers that follow it.
    pub fn next_batch(&mut self) -> (b: Option<Vec<String>>)
        requires
            old(self).wf(),
        ensures
            final(self).wf(),
            final(self).ids_seq() == old(self).ids_seq(),
            final(self).is_aborted() == old(self).is_aborted(),
            old(self).is_aborted() || old(self).next_index() >= old(self).ids_seq().len() ==> (b
                is None && *final(self) == *old(self)),
            !old(self).is_aborted() && old(self).next_index() < old(self).ids_seq().len() ==> ({
                let start = old(self).next_index();
                let end = if start + SWEEP_BATCH_SIZE <= old(self).ids_seq().len() {
                    start + SWEEP_BATCH_SIZE
                } else {
                    old(self).ids_seq().len() as int
                };
                &&& b is Some
                &&& b->0@ == old(self).ids_seq().subrange(start, end)
                &&& b->0@.len() > 0
                &&& final(self).next_index() == end
            }),
    {
        if self.aborted || self.next_start >= self.ids.len() {
            return None;
        }
        let start = self.next_start;
        let end = if SWEEP_BATCH_SIZE <= self.ids.len() && start <= self.ids.len()
            - SWEEP_BATCH_SIZE {
            start + SWEEP_BATCH_SIZE
        } else {
            self.ids.len()
        };
        let mut batch: Vec<String> = Vec::new();
        let mut i: usize = start;
        while i < end
            invariant
                start <= i <= end <= self.ids@.len(),
                batch@ == self.ids@.subrange(start as int, i as int),
            decreases end - i,
        {
            let ghost prev: Seq<String> = batch@;
            batch.push(self.ids[i].clone());
            i = i + 1;
            proof {
                assert(batch@ =~= self.ids@.subrange(start as int, i as int));
            }
        }
        self.next_start = end;
        Some(batch)
    }

    /// Records a failed batch delete: the sweep aborts, and every identifier
    /// not yet handed out stays undeleted until the next sweep re-enumerates
    /// it.
    pub fn batch_failed(&mut self)
        requires
            old(self).wf(),
        ensures
            final(self).wf(),
            final(self).ids_seq() == old(self).ids_seq(),
            final(self).next_index() == old(self).next_index(),
            final(self).is_aborted(),
    {
        self.aborted = true;
    }
}

} // verus!
