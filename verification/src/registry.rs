//! The pending-transaction registry: the single shared store of all
//! transactions currently being tracked.  Exactly two callers mutate it —
//! the submission path and the block watch loop — and the surrounding
//! process serializes them behind one lock; the registry itself is plain
//! exclusively-owned state.

use vstd::prelude::*;

use crate::types::MonitoredTransaction;

verus! {

/// No two live entries share a tracking id.
pub open spec fn unique_ids(s: Seq<MonitoredTransaction>) -> bool {
    forall|i: int, j: int|
        0 <= i < j < s.len() ==> s[i].tracking_id != s[j].tracking_id
}

/// Some live entry carries this tracking id.
pub open spec fn contains_id(s: Seq<MonitoredTransaction>, id: u128) -> bool {
    exists|i: int| 0 <= i < s.len() && s[i].tracking_id == id
}

/// All entries are well-formed: fees present, ordered, under the ceiling.
pub open spec fn all_wf(s: Seq<MonitoredTransaction>) -> bool {
    forall|i: int| 0 <= i < s.len() ==> #[trigger] s[i].wf()
}

/// The exclusively-owned aggregate of all tracked entries, keyed by
/// tracking id.  Removal is the only record of completion: no terminal
/// "mined" or "failed" entry is retained.
pub struct PendingTransactionRegistry {
    pub entries: Vec<MonitoredTransaction>,
}

impl PendingTransactionRegistry {
    pub open spec fn view(self) -> Seq<MonitoredTransaction> {
        self.entries@
    }

    /// Unique ids and well-formed fees, together: what every operation
    /// preserves.
    pub open spec fn wf(self) -> bool {
        unique_ids(self@) && all_wf(self@)
    }

    pub fn new() -> (r: Self)
        ensures
            r@ == Seq::<MonitoredTransaction>::empty(),
            r.wf(),
    {
        PendingTransactionRegistry { entries: Vec::new() }
    }

    /// Whether an entry with this tracking id is currently live.
    pub fn contains(&self, id: u128) -> (r: bool)
        ensures
            r == contains_id(self@, id),
    {
        let mut i: usize = 0;
        while i < self.entries.len()
            invariant
                i <= self.entries@.len(),
                forall|k: int| 0 <= k < i ==> self.entries@[k].tracking_id != id,
            decreases self.entries@.len() - i,
        {
            if self.entries[i].tracking_id == id {
                return true;
            }
            i = i + 1;
        }
        false
    }

    /// Adds a new entry; the caller guarantees the tracking id is not live.
    pub fn insert(&mut self, entry: MonitoredTransaction)
        requires
            old(self).wf(),
            entry.wf(),
            !contains_id(old(self)@, entry.tracking_id),
        ensures
            final(self)@ == old(self)@.push(entry),
            final(self).wf(),
    {
        self.entries.push(entry);
    }

    /// Puts back an entry the watch loop decided to keep; same contract as
    /// `insert`, kept as its own operation because the two callers differ.
    pub fn reinsert(&mut self, entry: MonitoredTransaction)
        requires
            old(self).wf(),
            entry.wf(),
            !contains_id(old(self)@, entry.tracking_id),
        ensures
            final(self)@ == old(self)@.push(entry),
            final(self).wf(),
    {
        self.entries.push(entry);
    }

    /// Atomically removes and returns all current entries, in order: the
    /// watch loop's consistent working set for one block tick.
    pub fn drain_all(&mut self) -> (drained: Vec<MonitoredTransaction>)
        requires
            old(self).wf(),
        ensures
            drained@ == old(self)@,
            final(self)@ == Seq::<MonitoredTransaction>::empty(),
            final(self).wf(),
    {
        let mut drained: Vec<MonitoredTransaction> = Vec::new();
        core::mem::swap(&mut drained, &mut self.entries);
        drained
    }
}

} // verus!
