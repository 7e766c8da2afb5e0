//! Laws that span several monitor operations, stated over the same
//! spec-level views the operations' own contracts use, and proved once for
//! every input.

use vstd::prelude::*;

use crate::fees::{escalated_base_fee, escalated_max_fee, escalated_priority_fee};
use crate::monitor::{
    due_for_escalation, escalated_request, included_in, kept_of, lemma_kept_of_id_subset,
    plan_contains_id, plan_item_of, plan_of, PendingRebroadcast, TransactionMonitor,
};
use crate::registry::{contains_id, unique_ids};
use crate::types::{Hash256, MonitoredTransaction, Status};

verus! {

/// Law: for any previous fee pair and any fresh estimate, the escalation
/// policy's priority fee never falls below the estimated priority fee, and
/// its max fee is exactly the new base fee plus the new priority fee — no
/// drift.
pub proof fn lemma_escalation_policy_bounds(
    prev_max: int,
    prev_priority: int,
    estimate_max: int,
    estimate_priority: int,
)
    ensures
        escalated_priority_fee(prev_priority, estimate_priority) >= estimate_priority,
        escalated_max_fee(prev_max, prev_priority, estimate_max, estimate_priority)
            == escalated_base_fee(prev_max, prev_priority, estimate_max, estimate_priority)
            + escalated_priority_fee(prev_priority, estimate_priority),
{
}

/// The relation a successful submission establishes between the monitor
/// before and after the call: the tracking id was not live, and the new
/// entry joined the registry with nothing else changed.
pub open spec fn submission_transition(
    pre: TransactionMonitor,
    post: TransactionMonitor,
    entry: MonitoredTransaction,
) -> bool {
    &&& !pre.exists_id(entry.tracking_id)
    &&& post.entries() == pre.entries().push(entry)
}

/// Law: a submission is Pending immediately afterwards — `status` on the id
/// a successful `send_monitored_transaction` returned says Pending until
/// some block tick removes the entry.
pub proof fn lemma_submitted_is_pending(
    pre: TransactionMonitor,
    post: TransactionMonitor,
    entry: MonitoredTransaction,
)
    requires
        submission_transition(pre, post, entry),
    ensures
        post.status_spec(entry.tracking_id) == Status::Pending,
{
    assert(post.entries()[pre.entries().len() as int].tracking_id == entry.tracking_id);
}

/// Law: two submissions yield distinct tracking ids, and before any block
/// is processed both are Pending.
pub proof fn lemma_two_submissions_distinct(
    m0: TransactionMonitor,
    m1: TransactionMonitor,
    m2: TransactionMonitor,
    first: MonitoredTransaction,
    second: MonitoredTransaction,
)
    requires
        submission_transition(m0, m1, first),
        submission_transition(m1, m2, second),
    ensures
        first.tracking_id != second.tracking_id,
        m2.status_spec(first.tracking_id) == Status::Pending,
        m2.status_spec(second.tracking_id) == Status::Pending,
{
    assert(m1.entries()[m0.entries().len() as int].tracking_id == first.tracking_id);
    assert(m1.exists_id(first.tracking_id));
    assert(m2.entries()[m0.entries().len() as int].tracking_id == first.tracking_id);
    assert(m2.entries()[m1.entries().len() as int].tracking_id == second.tracking_id);
}

/// A tracking id absent from a working set is absent from the rebroadcast
/// plan a due tick derives from it.
pub proof fn lemma_plan_of_id_subset(
    s: Seq<MonitoredTransaction>,
    block_transactions: Seq<Hash256>,
    estimate_max_fee: u128,
    estimate_max_priority_fee: u128,
    id: u128,
)
    requires
        !contains_id(s, id),
    ensures
        !plan_contains_id(
            plan_of(s, block_transactions, estimate_max_fee, estimate_max_priority_fee),
            id,
        ),
    decreases s.len(),
{
    if s.len() > 0 {
        assert forall|i: int| 0 <= i < s.drop_last().len() implies s.drop_last()[i].tracking_id
            != id by {
            assert(s.drop_last()[i] == s[i]);
            if s[i].tracking_id == id {
                assert(contains_id(s, id));
            }
        }
        lemma_plan_of_id_subset(
            s.drop_last(),
            block_transactions,
            estimate_max_fee,
            estimate_max_priority_fee,
            id,
        );
        let rest = plan_of(
            s.drop_last(),
            block_transactions,
            estimate_max_fee,
            estimate_max_priority_fee,
        );
        if !included_in(s.last().current_hash, block_transactions) {
            if s.last().tracking_id == id {
                assert(s[s.len() - 1].tracking_id == id);
                assert(contains_id(s, id));
            }
            let item = crate::monitor::plan_item_of(
                s.last(),
                estimate_max_fee,
                estimate_max_priority_fee,
            );
            assert forall|i: int| 0 <= i < rest.push(item).len() implies rest.push(item)[i]
                .tracking_id != id by {
                if i < rest.len() {
                    assert(rest.push(item)[i] == rest[i]);
                    if rest[i].tracking_id == id {
                        assert(plan_contains_id(rest, id));
                    }
                } else {
                    assert(rest.push(item)[i] == item);
                }
            }
        }
    }
}

/// Law: an entry whose current hash is mined in the processed block is
/// complete — the tick neither keeps it nor plans a rebroadcast for it, so
/// `status` on its id says Complete from then on.
pub proof fn lemma_included_entry_completes(
    s: Seq<MonitoredTransaction>,
    block_transactions: Seq<Hash256>,
    estimate_max_fee: u128,
    estimate_max_priority_fee: u128,
    i: int,
)
    requires
        unique_ids(s),
        0 <= i < s.len(),
        included_in(s[i].current_hash, block_transactions),
    ensures
        !contains_id(kept_of(s, block_transactions), s[i].tracking_id),
        !plan_contains_id(
            plan_of(s, block_transactions, estimate_max_fee, estimate_max_priority_fee),
            s[i].tracking_id,
        ),
    decreases s.len(),
{
    let id = s[i].tracking_id;
    if i == s.len() - 1 {
        assert forall|k: int| 0 <= k < s.drop_last().len() implies s.drop_last()[k].tracking_id
            != id by {
            assert(s.drop_last()[k] == s[k]);
        }
        assert(!contains_id(s.drop_last(), id));
        lemma_kept_of_id_subset(s.drop_last(), block_transactions, id);
        lemma_plan_of_id_subset(
            s.drop_last(),
            block_transactions,
            estimate_max_fee,
            estimate_max_priority_fee,
            id,
        );
        assert(included_in(s.last().current_hash, block_transactions));
    } else {
        assert forall|a: int, b: int| 0 <= a < b < s.drop_last().len() implies s.drop_last()[a]
            .tracking_id != s.drop_last()[b].tracking_id by {
            assert(s.drop_last()[a] == s[a]);
            assert(s.drop_last()[b] == s[b]);
        }
        assert(s.drop_last()[i] == s[i]);
        lemma_included_entry_completes(
            s.drop_last(),
            block_transactions,
            estimate_max_fee,
            estimate_max_priority_fee,
            i,
        );
        if !included_in(s.last().current_hash, block_transactions) {
            assert(s.last().tracking_id != id);
            let rest = kept_of(s.drop_last(), block_transactions);
            assert forall|k: int| 0 <= k < rest.push(s.last()).len() implies rest.push(s.last())[k]
                .tracking_id != id by {
                if k < rest.len() {
                    assert(rest.push(s.last())[k] == rest[k]);
                    if rest[k].tracking_id == id {
                        assert(contains_id(rest, id));
                    }
                } else {
                    assert(rest.push(s.last())[k] == s.last());
                }
            }
            let prest = plan_of(
                s.drop_last(),
                block_transactions,
                estimate_max_fee,
                estimate_max_priority_fee,
            );
            let item = crate::monitor::plan_item_of(
                s.last(),
                estimate_max_fee,
                estimate_max_priority_fee,
            );
            assert forall|k: int| 0 <= k < prest.push(item).len() implies prest.push(item)[k]
                .tracking_id != id by {
                if k < prest.len() {
                    assert(prest.push(item)[k] == prest[k]);
                    if prest[k].tracking_id == id {
                        assert(plan_contains_id(prest, id));
                    }
                } else {
                    assert(prest.push(item)[k] == item);
                }
            }
        }
    }
}

/// Law: completion is stable across the watch loop.  A block tick never
/// invents a tracking id — whether it keeps entries, empties the registry
/// into a rebroadcast plan, or leaves everything as it was — so an id that
/// is Complete before a tick is still Complete after it, and no rebroadcast
/// was planned under it.  Only a fresh submission reusing the id could make
/// it Pending again, and ids are drawn from 128 random bits.
pub proof fn lemma_complete_stays_complete(
    pre: TransactionMonitor,
    post: TransactionMonitor,
    block_transactions: Seq<Hash256>,
    estimate_max_fee: u128,
    estimate_max_priority_fee: u128,
    id: u128,
)
    requires
        !pre.exists_id(id),
        post.entries() == kept_of(pre.entries(), block_transactions) || post.entries()
            == Seq::<MonitoredTransaction>::empty() || post.entries() == pre.entries(),
    ensures
        post.status_spec(id) == Status::Complete,
        !plan_contains_id(
            plan_of(
                pre.entries(),
                block_transactions,
                estimate_max_fee,
                estimate_max_priority_fee,
            ),
            id,
        ),
{
    lemma_kept_of_id_subset(pre.entries(), block_transactions, id);
    lemma_plan_of_id_subset(
        pre.entries(),
        block_transactions,
        estimate_max_fee,
        estimate_max_priority_fee,
        id,
    );
}

/// The relation `process_block` establishes when a tick succeeds: the
/// block is counted, and either escalation was not due — the non-included
/// entries are kept unchanged and nothing is planned — or it was due and
/// the registry empties into the escalation plan.  A fatal due tick (an
/// escalated fee crossing the tracked ceiling) establishes no transition:
/// it restores every entry, included ones too, and plans nothing.
pub open spec fn block_tick_transition(
    pre: TransactionMonitor,
    post: TransactionMonitor,
    plan: Seq<PendingRebroadcast>,
    block_transactions: Seq<Hash256>,
    estimate_max_fee: u128,
    estimate_max_priority_fee: u128,
) -> bool {
    &&& post.block_frequency == pre.block_frequency
    &&& post.blocks_observed == pre.blocks_observed + 1
    &&& if due_for_escalation(post.blocks_observed, post.block_frequency) {
        post.entries() == Seq::<MonitoredTransaction>::empty() && plan == plan_of(
            pre.entries(),
            block_transactions,
            estimate_max_fee,
            estimate_max_priority_fee,
        )
    } else {
        post.entries() == kept_of(pre.entries(), block_transactions) && plan == Seq::<
            PendingRebroadcast,
        >::empty()
    }
}

/// Law: an entry whose current hash is mined in the processed block is
/// removed by that tick and no rebroadcast is planned under its id, so its
/// status reads Complete from the end of the tick on — removal being the
/// only record of completion.
pub proof fn lemma_mined_entry_completed_by_tick(
    pre: TransactionMonitor,
    post: TransactionMonitor,
    plan: Seq<PendingRebroadcast>,
    block_transactions: Seq<Hash256>,
    estimate_max_fee: u128,
    estimate_max_priority_fee: u128,
    i: int,
)
    requires
        pre.wf(),
        block_tick_transition(
            pre,
            post,
            plan,
            block_transactions,
            estimate_max_fee,
            estimate_max_priority_fee,
        ),
        0 <= i < pre.entries().len(),
        included_in(pre.entries()[i].current_hash, block_transactions),
    ensures
        post.status_spec(pre.entries()[i].tracking_id) == Status::Complete,
        !plan_contains_id(plan, pre.entries()[i].tracking_id),
{
    lemma_included_entry_completes(
        pre.entries(),
        block_transactions,
        estimate_max_fee,
        estimate_max_priority_fee,
        i,
    );
}

/// Every entry not included in the block has its escalation in a due
/// tick's plan.
pub proof fn lemma_plan_of_has_item(
    s: Seq<MonitoredTransaction>,
    block_transactions: Seq<Hash256>,
    estimate_max_fee: u128,
    estimate_max_priority_fee: u128,
    i: int,
)
    requires
        0 <= i < s.len(),
        !included_in(s[i].current_hash, block_transactions),
    ensures
        exists|j: int|
            0 <= j < plan_of(
                s,
                block_transactions,
                estimate_max_fee,
                estimate_max_priority_fee,
            ).len() && #[trigger] plan_of(
                s,
                block_transactions,
                estimate_max_fee,
                estimate_max_priority_fee,
            )[j] == plan_item_of(s[i], estimate_max_fee, estimate_max_priority_fee),
    decreases s.len(),
{
    let plan = plan_of(s, block_transactions, estimate_max_fee, estimate_max_priority_fee);
    let rest = plan_of(
        s.drop_last(),
        block_transactions,
        estimate_max_fee,
        estimate_max_priority_fee,
    );
    if i == s.len() - 1 {
        assert(s.last() == s[i]);
        assert(plan[rest.len() as int] == plan_item_of(
            s[i],
            estimate_max_fee,
            estimate_max_priority_fee,
        ));
    } else {
        assert(s.drop_last()[i] == s[i]);
        lemma_plan_of_has_item(
            s.drop_last(),
            block_transactions,
            estimate_max_fee,
            estimate_max_priority_fee,
            i,
        );
        let j = choose|j: int|
            0 <= j < rest.len() && #[trigger] rest[j] == plan_item_of(
                s[i],
                estimate_max_fee,
                estimate_max_priority_fee,
            );
        assert(plan[j] == plan_item_of(s[i], estimate_max_fee, estimate_max_priority_fee));
    }
}

/// Law: on a due tick, an entry not included in the block has a
/// rebroadcast planned: an item carrying the entry's stable tracking id
/// and target, the hash being replaced, and the request with the
/// policy-escalated fees.
pub proof fn lemma_due_entry_is_planned(
    pre: TransactionMonitor,
    post: TransactionMonitor,
    plan: Seq<PendingRebroadcast>,
    block_transactions: Seq<Hash256>,
    estimate_max_fee: u128,
    estimate_max_priority_fee: u128,
    i: int,
)
    requires
        block_tick_transition(
            pre,
            post,
            plan,
            block_transactions,
            estimate_max_fee,
            estimate_max_priority_fee,
        ),
        due_for_escalation(post.blocks_observed, post.block_frequency),
        0 <= i < pre.entries().len(),
        !included_in(pre.entries()[i].current_hash, block_transactions),
    ensures
        exists|j: int|
            0 <= j < plan.len() && #[trigger] plan[j] == plan_item_of(
                pre.entries()[i],
                estimate_max_fee,
                estimate_max_priority_fee,
            ),
        plan_item_of(pre.entries()[i], estimate_max_fee, estimate_max_priority_fee).tracking_id
            == pre.entries()[i].tracking_id,
        plan_item_of(pre.entries()[i], estimate_max_fee, estimate_max_priority_fee).previous_hash
            == pre.entries()[i].current_hash,
        plan_item_of(
            pre.entries()[i],
            estimate_max_fee,
            estimate_max_priority_fee,
        ).submission_target == pre.entries()[i].submission_target,
        plan_item_of(pre.entries()[i], estimate_max_fee, estimate_max_priority_fee).request
            == escalated_request(
            pre.entries()[i].request,
            estimate_max_fee,
            estimate_max_priority_fee,
        ),
{
    lemma_plan_of_has_item(
        pre.entries(),
        block_transactions,
        estimate_max_fee,
        estimate_max_priority_fee,
        i,
    );
}

/// Law: recording the successful send of an entry's escalation makes its
/// tracking id Pending again, tracked under the new hash with the
/// escalated request and the entry's own id and target.  The hypothesis is
/// exactly what `record_rebroadcast` ensures of a `Sent` outcome recorded
/// mid-tick, when the drained id is not live.
pub proof fn lemma_recorded_escalation_is_pending(
    tick: TransactionMonitor,
    post: TransactionMonitor,
    entry: MonitoredTransaction,
    new_hash: Hash256,
    estimate_max_fee: u128,
    estimate_max_priority_fee: u128,
)
    requires
        post.entries() == tick.entries().push(
            MonitoredTransaction {
                tracking_id: entry.tracking_id,
                current_hash: new_hash,
                request: escalated_request(
                    entry.request,
                    estimate_max_fee,
                    estimate_max_priority_fee,
                ),
                submission_target: entry.submission_target,
            },
        ),
    ensures
        post.status_spec(entry.tracking_id) == Status::Pending,
        post.entries().last().tracking_id == entry.tracking_id,
        post.entries().last().current_hash == new_hash,
        post.entries().last().request == escalated_request(
            entry.request,
            estimate_max_fee,
            estimate_max_priority_fee,
        ),
        post.entries().last().submission_target == entry.submission_target,
{
    assert(post.entries()[tick.entries().len() as int].tracking_id == entry.tracking_id);
}

/// Law: recording a rebroadcast outcome can only restore the planned
/// entry's own tracking id; every other id keeps the status it had.
pub proof fn lemma_rebroadcast_preserves_other_ids(
    pre: TransactionMonitor,
    post: TransactionMonitor,
    entry: MonitoredTransaction,
    id: u128,
)
    requires
        id != entry.tracking_id,
        post.entries() == pre.entries().push(entry) || post.entries() == pre.entries(),
    ensures
        post.exists_id(id) == pre.exists_id(id),
{
    if post.entries() == pre.entries().push(entry) {
        if pre.exists_id(id) {
            let w = choose|k: int|
                0 <= k < pre.entries().len() && pre.entries()[k].tracking_id == id;
            assert(post.entries()[w].tracking_id == id);
        }
        if post.exists_id(id) {
            let w = choose|k: int|
                0 <= k < post.entries().len() && post.entries()[k].tracking_id == id;
            if w < pre.entries().len() {
                assert(pre.entries()[w].tracking_id == id);
            } else {
                assert(post.entries()[w] == entry);
            }
        }
    }
}

} // verus!
