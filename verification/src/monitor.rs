//! The transaction monitor: the facade the submission path talks to
//! (`send_monitored_transaction`, `get_transaction_status`) and the decision
//! core of the block watch loop (`process_block`, `record_rebroadcast`).
//!
//! The watch loop's network work — streaming block hashes, fetching a
//! block's mined transactions, estimating fees, broadcasting a replacement —
//! happens outside; the caller hands the results in as plain values and
//! performs the broadcasts this module plans.

use vstd::prelude::*;

use crate::fees::{
    bump_transaction, escalated_max_fee, escalated_priority_fee, increase_by_minimum,
    prev_max_fee_spec, prev_priority_fee_spec,
};
use crate::messages::{is_replacement_rejected, is_replacement_rejected_spec};
use crate::registry::{all_wf, contains_id, unique_ids, PendingTransactionRegistry};
use crate::types::{
    request_fees_wf, BlockRef, Hash256, MonitorError, MonitoredTransaction, Status,
    TransactionRequest, MAX_TRACKED_FEE,
};

verus! {

/// Relies on uuid::Uuid::new_v4 for a fresh 128-bit random tracking id;
/// nothing is promised of the value that comes back.
#[verifier::external_body]
fn fresh_tracking_id() -> u128 {
    uuid::Uuid::new_v4().as_u128()
}

/// Whether a broadcast variant with this hash was mined in the block.
pub open spec fn included_in(h: Hash256, block_transactions: Seq<Hash256>) -> bool {
    block_transactions.contains(h)
}

/// The entries a block tick keeps when escalation is not due: everything
/// not yet included, unchanged and in order; included entries are complete
/// and disappear.
pub open spec fn kept_of(
    s: Seq<MonitoredTransaction>,
    block_transactions: Seq<Hash256>,
) -> Seq<MonitoredTransaction>
    decreases s.len(),
{
    if s.len() == 0 {
        Seq::empty()
    } else {
        let rest = kept_of(s.drop_last(), block_transactions);
        if included_in(s.last().current_hash, block_transactions) {
            rest
        } else {
            rest.push(s.last())
        }
    }
}

/// One planned rebroadcast: the entry's stable tracking id, the hash of the
/// variant being replaced, the request with its escalated fees already
/// applied, and the broadcast hint carried over unchanged.
#[verifier::ext_equal]
pub struct PendingRebroadcast {
    pub tracking_id: u128,
    pub previous_hash: Hash256,
    pub request: TransactionRequest,
    pub submission_target: Option<BlockRef>,
}

/// A request with the escalation policy applied to its fee pair and every
/// other field untouched.
pub open spec fn escalated_request(
    r: TransactionRequest,
    estimate_max_fee: u128,
    estimate_max_priority_fee: u128,
) -> TransactionRequest {
    TransactionRequest {
        to: r.to,
        value: r.value,
        data: r.data,
        nonce: r.nonce,
        gas_limit: r.gas_limit,
        max_fee_per_gas: Some(
            escalated_max_fee(
                prev_max_fee_spec(r, estimate_max_fee),
                prev_priority_fee_spec(r, estimate_max_priority_fee),
                estimate_max_fee as int,
                estimate_max_priority_fee as int,
            ) as u128,
        ),
        max_priority_fee_per_gas: Some(
            escalated_priority_fee(
                prev_priority_fee_spec(r, estimate_max_priority_fee),
                estimate_max_priority_fee as int,
            ) as u128,
        ),
    }
}

/// Whether the escalated max fee stays under the tracked ceiling, so the
/// replacement entry is itself well-formed and can be escalated again later.
pub open spec fn escalation_fits(
    r: TransactionRequest,
    estimate_max_fee: u128,
    estimate_max_priority_fee: u128,
) -> bool {
    escalated_max_fee(
        prev_max_fee_spec(r, estimate_max_fee),
        prev_priority_fee_spec(r, estimate_max_priority_fee),
        estimate_max_fee as int,
        estimate_max_priority_fee as int,
    ) <= MAX_TRACKED_FEE
}

/// Every entry the tick would escalate (not included in the block) fits
/// under the ceiling.
pub open spec fn all_due_escalations_fit(
    s: Seq<MonitoredTransaction>,
    block_transactions: Seq<Hash256>,
    estimate_max_fee: u128,
    estimate_max_priority_fee: u128,
) -> bool {
    forall|i: int|
        0 <= i < s.len() && !included_in(s[i].current_hash, block_transactions)
            ==> #[trigger] escalation_fits(s[i].request, estimate_max_fee, estimate_max_priority_fee)
}

/// The plan item escalation produces for one entry.
pub open spec fn plan_item_of(
    e: MonitoredTransaction,
    estimate_max_fee: u128,
    estimate_max_priority_fee: u128,
) -> PendingRebroadcast {
    PendingRebroadcast {
        tracking_id: e.tracking_id,
        previous_hash: e.current_hash,
        request: escalated_request(e.request, estimate_max_fee, estimate_max_priority_fee),
        submission_target: e.submission_target,
    }
}

/// The rebroadcast plan of a due tick: one item, in order, for every entry
/// not included in the block.
pub open spec fn plan_of(
    s: Seq<MonitoredTransaction>,
    block_transactions: Seq<Hash256>,
    estimate_max_fee: u128,
    estimate_max_priority_fee: u128,
) -> Seq<PendingRebroadcast>
    decreases s.len(),
{
    if s.len() == 0 {
        Seq::empty()
    } else {
        let rest = plan_of(
            s.drop_last(),
            block_transactions,
            estimate_max_fee,
            estimate_max_priority_fee,
        );
        if included_in(s.last().current_hash, block_transactions) {
            rest
        } else {
            rest.push(plan_item_of(s.last(), estimate_max_fee, estimate_max_priority_fee))
        }
    }
}

/// Some plan item carries this tracking id.
pub open spec fn plan_contains_id(p: Seq<PendingRebroadcast>, id: u128) -> bool {
    exists|i: int| 0 <= i < p.len() && p[i].tracking_id == id
}

/// Escalation is due on the block tick whose (process-local) count of
/// observed blocks is a multiple of the configured cadence.
pub open spec fn due_for_escalation(blocks_observed: u64, block_frequency: u64) -> bool {
    (blocks_observed as int) % (block_frequency as int) == 0
}

/// What handing an escalated replacement to the network came back with:
/// the hash of the newly broadcast variant, or the bytes of the provider's
/// error message.
pub enum SendOutcome {
    Sent(Hash256),
    SendFailed(Vec<u8>),
}

/// The monitor: the registry of in-flight transactions, the process-local
/// count of observed blocks, and the escalation cadence.  One long-lived
/// watch task and any number of submission calls share it behind a single
/// lock owned by the surrounding process.
pub struct TransactionMonitor {
    pub registry: PendingTransactionRegistry,
    pub block_frequency: u64,
    pub blocks_observed: u64,
}

impl TransactionMonitor {
    /// The tracked entries, in registry order.
    pub open spec fn entries(self) -> Seq<MonitoredTransaction> {
        self.registry@
    }

    /// Whether an entry with this tracking id is live.
    pub open spec fn exists_id(self, id: u128) -> bool {
        contains_id(self.entries(), id)
    }

    /// A tracking id is Pending exactly while its entry lives; removal is
    /// the only record of completion, so Complete cannot distinguish "never
    /// submitted" from "already completed".
    pub open spec fn status_spec(self, id: u128) -> Status {
        if self.exists_id(id) {
            Status::Pending
        } else {
            Status::Complete
        }
    }

    pub open spec fn wf(self) -> bool {
        self.registry.wf() && self.block_frequency > 0
    }

    /// A monitor with nothing tracked and no block observed yet.
    pub fn new(block_frequency: u64) -> (r: Self)
        requires
            block_frequency > 0,
        ensures
            r.wf(),
            r.entries() == Seq::<MonitoredTransaction>::empty(),
            r.blocks_observed == 0,
            r.block_frequency == block_frequency,
    {
        TransactionMonitor {
            registry: PendingTransactionRegistry::new(),
            block_frequency,
            blocks_observed: 0,
        }
    }

    /// Records an already-broadcast transaction under the given tracking id.
    /// Accepts exactly when the id is not yet live; on acceptance the entry
    /// joins the registry and nothing else changes.
    pub fn record_submission(
        &mut self,
        id: u128,
        current_hash: Hash256,
        request: TransactionRequest,
        submission_target: Option<BlockRef>,
    ) -> (accepted: bool)
        requires
            old(self).wf(),
            request_fees_wf(request),
        ensures
            final(self).wf(),
            final(self).block_frequency == old(self).block_frequency,
            final(self).blocks_observed == old(self).blocks_observed,
            accepted == !old(self).exists_id(id),
            accepted ==> final(self).entries() == old(self).entries().push(
                MonitoredTransaction { tracking_id: id, current_hash, request, submission_target },
            ),
            accepted ==> final(self).status_spec(id) == Status::Pending,
            !accepted ==> *final(self) == *old(self),
    {
        if self.registry.contains(id) {
            false
        } else {
            self.registry.insert(
                MonitoredTransaction { tracking_id: id, current_hash, request, submission_target },
            );
            proof {
                assert(self.entries()[old(self).entries().len() as int].tracking_id == id);
            }
            true
        }
    }

    /// The submission facade: draws a fresh random tracking id for a
    /// transaction the caller has canonicalized and broadcast, and records
    /// it.  The error comes only when the drawn id collided with a live
    /// entry (never observed in practice with 128 random bits); no entry is
    /// created then.
    pub fn send_monitored_transaction(
        &mut self,
        request: TransactionRequest,
        current_hash: Hash256,
        submission_target: Option<BlockRef>,
    ) -> (r: Result<u128, MonitorError>)
        requires
            old(self).wf(),
            request_fees_wf(request),
        ensures
            final(self).wf(),
            final(self).block_frequency == old(self).block_frequency,
            final(self).blocks_observed == old(self).blocks_observed,
            r matches Ok(id) ==> !old(self).exists_id(id) && final(self).entries() == old(
                self,
            ).entries().push(
                MonitoredTransaction {
                    tracking_id: id,
                    current_hash,
                    request,
                    submission_target,
                },
            ) && final(self).status_spec(id) == Status::Pending,
            r is Err ==> r == Err::<u128, MonitorError>(MonitorError::SubmissionFailed)
                && *final(self) == *old(self),
            old(self).entries().len() == 0 ==> r is Ok,
    {
        let id = fresh_tracking_id();
        if self.record_submission(id, current_hash, request, submission_target) {
            Ok(id)
        } else {
            Err(MonitorError::SubmissionFailed)
        }
    }

    /// Pending while the entry lives, Complete otherwise.
    pub fn get_transaction_status(&self, id: u128) -> (r: Status)
        ensures
            r == self.status_spec(id),
    {
        if self.registry.contains(id) {
            Status::Pending
        } else {
            Status::Complete
        }
    }

    /// Applies the outcome of one planned rebroadcast.  A successful send
    /// re-registers the entry under its stable tracking id with the new
    /// hash and the escalated fees.  A rejected replacement (nonce already
    /// superseded) is silent completion: the entry stays removed and no
    /// error is raised.  Any other failure leaves the registry as it is and
    /// is fatal to the watch loop.
    pub fn record_rebroadcast(
        &mut self,
        pending: PendingRebroadcast,
        outcome: SendOutcome,
    ) -> (r: Result<(), MonitorError>)
        requires
            old(self).wf(),
            request_fees_wf(pending.request),
        ensures
            final(self).wf(),
            final(self).block_frequency == old(self).block_frequency,
            final(self).blocks_observed == old(self).blocks_observed,
            match outcome {
                SendOutcome::Sent(new_hash) => {
                    &&& r is Ok
                    &&& !old(self).exists_id(pending.tracking_id) ==> final(self).entries()
                        == old(self).entries().push(
                        MonitoredTransaction {
                            tracking_id: pending.tracking_id,
                            current_hash: new_hash,
                            request: pending.request,
                            submission_target: pending.submission_target,
                        },
                    )
                    &&& old(self).exists_id(pending.tracking_id) ==> *final(self) == *old(self)
                },
                SendOutcome::SendFailed(message) => {
                    &&& *final(self) == *old(self)
                    &&& is_replacement_rejected_spec(message@) ==> r is Ok
                    &&& !is_replacement_rejected_spec(message@) ==> r == Err::<
                        (),
                        MonitorError,
                    >(MonitorError::MonitorFatal)
                },
            },
    {
        match outcome {
            SendOutcome::Sent(new_hash) => {
                if !self.registry.contains(pending.tracking_id) {
                    self.registry.insert(
                        MonitoredTransaction {
                            tracking_id: pending.tracking_id,
                            current_hash: new_hash,
                            request: pending.request,
                            submission_target: pending.submission_target,
                        },
                    );
                }
                Ok(())
            },
            SendOutcome::SendFailed(message) => {
                if is_replacement_rejected(&message) {
                    Ok(())
                } else {
                    Err(MonitorError::MonitorFatal)
                }
            },
        }
    }

    /// One block tick.  Counts the block, drains the registry as the tick's
    /// consistent working set and decides for each entry, in order: an entry
    /// whose current hash was mined in the block is complete and disappears;
    /// when escalation is not yet due the rest are reinserted unchanged and
    /// nothing is planned; when it is due the rest leave the registry as the
    /// returned rebroadcast plan, fees already escalated, for the caller to
    /// broadcast and record one by one.  When a due entry's escalated fee
    /// would cross the tracked ceiling the tick is fatal and the registry is
    /// left as it was.
    pub fn process_block(
        &mut self,
        block_transactions: &Vec<Hash256>,
        estimate_max_fee: u128,
        estimate_max_priority_fee: u128,
    ) -> (r: Result<Vec<PendingRebroadcast>, MonitorError>)
        requires
            old(self).wf(),
            old(self).blocks_observed < u64::MAX,
            estimate_max_priority_fee <= estimate_max_fee,
            estimate_max_fee <= MAX_TRACKED_FEE,
        ensures
            final(self).wf(),
            final(self).block_frequency == old(self).block_frequency,
            final(self).blocks_observed == old(self).blocks_observed + 1,
            !due_for_escalation(final(self).blocks_observed, old(self).block_frequency) ==> (
            r matches Ok(plan) && plan@ == Seq::<PendingRebroadcast>::empty()
                && final(self).entries() == kept_of(old(self).entries(), block_transactions@)),
            (due_for_escalation(final(self).blocks_observed, old(self).block_frequency)
                && all_due_escalations_fit(
                old(self).entries(),
                block_transactions@,
                estimate_max_fee,
                estimate_max_priority_fee,
            )) ==> (r matches Ok(plan) && plan@ == plan_of(
                old(self).entries(),
                block_transactions@,
                estimate_max_fee,
                estimate_max_priority_fee,
            ) && final(self).entries() == Seq::<MonitoredTransaction>::empty()),
            (due_for_escalation(final(self).blocks_observed, old(self).block_frequency)
                && !all_due_escalations_fit(
                old(self).entries(),
                block_transactions@,
                estimate_max_fee,
                estimate_max_priority_fee,
            )) ==> (r == Err::<Vec<PendingRebroadcast>, MonitorError>(MonitorError::MonitorFatal)
                && final(self).entries() == old(self).entries()),
            r matches Ok(plan) ==> forall|i: int|
                0 <= i < plan@.len() ==> request_fees_wf(#[trigger] plan@[i].request),
    {
        self.blocks_observed = self.blocks_observed + 1;
        let due = self.blocks_observed % self.block_frequency == 0;
        let ghost before_tick = self.registry@;

        if !due {
            let mut drained = self.registry.drain_all();
            let ghost mut processed = Seq::<MonitoredTransaction>::empty();
            while drained.len() > 0
                invariant
                    self.block_frequency == old(self).block_frequency,
                    self.blocks_observed == old(self).blocks_observed + 1,
                    self.block_frequency > 0,
                    self.registry.wf(),
                    self.registry@ == kept_of(processed, block_transactions@),
                    processed + drained@ == before_tick,
                    unique_ids(before_tick),
                    all_wf(before_tick),
                decreases drained@.len(),
            {
                let ghost drained_before = drained@;
                let entry = drained.remove(0);
                let ghost entry_snapshot = entry;
                proof {
                    assert(before_tick[processed.len() as int] == entry_snapshot);
                    assert(processed.push(entry_snapshot) + drained@ =~= before_tick);
                }
                let included = block_contains(block_transactions, entry.current_hash);
                if !included {
                    proof {
                        assert forall|k: int| 0 <= k < processed.len() implies processed[k]
                            .tracking_id != entry_snapshot.tracking_id by {
                            assert(processed[k] == before_tick[k]);
                        }
                        assert(!contains_id(processed, entry_snapshot.tracking_id));
                        lemma_kept_of_id_subset(
                            processed,
                            block_transactions@,
                            entry_snapshot.tracking_id,
                        );
                        assert(before_tick[processed.len() as int].wf());
                    }
                    self.registry.reinsert(entry);
                }
                proof {
                    let stepped = processed.push(entry_snapshot);
                    assert(stepped.drop_last() =~= processed);
                    assert(stepped.last() == entry_snapshot);
                    processed = stepped;
                }
            }
            proof {
                assert(processed + drained@ =~= processed);
                assert(before_tick == processed);
            }
            Ok(Vec::new())
        } else {
            let mut drained = self.registry.drain_all();
            let mut all_fit = true;
            let mut i: usize = 0;
            while i < drained.len()
                invariant
                    drained@ == before_tick,
                    i <= drained@.len(),
                    all_wf(before_tick),
                    estimate_max_priority_fee <= estimate_max_fee,
                    estimate_max_fee <= MAX_TRACKED_FEE,
                    all_fit == (forall|k: int|
                        0 <= k < i && !included_in(drained@[k].current_hash, block_transactions@)
                            ==> #[trigger] escalation_fits(
                            drained@[k].request,
                            estimate_max_fee,
                            estimate_max_priority_fee,
                        )),
                decreases drained@.len() - i,
            {
                let included = block_contains(block_transactions, drained[i].current_hash);
                if !included {
                    proof {
                        assert(before_tick[i as int].wf());
                    }
                    let fits = escalation_fits_exec(
                        &drained[i].request,
                        estimate_max_fee,
                        estimate_max_priority_fee,
                    );
                    if !fits {
                        all_fit = false;
                    }
                }
                i = i + 1;
            }
            if !all_fit {
                self.registry.entries = drained;
                return Err(MonitorError::MonitorFatal);
            }
            let mut plan: Vec<PendingRebroadcast> = Vec::new();
            let ghost mut processed = Seq::<MonitoredTransaction>::empty();
            while drained.len() > 0
                invariant
                    self.block_frequency == old(self).block_frequency,
                    self.blocks_observed == old(self).blocks_observed + 1,
                    self.block_frequency > 0,
                    self.registry@ == Seq::<MonitoredTransaction>::empty(),
                    self.registry.wf(),
                    processed + drained@ == before_tick,
                    all_wf(before_tick),
                    all_due_escalations_fit(
                        before_tick,
                        block_transactions@,
                        estimate_max_fee,
                        estimate_max_priority_fee,
                    ),
                    estimate_max_priority_fee <= estimate_max_fee,
                    estimate_max_fee <= MAX_TRACKED_FEE,
                    plan@ == plan_of(
                        processed,
                        block_transactions@,
                        estimate_max_fee,
                        estimate_max_priority_fee,
                    ),
                    forall|k: int|
                        0 <= k < plan@.len() ==> request_fees_wf(#[trigger] plan@[k].request),
                decreases drained@.len(),
            {
                let mut entry = drained.remove(0);
                let ghost entry_snapshot = entry;
                proof {
                    assert(before_tick[processed.len() as int] == entry_snapshot);
                    assert(processed.push(entry_snapshot) + drained@ =~= before_tick);
                }
                let included = block_contains(block_transactions, entry.current_hash);
                if !included {
                    proof {
                        assert(before_tick[processed.len() as int].wf());
                        assert(escalation_fits(
                            entry_snapshot.request,
                            estimate_max_fee,
                            estimate_max_priority_fee,
                        ));
                    }
                    bump_transaction(
                        &mut entry.request,
                        estimate_max_fee,
                        estimate_max_priority_fee,
                    );
                    proof {
                        assert(entry.request =~= escalated_request(
                            entry_snapshot.request,
                            estimate_max_fee,
                            estimate_max_priority_fee,
                        ));
                    }
                    let item = PendingRebroadcast {
                        tracking_id: entry.tracking_id,
                        previous_hash: entry.current_hash,
                        request: entry.request,
                        submission_target: entry.submission_target,
                    };
                    proof {
                        assert(item =~= plan_item_of(
                            entry_snapshot,
                            estimate_max_fee,
                            estimate_max_priority_fee,
                        ));
                    }
                    plan.push(item);
                }
                proof {
                    let stepped = processed.push(entry_snapshot);
                    assert(stepped.drop_last() =~= processed);
                    assert(stepped.last() == entry_snapshot);
                    processed = stepped;
                }
            }
            proof {
                assert(processed + drained@ =~= processed);
                assert(before_tick == processed);
            }
            Ok(plan)
        }
    }
}

/// Whether a partial submission still needs a network fee estimate: either
/// fee field absent means both are filled from one fresh estimate.
pub fn needs_fee_estimate(request: &TransactionRequest) -> (r: bool)
    ensures
        r == (request.max_fee_per_gas is None || request.max_priority_fee_per_gas is None),
{
    request.max_fee_per_gas.is_none() || request.max_priority_fee_per_gas.is_none()
}

/// Fills both fee fields from a fresh network estimate, leaving every other
/// field as it was.
pub fn with_estimated_fees(
    request: TransactionRequest,
    estimate_max_fee: u128,
    estimate_max_priority_fee: u128,
) -> (r: TransactionRequest)
    ensures
        r.max_fee_per_gas == Some(estimate_max_fee),
        r.max_priority_fee_per_gas == Some(estimate_max_priority_fee),
        r.to == request.to,
        r.value == request.value,
        r.data == request.data,
        r.nonce == request.nonce,
        r.gas_limit == request.gas_limit,
{
    let mut filled = request;
    filled.max_fee_per_gas = Some(estimate_max_fee);
    filled.max_priority_fee_per_gas = Some(estimate_max_priority_fee);
    filled
}

/// Whether escalating this request's fees would stay under the tracked
/// ceiling.
fn escalation_fits_exec(
    request: &TransactionRequest,
    estimate_max_fee: u128,
    estimate_max_priority_fee: u128,
) -> (r: bool)
    requires
        estimate_max_priority_fee <= estimate_max_fee,
        estimate_max_fee <= MAX_TRACKED_FEE,
        request_fees_wf(*request),
    ensures
        r == escalation_fits(*request, estimate_max_fee, estimate_max_priority_fee),
{
    let prev_max_priority_fee = match request.max_priority_fee_per_gas {
        Some(v) => v,
        None => estimate_max_priority_fee,
    };
    let prev_max_fee = match request.max_fee_per_gas {
        Some(v) => v,
        None => estimate_max_fee,
    };
    let bumped_priority = increase_by_minimum(prev_max_priority_fee);
    let new_max_priority_fee = if estimate_max_priority_fee >= bumped_priority {
        estimate_max_priority_fee
    } else {
        bumped_priority
    };
    let estimate_base_fee = estimate_max_fee - estimate_max_priority_fee;
    let prev_base_fee = prev_max_fee - prev_max_priority_fee;
    let bumped_base = increase_by_minimum(prev_base_fee);
    let new_base_fee = if estimate_base_fee >= bumped_base {
        estimate_base_fee
    } else {
        bumped_base
    };
    let new_max_fee = new_base_fee + new_max_priority_fee;
    new_max_fee <= MAX_TRACKED_FEE
}

/// A tracking id absent from a working set is absent from what a tick keeps
/// of it.
pub proof fn lemma_kept_of_id_subset(
    s: Seq<MonitoredTransaction>,
    block_transactions: Seq<Hash256>,
    id: u128,
)
    requires
        !contains_id(s, id),
    ensures
        !contains_id(kept_of(s, block_transactions), id),
    decreases s.len(),
{
    if s.len() > 0 {
        assert forall|i: int| 0 <= i < s.drop_last().len() implies s.drop_last()[i].tracking_id
            != id by {
            assert(s.drop_last()[i] == s[i]);
            if s[i].tracking_id == id {
                assert(contains_id(s, id));
            }
        }
        lemma_kept_of_id_subset(s.drop_last(), block_transactions, id);
        let rest = kept_of(s.drop_last(), block_transactions);
        if !included_in(s.last().current_hash, block_transactions) {
            if s.last().tracking_id == id {
                assert(s[s.len() - 1].tracking_id == id);
                assert(contains_id(s, id));
            }
            assert forall|i: int| 0 <= i < rest.push(s.last()).len() implies rest.push(s.last())[i]
                .tracking_id != id by {
                if i < rest.len() {
                    assert(rest.push(s.last())[i] == rest[i]);
                    if rest[i].tracking_id == id {
                        assert(contains_id(rest, id));
                    }
                } else {
                    assert(rest.push(s.last())[i] == s.last());
                }
            }
        }
    }
}

/// Whether the block's mined transactions carry this hash.
fn block_contains(block_transactions: &Vec<Hash256>, h: Hash256) -> (r: bool)
    ensures
        r == included_in(h, block_transactions@),
{
    let mut i: usize = 0;
    while i < block_transactions.len()
        invariant
            i <= block_transactions@.len(),
            forall|k: int| 0 <= k < i ==> block_transactions@[k] != h,
        decreases block_transactions@.len() - i,
    {
        if block_transactions[i] == h {
            return true;
        }
        i = i + 1;
    }
    false
}

} // verus!
