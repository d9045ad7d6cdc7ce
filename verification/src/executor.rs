//! Executor adapter: committing production, side-effect-free dry-run, and
//! storage-read-replay recording over the same deterministic model engine.
//!
//! Production consumes transactions from a source — a pull-based live pool
//! bounded by a deadline, or a fixed ordered list with no time bound — and
//! yields the finalized block together with its uncommitted storage delta,
//! or fails cleanly.  Every operation is referentially transparent: given
//! the same committed view and the same inputs it yields the same outcome.

use vstd::prelude::*;
use crate::block::{Block, BlockHeader, Digest, Transaction};
use crate::storage::OnChainIterableKeyValueView;

verus! {

/// A transaction as the live pool yields it: the transaction itself and
/// the instant it became available to a pull.
#[derive(Clone, Copy, Debug, PartialEq, Eq, Structural)]
pub struct ArrivingTransaction {
    /// Instant at which a pull for this transaction resolves.
    pub arrival: u64,
    pub tx: Transaction,
}

/// A pull-based transaction source obtained from the transaction pool for
/// one production attempt.
#[derive(Clone, Debug)]
pub struct TransactionsSource {
    /// Gas price the pool used to select and order the transactions.
    pub gas_price: u64,
    /// Transactions the pool will yield, in pull order.
    pub txs: Vec<ArrivingTransaction>,
}

/// Where a candidate block's transactions come from.  A live source carries
/// the deadline that bounds its pulls; a fixed list has nothing to wait for
/// and carries none.
#[derive(Clone, Debug)]
pub enum SourceKind {
    /// Pull-based live pool, bounded by a deadline instant.
    Live { source: TransactionsSource, deadline: u64 },
    /// Pre-determined ordered list, used for deterministic replays and
    /// dry runs.
    FixedList { txs: Vec<Transaction> },
}

/// The bundle that parameterizes block assembly: the header fields of the
/// block to produce, the gas price, and the transaction source.
#[derive(Clone, Debug)]
pub struct Components {
    pub height: u32,
    pub da_height: u64,
    pub time: u64,
    pub prev_root: Digest,
    pub gas_price: u64,
    pub source: SourceKind,
}

/// One uncommitted storage mutation.
#[derive(Clone, Copy, Debug, PartialEq, Eq, Structural)]
pub struct StorageWrite {
    pub key: u64,
    pub value: u64,
}

/// An uncommitted, atomic set of storage mutations produced by executing a
/// block.  Ownership passes to the caller, who alone commits or discards
/// it; it is never partially applied.
#[derive(Clone, Debug, PartialEq, Eq)]
pub struct Changes {
    pub writes: Vec<StorageWrite>,
}

/// A produced block together with its uncommitted changes.
#[derive(Clone, Debug, PartialEq, Eq)]
pub struct UncommittedResult {
    pub block: Block,
    pub changes: Changes,
}

/// Engine-level execution failure.  Production for the attempt fails and
/// is not retried here; retry policy belongs to the caller.
#[derive(Clone, Copy, Debug, PartialEq, Eq, Structural)]
pub enum ExecutorError {
    /// A consumed transaction spends synthetic coins, which committing
    /// production never allows.
    InvalidTransaction,
}

/// Outcome of speculatively executing one transaction.
#[derive(Clone, Copy, Debug, PartialEq, Eq, Structural)]
pub enum TxStatus {
    Success,
    Failed,
}

/// One storage read performed during speculative execution: the
/// transaction slot probed and whether it held a committed transaction.
#[derive(Clone, Copy, Debug, PartialEq, Eq, Structural)]
pub struct StorageReadReplayEvent {
    pub key: u64,
    pub found: bool,
}

/// Output of a dry run: one status per transaction, in input order, and,
/// when recording was requested, the ordered storage-read trace.
#[derive(Clone, Debug, PartialEq, Eq)]
pub struct DryRunResult {
    pub statuses: Vec<TxStatus>,
    pub storage_reads: Option<Vec<StorageReadReplayEvent>>,
}

/// Index of the first pull that resolves after the deadline: everything
/// before it is consumed, nothing from it on is.
pub open spec fn first_late_index(txs: Seq<ArrivingTransaction>, deadline: u64) -> int
    decreases txs.len(),
{
    if txs.len() == 0 {
        0
    } else if txs[0].arrival > deadline {
        0
    } else {
        1 + first_late_index(txs.drop_first(), deadline)
    }
}

/// The transactions a live source yields before its deadline, in pull
/// order.
pub open spec fn live_consumed(txs: Seq<ArrivingTransaction>, deadline: u64) -> Seq<Transaction> {
    Seq::new(first_late_index(txs, deadline) as nat, |i: int| txs[i].tx)
}

/// The transactions the engine consumes from a source: the on-time prefix
/// of a live source, or the whole fixed list.
pub open spec fn source_consumed(source: SourceKind) -> Seq<Transaction> {
    match source {
        SourceKind::Live { source, deadline } => live_consumed(source.txs@, deadline),
        SourceKind::FixedList { txs } => txs@,
    }
}

/// True when no consumed transaction spends synthetic coins, so that
/// committing production succeeds.
pub open spec fn all_production_valid(txs: Seq<Transaction>) -> bool {
    forall|i: int| 0 <= i < txs.len() ==> !txs[i].uses_fake_coins
}

/// The storage delta of executing a transaction sequence: one write per
/// transaction, in execution order.
pub open spec fn changes_of(txs: Seq<Transaction>) -> Seq<StorageWrite> {
    Seq::new(txs.len(), |i: int| StorageWrite { key: txs[i].id, value: txs[i].gas })
}

/// The first pull past the deadline is the boundary of the consumed
/// prefix: everything before it is on time and, when it lies inside the
/// sequence, it is itself late.
pub proof fn lemma_first_late_index(txs: Seq<ArrivingTransaction>, deadline: u64)
    ensures
        0 <= first_late_index(txs, deadline) <= txs.len(),
        forall|i: int| 0 <= i < first_late_index(txs, deadline) ==> txs[i].arrival <= deadline,
        first_late_index(txs, deadline) < txs.len() ==> txs[first_late_index(
            txs,
            deadline,
        )].arrival > deadline,
    decreases txs.len(),
{
    if txs.len() == 0 {
    } else if txs[0].arrival > deadline {
    } else {
        lemma_first_late_index(txs.drop_first(), deadline);
        assert forall|i: int| 0 <= i < first_late_index(txs, deadline) implies txs[i].arrival
            <= deadline by {
            if i >= 1 {
                assert(txs.drop_first()[i - 1] == txs[i]);
            }
        }
        if first_late_index(txs, deadline) < txs.len() {
            assert(txs.drop_first()[first_late_index(txs.drop_first(), deadline)] == txs[
                first_late_index(txs, deadline)]);
        }
    }
}

/// Law of the deadline: live production includes no transaction that
/// arrived after the deadline, and a source that yields nothing by the
/// deadline produces an empty block.
pub proof fn lemma_deadline_bounds_live_production(txs: Seq<ArrivingTransaction>, deadline: u64)
    ensures
        live_consumed(txs, deadline).len() <= txs.len(),
        forall|i: int|
            0 <= i < live_consumed(txs, deadline).len() ==> txs[i].arrival <= deadline
                && live_consumed(txs, deadline)[i] == txs[i].tx,
        (txs.len() == 0 || txs[0].arrival > deadline) ==> live_consumed(txs, deadline).len() == 0,
{
    lemma_first_late_index(txs, deadline);
}

/// True when a transaction with identifier `id` is already part of a
/// committed block, considering only blocks at or below `upto` when a
/// bound is given.
pub open spec fn committed_up_to(
    view: OnChainIterableKeyValueView,
    id: u64,
    upto: Option<u32>,
) -> bool {
    exists|i: int, j: int|
        0 <= i < view.blocks@.len() && 0 <= j < view.blocks@[i].tx_ids@.len()
            && (upto matches Some(h) ==> view.blocks@[i].header.height <= h)
            && view.blocks@[i].tx_ids@[j] == id
}

/// The dry-run allowance for synthetic coins: forbidden unless the caller
/// explicitly enables the debugging allowance.
pub open spec fn effective_forbid(forbid_fake_coins: Option<bool>) -> bool {
    match forbid_fake_coins {
        Some(b) => b,
        None => true,
    }
}

/// Per-transaction outcomes of a dry run: a transaction fails when it
/// spends forbidden synthetic coins or is already committed within the
/// execution context; otherwise it succeeds.
pub open spec fn dry_run_statuses(
    view: OnChainIterableKeyValueView,
    txs: Seq<Transaction>,
    forbid: bool,
    upto: Option<u32>,
) -> Seq<TxStatus> {
    Seq::new(
        txs.len(),
        |i: int|
            if (forbid && txs[i].uses_fake_coins) || committed_up_to(view, txs[i].id, upto) {
                TxStatus::Failed
            } else {
                TxStatus::Success
            },
    )
}

/// The ordered storage reads speculative execution performs: one probe of
/// the committed-transaction slot per transaction, in input order.
pub open spec fn replay_events(
    view: OnChainIterableKeyValueView,
    txs: Seq<Transaction>,
    upto: Option<u32>,
) -> Seq<StorageReadReplayEvent> {
    Seq::new(
        txs.len(),
        |i: int|
            StorageReadReplayEvent {
                key: txs[i].id,
                found: committed_up_to(view, txs[i].id, upto),
            },
    )
}

/// Everything a dry run of `txs` against `view` must return: the statuses,
/// and the read trace exactly when recording was requested.
pub open spec fn is_dry_run_outcome(
    view: OnChainIterableKeyValueView,
    txs: Seq<Transaction>,
    forbid: bool,
    upto: Option<u32>,
    record: bool,
    d: DryRunResult,
) -> bool {
    &&& d.statuses@ == dry_run_statuses(view, txs, forbid, upto)
    &&& record ==> (d.storage_reads matches Some(reads) && reads@ == replay_events(
        view,
        txs,
        upto,
    ))
    &&& !record ==> d.storage_reads is None
}

/// Law of idempotence: two dry runs of the same transactions against the
/// same committed view, with the same allowance, context and recording
/// choice, yield identical statuses and identical replay traces.
pub proof fn lemma_dry_run_idempotent(
    view: OnChainIterableKeyValueView,
    txs: Seq<Transaction>,
    forbid: bool,
    upto: Option<u32>,
    record: bool,
    d1: DryRunResult,
    d2: DryRunResult,
)
    requires
        is_dry_run_outcome(view, txs, forbid, upto, record, d1),
        is_dry_run_outcome(view, txs, forbid, upto, record, d2),
    ensures
        d1.statuses@ == d2.statuses@,
        d1.storage_reads is Some <==> d2.storage_reads is Some,
        d1.storage_reads is Some && d2.storage_reads is Some ==> d1.storage_reads->0@
            == d2.storage_reads->0@,
{
}

/// Executor adapter: wraps the deterministic model engine together with
/// the committed view it executes against.  No operation mutates the view.
#[derive(Clone, Debug)]
pub struct ExecutorAdapter {
    /// The committed chain state execution reads.
    pub view: OnChainIterableKeyValueView,
}

impl ExecutorAdapter {
    /// Executes a block build without committing.  A live source is pulled
    /// until the first pull that resolves after its deadline; reaching the
    /// deadline cancels further pulls but keeps the work already done.  A
    /// fixed list is consumed whole, with no time bound.  Succeeds exactly
    /// when no consumed transaction spends synthetic coins, returning the
    /// finalized block — its transactions in consumption order — and the
    /// uncommitted changes of executing them.
    pub fn produce_without_commit(&self, component: Components) -> (r: Result<
        UncommittedResult,
        ExecutorError,
    >)
        ensures
            r is Ok <==> all_production_valid(source_consumed(component.source)),
            r matches Ok(u) ==> u.block.header == (BlockHeader {
                height: component.height,
                da_height: component.da_height,
                time: component.time,
                prev_root: component.prev_root,
            }),
            r matches Ok(u) ==> u.block.transactions@ == source_consumed(component.source)
                && u.changes.writes@ == changes_of(source_consumed(component.source)),
            r is Err ==> r == Err::<UncommittedResult, ExecutorError>(
                ExecutorError::InvalidTransaction,
            ),
    {
        let consumed: Vec<Transaction> = match component.source {
            SourceKind::Live { source, deadline } => collect_live(&source.txs, deadline),
            SourceKind::FixedList { txs } => txs,
        };

        let mut i: usize = 0;
        while i < consumed.len()
            invariant
                i <= consumed@.len(),
                consumed@ == source_consumed(component.source),
                forall|j: int| 0 <= j < i ==> !consumed@[j].uses_fake_coins,
            decreases consumed@.len() - i,
        {
            if consumed[i].uses_fake_coins {
                assert(!all_production_valid(consumed@));
                return Err(ExecutorError::InvalidTransaction);
            }
            i = i + 1;
        }

        let mut writes: Vec<StorageWrite> = Vec::new();
        let mut k: usize = 0;
        while k < consumed.len()
            invariant
                k <= consumed@.len(),
                writes@.len() == k,
                forall|j: int|
                    0 <= j < k ==> writes@[j] == (StorageWrite {
                        key: consumed@[j].id,
                        value: consumed@[j].gas,
                    }),
            decreases consumed@.len() - k,
        {
            writes.push(StorageWrite { key: consumed[k].id, value: consumed[k].gas });
            k = k + 1;
        }
        assert(writes@ =~= changes_of(consumed@));

        let header = BlockHeader {
            height: component.height,
            da_height: component.da_height,
            time: component.time,
            prev_root: component.prev_root,
        };
        Ok(
            UncommittedResult {
                block: Block { header, transactions: consumed },
                changes: Changes { writes },
            },
        )
    }

    /// Executes speculatively, without any storage mutation.  The optional
    /// allowance `forbid_fake_coins` defaults to forbidding synthetic
    /// coins; `at_height` re-targets the execution context to committed
    /// blocks at or below a historical height instead of the whole tip;
    /// `record_storage_read_replay` opts into capturing the ordered
    /// storage-read trace.
    pub fn dry_run(
        &self,
        component: Components,
        forbid_fake_coins: Option<bool>,
        at_height: Option<u32>,
        record_storage_read_replay: bool,
    ) -> (r: Result<DryRunResult, ExecutorError>)
        requires
            component.source is FixedList,
        ensures
            r matches Ok(d) && is_dry_run_outcome(
                self.view,
                component.source->FixedList_txs@,
                effective_forbid(forbid_fake_coins),
                at_height,
                record_storage_read_replay,
                d,
            ),
    {
        let txs: Vec<Transaction> = match component.source {
            SourceKind::FixedList { txs } => txs,
            SourceKind::Live { .. } => {
                proof {
                    assert(false);
                }
                Vec::new()
            },
        };
        let forbid = match forbid_fake_coins {
            Some(b) => b,
            None => true,
        };
        let mut statuses: Vec<TxStatus> = Vec::new();
        let mut reads: Vec<StorageReadReplayEvent> = Vec::new();
        let mut i: usize = 0;
        while i < txs.len()
            invariant
                i <= txs@.len(),
                statuses@.len() == i,
                reads@.len() == i,
                forall|j: int|
                    0 <= j < i ==> statuses@[j] == dry_run_statuses(
                        self.view,
                        txs@,
                        forbid,
                        at_height,
                    )[j],
                forall|j: int|
                    0 <= j < i ==> reads@[j] == replay_events(self.view, txs@, at_height)[j],
            decreases txs@.len() - i,
        {
            let tx = txs[i];
            let found = self.is_committed_up_to(tx.id, at_height);
            reads.push(StorageReadReplayEvent { key: tx.id, found });
            if (forbid && tx.uses_fake_coins) || found {
                statuses.push(TxStatus::Failed);
            } else {
                statuses.push(TxStatus::Success);
            }
            i = i + 1;
        }
        assert(statuses@ =~= dry_run_statuses(self.view, txs@, forbid, at_height));
        assert(reads@ =~= replay_events(self.view, txs@, at_height));
        let storage_reads = if record_storage_read_replay {
            Some(reads)
        } else {
            None
        };
        Ok(DryRunResult { statuses, storage_reads })
    }

    /// Recomputes the ordered storage-read trace for an already-known
    /// block: the probes a dry run of its transactions performs, in an
    /// execution context bounded by the block's own height.
    pub fn storage_read_replay(&self, block: &Block) -> (r: Result<
        Vec<StorageReadReplayEvent>,
        ExecutorError,
    >)
        ensures
            r matches Ok(v) && v@ == replay_events(
                self.view,
                block.transactions@,
                Some(block.header.height),
            ),
    {
        let upto = Some(block.header.height);
        let mut reads: Vec<StorageReadReplayEvent> = Vec::new();
        let mut i: usize = 0;
        while i < block.transactions.len()
            invariant
                i <= block.transactions@.len(),
                reads@.len() == i,
                forall|j: int|
                    0 <= j < i ==> reads@[j] == replay_events(
                        self.view,
                        block.transactions@,
                        Some(block.header.height),
                    )[j],
                upto == Some::<u32>(block.header.height),
            decreases block.transactions@.len() - i,
        {
            let tx = block.transactions[i];
            let found = self.is_committed_up_to(tx.id, upto);
            reads.push(StorageReadReplayEvent { key: tx.id, found });
            i = i + 1;
        }
        assert(reads@ =~= replay_events(self.view, block.transactions@, Some(block.header.height)));
        Ok(reads)
    }

    /// Probes committed storage for a transaction identifier, considering
    /// only blocks at or below `upto` when a bound is given.
    fn is_committed_up_to(&self, id: u64, upto: Option<u32>) -> (r: bool)
        ensures
            r == committed_up_to(self.view, id, upto),
    {
        let mut i: usize = 0;
        while i < self.view.blocks.len()
            invariant
                i <= self.view.blocks@.len(),
                forall|bi: int, j: int|
                    0 <= bi < i && 0 <= j < self.view.blocks@[bi].tx_ids@.len() && (
                    upto matches Some(h) ==> self.view.blocks@[bi].header.height <= h)
                        ==> self.view.blocks@[bi].tx_ids@[j] != id,
            decreases self.view.blocks@.len() - i,
        {
            let in_context = match upto {
                Some(h) => self.view.blocks[i].header.height <= h,
                None => true,
            };
            if in_context {
                let block = &self.view.blocks[i];
                let mut j: usize = 0;
                while j < block.tx_ids.len()
                    invariant
                        j <= block.tx_ids@.len(),
                        block.tx_ids@ == self.view.blocks@[i as int].tx_ids@,
                        i < self.view.blocks@.len(),
                        upto matches Some(h) ==> self.view.blocks@[i as int].header.height <= h,
                        forall|k: int|
                            0 <= k < j ==> self.view.blocks@[i as int].tx_ids@[k] != id,
                    decreases block.tx_ids@.len() - j,
                {
                    if block.tx_ids[j] == id {
                        assert(committed_up_to(self.view, id, upto));
                        return true;
                    }
                    j = j + 1;
                }
            }
            i = i + 1;
        }
        false
    }
}

/// Pulls transactions from a live source in order, stopping at the first
/// pull that resolves after the deadline.
fn collect_live(txs: &Vec<ArrivingTransaction>, deadline: u64) -> (r: Vec<Transaction>)
    ensures
        r@ == live_consumed(txs@, deadline),
{
    let mut out: Vec<Transaction> = Vec::new();
    let mut i: usize = 0;
    while i < txs.len() && txs[i].arrival <= deadline
        invariant
            i <= txs@.len(),
            out@.len() == i,
            forall|j: int| 0 <= j < i ==> txs@[j].arrival <= deadline,
            forall|j: int| 0 <= j < i ==> out@[j] == txs@[j].tx,
        decreases txs@.len() - i,
    {
        out.push(txs[i].tx);
        i = i + 1;
    }
    proof {
        lemma_first_late_index(txs@, deadline);
        let n0 = first_late_index(txs@, deadline);
        if (i as int) < n0 {
            assert(txs@[i as int].arrival <= deadline);
            assert(false);
        }
        if n0 < i as int {
            assert(txs@[n0].arrival > deadline);
            assert(false);
        }
        assert(out@ =~= live_consumed(txs@, deadline));
    }
    out
}

} // verus!
