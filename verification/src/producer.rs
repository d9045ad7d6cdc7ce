//! Producer core: orchestrates the transaction-pool adapter, the gas-price
//! provider and the executor adapter to assemble and execute a candidate
//! block under a deadline, or to run a block speculatively.
//!
//! The core only reads committed storage and returns independently owned
//! uncommitted changes; commit timing, retry policy and deduplication of
//! concurrent production calls belong to the caller.

use vstd::prelude::*;
use crate::block::{BlockHeader, Digest, Transaction};
use crate::executor::{
    all_production_valid,
    changes_of,
    effective_forbid,
    is_dry_run_outcome,
    live_consumed,
    ArrivingTransaction,
    Components,
    DryRunResult,
    ExecutorAdapter,
    ExecutorError,
    SourceKind,
    TransactionsSource,
    UncommittedResult,
};
use crate::providers::StaticGasPrice;

verus! {

/// Transaction-pool port adapter: a thin, side-effect-free translation
/// from the pool's pending transactions to a source one block build can
/// consume.  It never blocks; the pool itself decides inclusion order and
/// eligibility.
#[derive(Clone, Debug)]
pub struct TxPoolAdapter {
    /// Transactions the pool will yield for the next production attempt,
    /// in pull order, each with the instant its pull resolves.
    pub pending: Vec<ArrivingTransaction>,
}

impl TxPoolAdapter {
    /// Yields a transaction source for a block build at `height`, selected
    /// under `gas_price`.
    pub fn get_source(&self, gas_price: u64, _height: u32) -> (r: TransactionsSource)
        ensures
            r.gas_price == gas_price,
            r.txs@ == self.pending@,
    {
        let mut txs: Vec<ArrivingTransaction> = Vec::new();
        let mut i: usize = 0;
        while i < self.pending.len()
            invariant
                i <= self.pending@.len(),
                txs@.len() == i,
                forall|j: int| 0 <= j < i ==> txs@[j] == self.pending@[j],
            decreases self.pending@.len() - i,
        {
            txs.push(self.pending[i]);
            i = i + 1;
        }
        assert(txs@ =~= self.pending@);
        TransactionsSource { gas_price, txs }
    }
}

/// The block-production service: the producer core together with the
/// adapters it orchestrates.
#[derive(Clone, Debug)]
pub struct BlockProducerService {
    pub executor: ExecutorAdapter,
    pub txpool: TxPoolAdapter,
    pub gas_price_provider: StaticGasPrice,
}

impl BlockProducerService {
    /// Live-source production: obtains a source from the pool at the
    /// production gas price, then executes without committing, pulling
    /// transactions until the first pull that resolves after `deadline`.
    /// Succeeds exactly when no consumed transaction spends synthetic
    /// coins; the produced block carries the requested header fields and
    /// the consumed transactions in pull order, and the changes are owned
    /// by the caller, never partially applied.
    pub fn produce_and_execute_block(
        &self,
        height: u32,
        da_height: u64,
        time: u64,
        prev_root: Digest,
        deadline: u64,
    ) -> (r: Result<UncommittedResult, ExecutorError>)
        ensures
            r is Ok <==> all_production_valid(live_consumed(self.txpool.pending@, deadline)),
            r matches Ok(u) ==> u.block.header == (BlockHeader {
                height,
                da_height,
                time,
                prev_root,
            }),
            r matches Ok(u) ==> u.block.transactions@ == live_consumed(
                self.txpool.pending@,
                deadline,
            ) && u.changes.writes@ == changes_of(live_consumed(self.txpool.pending@, deadline)),
            r is Err ==> r == Err::<UncommittedResult, ExecutorError>(
                ExecutorError::InvalidTransaction,
            ),
    {
        let gas_price = self.gas_price_provider.production_gas_price();
        let source = self.txpool.get_source(gas_price, height);
        let component = Components {
            height,
            da_height,
            time,
            prev_root,
            gas_price,
            source: SourceKind::Live { source, deadline },
        };
        self.executor.produce_without_commit(component)
    }

    /// Fixed-list production: executes a pre-determined ordered list with
    /// no time bound, without committing.
    pub fn produce_and_execute_fixed_block(
        &self,
        height: u32,
        da_height: u64,
        time: u64,
        prev_root: Digest,
        transactions: Vec<Transaction>,
    ) -> (r: Result<UncommittedResult, ExecutorError>)
        ensures
            r is Ok <==> all_production_valid(transactions@),
            r matches Ok(u) ==> u.block.header == (BlockHeader {
                height,
                da_height,
                time,
                prev_root,
            }),
            r matches Ok(u) ==> u.block.transactions@ == transactions@ && u.changes.writes@
                == changes_of(transactions@),
            r is Err ==> r == Err::<UncommittedResult, ExecutorError>(
                ExecutorError::InvalidTransaction,
            ),
    {
        let gas_price = self.gas_price_provider.production_gas_price();
        let component = Components {
            height,
            da_height,
            time,
            prev_root,
            gas_price,
            source: SourceKind::FixedList { txs: transactions },
        };
        self.executor.produce_without_commit(component)
    }

    /// Dry-run execution of an ordered transaction list at the dry-run gas
    /// price: speculative, side-effect-free, and deterministic for a given
    /// committed view and inputs.
    pub fn dry_run(
        &self,
        transactions: Vec<Transaction>,
        forbid_fake_coins: Option<bool>,
        at_height: Option<u32>,
        record_storage_read_replay: bool,
    ) -> (r: Result<DryRunResult, ExecutorError>)
        ensures
            r matches Ok(d) && is_dry_run_outcome(
                self.executor.view,
                transactions@,
                effective_forbid(forbid_fake_coins),
                at_height,
                record_storage_read_replay,
                d,
            ),
    {
        let gas_price = self.gas_price_provider.dry_run_gas_price();
        let component = Components {
            height: 0,
            da_height: 0,
            time: 0,
            prev_root: Digest::zeroed(),
            gas_price,
            source: SourceKind::FixedList { txs: transactions },
        };
        self.executor.dry_run(
            component,
            forbid_fake_coins,
            at_height,
            record_storage_read_replay,
        )
    }
}

/// Handle through which the rest of the node drives block production; the
/// service is shared behind a reference-counted pointer.
#[derive(Clone, Debug)]
pub struct BlockProducerAdapter {
    pub block_producer: std::sync::Arc<BlockProducerService>,
}

impl BlockProducerAdapter {
    /// Wraps a block-production service in a shared handle.
    pub fn new(block_producer: BlockProducerService) -> (r: Self)
        ensures
            r.block_producer == block_producer,
    {
        BlockProducerAdapter { block_producer: std::sync::Arc::new(block_producer) }
    }
}

} // verus!
