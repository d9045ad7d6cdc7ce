//! Data-availability relayer port.
//!
//! A node with a relayer answers height waits and per-height event
//! aggregates from the relayer's synchronized state.  A node without one
//! still has to produce and accept blocks whose data-availability height is
//! definitionally zero, while rejecting any claim of nonzero cross-chain
//! activity it could not substantiate: that degeneracy is implemented here
//! as pure validation.

use vstd::prelude::*;

verus! {

/// An event observed on the data-availability ledger, carrying the gas
/// cost of relaying it.  Only transaction-kind events count toward the
/// transaction number of a block.
#[derive(Clone, Copy, Debug, PartialEq, Eq, Structural)]
pub enum RelayerEvent {
    /// A bridged message; contributes cost but no transaction.
    Message { cost: u64 },
    /// A forced transaction; contributes cost and one transaction.
    Transaction { cost: u64 },
}

/// Aggregate of the relayed events folded into one data-availability
/// height: total relaying gas cost and number of transaction-kind events.
#[derive(Clone, Copy, Debug, PartialEq, Eq, Structural)]
pub struct RelayerBlockInfo {
    pub gas_cost: u64,
    pub tx_count: u64,
}

/// The gas cost a single event contributes to the aggregate.
pub open spec fn event_cost(e: RelayerEvent) -> u64 {
    match e {
        RelayerEvent::Message { cost } => cost,
        RelayerEvent::Transaction { cost } => cost,
    }
}

/// Left-to-right saturating fold of the gas costs of a sequence of events.
pub open spec fn events_gas_cost(s: Seq<RelayerEvent>) -> u64
    decreases s.len(),
{
    if s.len() == 0 {
        0u64
    } else {
        events_gas_cost(s.drop_last()).saturating_add(event_cost(s.last()))
    }
}

/// Left-to-right saturating count of the transaction-kind events of a
/// sequence; message-kind events are excluded.
pub open spec fn events_tx_count(s: Seq<RelayerEvent>) -> u64
    decreases s.len(),
{
    if s.len() == 0 {
        0u64
    } else if s.last() is Transaction {
        events_tx_count(s.drop_last()).saturating_add(1)
    } else {
        events_tx_count(s.drop_last())
    }
}

/// Exact (unbounded) sum of the gas costs of a sequence of events.
pub open spec fn events_total_cost(s: Seq<RelayerEvent>) -> int
    decreases s.len(),
{
    if s.len() == 0 {
        0
    } else {
        events_total_cost(s.drop_last()) + event_cost(s.last())
    }
}

/// Exact (unbounded) count of the transaction-kind events of a sequence.
pub open spec fn transaction_event_count(s: Seq<RelayerEvent>) -> int
    decreases s.len(),
{
    if s.len() == 0 {
        0
    } else if s.last() is Transaction {
        transaction_event_count(s.drop_last()) + 1
    } else {
        transaction_event_count(s.drop_last())
    }
}

/// Law of event folding: for any event sequence, the aggregate gas cost is
/// the saturating sum of all event costs (the exact sum, clamped to the
/// integer maximum), and the aggregate transaction number is the count of
/// transaction-kind events alone, likewise clamped.
pub proof fn lemma_event_folding(s: Seq<RelayerEvent>)
    ensures
        events_gas_cost(s) == if events_total_cost(s) > u64::MAX {
            u64::MAX as int
        } else {
            events_total_cost(s)
        },
        events_tx_count(s) == if transaction_event_count(s) > u64::MAX {
            u64::MAX as int
        } else {
            transaction_event_count(s)
        },
    decreases s.len(),
{
    if s.len() == 0 {
    } else {
        lemma_event_folding(s.drop_last());
    }
}

/// The events the relayer observed at one data-availability height.
#[derive(Clone, Debug)]
pub struct DaEventBucket {
    pub da_height: u64,
    pub events: Vec<RelayerEvent>,
}

/// The events recorded for a data-availability height: the contents of the
/// first bucket at that height, or the empty sequence when none exists.
pub open spec fn events_at(buckets: Seq<DaEventBucket>, height: u64) -> Seq<RelayerEvent>
    decreases buckets.len(),
{
    if buckets.len() == 0 {
        Seq::empty()
    } else if buckets[0].da_height == height {
        buckets[0].events@
    } else {
        events_at(buckets.drop_first(), height)
    }
}

/// Synchronized state of a configured relayer: the finalized height of the
/// data-availability ledger it follows, and the events it has recorded,
/// bucketed by data-availability height.
#[derive(Clone, Debug)]
pub struct RelayerHandle {
    pub finalized_da_height: u64,
    pub buckets: Vec<DaEventBucket>,
}

/// Relayer port errors.
#[derive(Clone, Copy, Debug, PartialEq, Eq, Structural)]
pub enum RelayerError {
    /// A nonzero data-availability height was requested on a node with no
    /// relayer configured: a misconfiguration, not retryable.
    DaHeightAboveZeroWithoutRelayer,
}

/// Relayer port adapter.  The relayer is a capability selected at
/// construction time: either a synchronized handle is present, or the
/// adapter degrades to the deterministic zero-height behaviour.
#[derive(Clone, Debug)]
pub struct MaybeRelayerAdapter {
    /// The synchronized relayer, or absence when the node runs without one.
    pub relayer_synced: Option<RelayerHandle>,
}

impl MaybeRelayerAdapter {
    /// Waits until the relayer's synchronized data-availability height
    /// reaches at least `height` and returns the relayer's finalized height,
    /// which may exceed the request.  The handle held by the adapter models
    /// the relayer's state at the moment that wait resolves, so a present
    /// handle is required to have reached the requested height already.
    ///
    /// Without a relayer the call is pure validation: it returns the
    /// requested height unchanged exactly when that height is zero, and
    /// fails as a configuration error otherwise.
    pub fn wait_for_at_least_height(&self, height: u64) -> (r: Result<u64, RelayerError>)
        requires
            self.relayer_synced matches Some(h) ==> h.finalized_da_height >= height,
        ensures
            self.relayer_synced is None ==> (r is Ok <==> height == 0),
            self.relayer_synced is None && height == 0 ==> r == Ok::<u64, RelayerError>(0u64),
            self.relayer_synced is None && height != 0 ==> r == Err::<u64, RelayerError>(
                RelayerError::DaHeightAboveZeroWithoutRelayer,
            ),
            self.relayer_synced matches Some(h) ==> r == Ok::<u64, RelayerError>(
                h.finalized_da_height,
            ),
    {
        match &self.relayer_synced {
            Some(sync) => Ok(sync.finalized_da_height),
            None => {
                if height == 0 {
                    Ok(0)
                } else {
                    Err(RelayerError::DaHeightAboveZeroWithoutRelayer)
                }
            },
        }
    }

    /// Folds all relayer-observed events at `height` into an aggregate:
    /// gas cost accumulates saturating across every event kind, while the
    /// transaction number counts transaction-kind events only.
    ///
    /// Without a relayer, a zero height yields the zero-valued aggregate
    /// and any nonzero height fails as a configuration error.
    pub fn get_cost_and_transactions_number_for_block(&self, height: u64) -> (r: Result<
        RelayerBlockInfo,
        RelayerError,
    >)
        ensures
            self.relayer_synced is None ==> (r is Ok <==> height == 0),
            self.relayer_synced is None && height == 0 ==> r == Ok::<
                RelayerBlockInfo,
                RelayerError,
            >((RelayerBlockInfo { gas_cost: 0, tx_count: 0 })),
            self.relayer_synced is None && height != 0 ==> r == Err::<
                RelayerBlockInfo,
                RelayerError,
            >(RelayerError::DaHeightAboveZeroWithoutRelayer),
            self.relayer_synced matches Some(h) ==> r == Ok::<RelayerBlockInfo, RelayerError>(
                (RelayerBlockInfo {
                    gas_cost: events_gas_cost(events_at(h.buckets@, height)),
                    tx_count: events_tx_count(events_at(h.buckets@, height)),
                }),
            ),
    {
        match &self.relayer_synced {
            Some(sync) => {
                let events = find_events(&sync.buckets, height);
                Ok(fold_da_block_events(events))
            },
            None => {
                if height == 0 {
                    Ok(RelayerBlockInfo { gas_cost: 0, tx_count: 0 })
                } else {
                    Err(RelayerError::DaHeightAboveZeroWithoutRelayer)
                }
            },
        }
    }
}

/// Looks up the event bucket recorded at `height`; an absent bucket reads
/// as no events.
fn find_events(buckets: &Vec<DaEventBucket>, height: u64) -> (r: &[RelayerEvent])
    ensures
        r@ == events_at(buckets@, height),
{
    let mut i: usize = 0;
    assert(buckets@.skip(0) =~= buckets@);
    while i < buckets.len()
        invariant
            i <= buckets@.len(),
            events_at(buckets@.skip(i as int), height) == events_at(buckets@, height),
            forall|j: int| 0 <= j < i ==> buckets@[j].da_height != height,
        decreases buckets@.len() - i,
    {
        if buckets[i].da_height == height {
            assert(buckets@.skip(i as int)[0] == buckets@[i as int]);
            return buckets[i].events.as_slice();
        }
        assert(buckets@.skip(i as int).drop_first() =~= buckets@.skip(i + 1));
        assert(buckets@.skip(i as int)[0] == buckets@[i as int]);
        i = i + 1;
    }
    assert(buckets@.skip(i as int) =~= Seq::<DaEventBucket>::empty());
    &[]
}

/// Folds one height's events into the aggregate the relayer port reports:
/// saturating total gas cost, and the number of transaction-kind events.
pub fn fold_da_block_events(events: &[RelayerEvent]) -> (r: RelayerBlockInfo)
    ensures
        r.gas_cost == events_gas_cost(events@),
        r.tx_count == events_tx_count(events@),
{
    let mut gas_cost: u64 = 0;
    let mut tx_count: u64 = 0;
    let mut i: usize = 0;
    while i < events.len()
        invariant
            i <= events@.len(),
            gas_cost == events_gas_cost(events@.take(i as int)),
            tx_count == events_tx_count(events@.take(i as int)),
        decreases events@.len() - i,
    {
        let event = events[i];
        assert(events@.take(i + 1).drop_last() =~= events@.take(i as int));
        assert(events@.take(i + 1).last() == events@[i as int]);
        gas_cost = gas_cost.saturating_add(match event {
            RelayerEvent::Message { cost } => cost,
            RelayerEvent::Transaction { cost } => cost,
        });
        tx_count = match event {
            RelayerEvent::Message { .. } => tx_count,
            RelayerEvent::Transaction { .. } => tx_count.saturating_add(1),
        };
        i = i + 1;
    }
    assert(events@.take(i as int) =~= events@);
    RelayerBlockInfo { gas_cost, tx_count }
}

} // verus!
