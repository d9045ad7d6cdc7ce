use block_producer::relayer::{
    fold_da_block_events, DaEventBucket, MaybeRelayerAdapter, RelayerBlockInfo, RelayerError,
    RelayerEvent, RelayerHandle,
};

fn absent() -> MaybeRelayerAdapter {
    MaybeRelayerAdapter { relayer_synced: None }
}

fn active(finalized_da_height: u64, buckets: Vec<DaEventBucket>) -> MaybeRelayerAdapter {
    MaybeRelayerAdapter {
        relayer_synced: Some(RelayerHandle { finalized_da_height, buckets }),
    }
}

#[test]
fn no_relayer_wait_for_height_zero() {
    assert_eq!(absent().wait_for_at_least_height(0), Ok(0));
}

#[test]
fn no_relayer_wait_for_nonzero_height_fails() {
    assert_eq!(
        absent().wait_for_at_least_height(1),
        Err(RelayerError::DaHeightAboveZeroWithoutRelayer)
    );
}

#[test]
fn no_relayer_cost_at_height_zero() {
    assert_eq!(
        absent().get_cost_and_transactions_number_for_block(0),
        Ok(RelayerBlockInfo { gas_cost: 0, tx_count: 0 })
    );
}

#[test]
fn no_relayer_cost_at_nonzero_height_fails() {
    assert_eq!(
        absent().get_cost_and_transactions_number_for_block(7),
        Err(RelayerError::DaHeightAboveZeroWithoutRelayer)
    );
}

#[test]
fn active_relayer_wait_returns_finalized_height() {
    let relayer = active(42, vec![]);
    assert_eq!(relayer.wait_for_at_least_height(10), Ok(42));
}

#[test]
fn event_folding_counts_only_transaction_events() {
    let events = vec![
        RelayerEvent::Message { cost: 5 },
        RelayerEvent::Transaction { cost: 7 },
        RelayerEvent::Message { cost: 1 },
        RelayerEvent::Transaction { cost: 2 },
    ];
    let info = fold_da_block_events(&events);
    assert_eq!(info, RelayerBlockInfo { gas_cost: 15, tx_count: 2 });
}

#[test]
fn event_folding_saturates_gas_cost() {
    let events = vec![
        RelayerEvent::Transaction { cost: u64::MAX },
        RelayerEvent::Message { cost: 10 },
    ];
    let info = fold_da_block_events(&events);
    assert_eq!(info, RelayerBlockInfo { gas_cost: u64::MAX, tx_count: 1 });
}

#[test]
fn active_relayer_folds_bucket_at_height() {
    let relayer = active(
        9,
        vec![
            DaEventBucket {
                da_height: 3,
                events: vec![
                    RelayerEvent::Transaction { cost: 4 },
                    RelayerEvent::Message { cost: 6 },
                ],
            },
            DaEventBucket { da_height: 5, events: vec![RelayerEvent::Message { cost: 1 }] },
        ],
    );
    assert_eq!(
        relayer.get_cost_and_transactions_number_for_block(3),
        Ok(RelayerBlockInfo { gas_cost: 10, tx_count: 1 })
    );
    assert_eq!(
        relayer.get_cost_and_transactions_number_for_block(5),
        Ok(RelayerBlockInfo { gas_cost: 1, tx_count: 0 })
    );
}

#[test]
fn active_relayer_missing_bucket_reads_as_no_events() {
    let relayer = active(9, vec![]);
    assert_eq!(
        relayer.get_cost_and_transactions_number_for_block(4),
        Ok(RelayerBlockInfo { gas_cost: 0, tx_count: 0 })
    );
}
