use block_producer::block::{BlockHeader, Digest, Transaction, TAI64_UNIX_EPOCH};
use block_producer::executor::{ArrivingTransaction, ExecutorAdapter, TxStatus};
use block_producer::producer::{BlockProducerAdapter, BlockProducerService, TxPoolAdapter};
use block_producer::providers::{ChainStateInfoProvider, ConsensusParameters, StaticGasPrice};
use block_producer::storage::{OnChainIterableKeyValueView, StorageError};

fn zeroed() -> Digest {
    Digest { bytes: [0u8; 32] }
}

fn tx(id: u64, gas: u64) -> Transaction {
    Transaction { id, gas, uses_fake_coins: false }
}

fn arriving(arrival: u64, t: Transaction) -> ArrivingTransaction {
    ArrivingTransaction { arrival, tx: t }
}

fn service(pending: Vec<ArrivingTransaction>) -> BlockProducerService {
    BlockProducerService {
        executor: ExecutorAdapter { view: OnChainIterableKeyValueView::new() },
        txpool: TxPoolAdapter { pending },
        gas_price_provider: StaticGasPrice { gas_price: 10 },
    }
}

#[test]
fn get_source_translates_the_pool() {
    let pool = TxPoolAdapter { pending: vec![arriving(1, tx(1, 10)), arriving(2, tx(2, 20))] };
    let source = pool.get_source(42, 9);
    assert_eq!(source.gas_price, 42);
    assert_eq!(source.txs, pool.pending);
}

#[test]
fn produce_and_execute_block_under_deadline() {
    let svc = service(vec![
        arriving(1, tx(1, 100)),
        arriving(3, tx(2, 200)),
        arriving(8, tx(3, 300)),
    ]);
    let out = svc
        .produce_and_execute_block(12, 4, TAI64_UNIX_EPOCH, zeroed(), 5)
        .unwrap();
    assert_eq!(
        out.block.header,
        BlockHeader { height: 12, da_height: 4, time: TAI64_UNIX_EPOCH, prev_root: zeroed() }
    );
    assert_eq!(out.block.transactions, vec![tx(1, 100), tx(2, 200)]);
}

#[test]
fn produce_and_execute_block_with_empty_pool() {
    let svc = service(vec![]);
    let out = svc
        .produce_and_execute_block(1, 0, TAI64_UNIX_EPOCH, zeroed(), 5)
        .unwrap();
    assert!(out.block.transactions.is_empty());
}

#[test]
fn produce_and_execute_fixed_block_ignores_the_pool() {
    let svc = service(vec![arriving(1, tx(1, 10))]);
    let out = svc
        .produce_and_execute_fixed_block(2, 0, TAI64_UNIX_EPOCH, zeroed(), vec![tx(9, 90)])
        .unwrap();
    assert_eq!(out.block.transactions, vec![tx(9, 90)]);
}

#[test]
fn service_dry_run_reports_statuses() {
    let svc = service(vec![]);
    let out = svc
        .dry_run(vec![tx(1, 10)], None, None, false)
        .unwrap();
    assert_eq!(out.statuses, vec![TxStatus::Success]);
}

#[test]
fn gas_price_is_the_same_for_production_and_dry_run() {
    let provider = StaticGasPrice { gas_price: 7 };
    assert_eq!(provider.production_gas_price(), 7);
    assert_eq!(provider.dry_run_gas_price(), 7);
}

#[test]
fn consensus_params_at_version_found() {
    let provider = ChainStateInfoProvider {
        shared_state: vec![
            (1, ConsensusParameters { block_gas_limit: 1000, max_gas_per_tx: 100 }),
            (2, ConsensusParameters { block_gas_limit: 2000, max_gas_per_tx: 200 }),
        ],
    };
    assert_eq!(
        provider.consensus_params_at_version(2),
        Ok(ConsensusParameters { block_gas_limit: 2000, max_gas_per_tx: 200 })
    );
}

#[test]
fn consensus_params_at_unknown_version_fails() {
    let provider = ChainStateInfoProvider { shared_state: vec![] };
    assert_eq!(
        provider.consensus_params_at_version(3),
        Err(StorageError::NotFound)
    );
}

#[test]
fn block_producer_adapter_shares_the_service() {
    let adapter = BlockProducerAdapter::new(service(vec![arriving(0, tx(1, 10))]));
    let out = adapter
        .block_producer
        .produce_and_execute_block(3, 0, TAI64_UNIX_EPOCH, zeroed(), 5)
        .unwrap();
    assert_eq!(out.block.transactions, vec![tx(1, 10)]);
}
