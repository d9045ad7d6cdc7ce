use block_producer::block::{BlockHeader, CompressedBlock, Digest, Transaction, TAI64_UNIX_EPOCH};
use block_producer::storage::{OnChainIterableKeyValueView, StorageError};

fn zeroed() -> Digest {
    Digest { bytes: [0u8; 32] }
}

fn header(height: u32) -> BlockHeader {
    BlockHeader { height, da_height: 0, time: TAI64_UNIX_EPOCH, prev_root: zeroed() }
}

fn compressed(height: u32, tx_ids: Vec<u64>) -> CompressedBlock {
    CompressedBlock { header: header(height), tx_ids }
}

fn tx(id: u64, gas: u64) -> Transaction {
    Transaction { id, gas, uses_fake_coins: false }
}

#[test]
fn latest_height_on_empty_chain() {
    let view = OnChainIterableKeyValueView::new();
    assert_eq!(view.latest_height(), None);
}

#[test]
fn latest_height_is_maximum_not_last_inserted() {
    let mut view = OnChainIterableKeyValueView::new();
    view.insert_block(compressed(5, vec![]), zeroed());
    view.insert_block(compressed(9, vec![]), zeroed());
    view.insert_block(compressed(3, vec![]), zeroed());
    assert_eq!(view.latest_height(), Some(9));
}

#[test]
fn get_block_found() {
    let mut view = OnChainIterableKeyValueView::new();
    view.insert_block(compressed(2, vec![10, 11]), zeroed());
    let block = view.get_block(2).unwrap();
    assert_eq!(block.header.height, 2);
    assert_eq!(block.tx_ids, vec![10, 11]);
}

#[test]
fn get_block_not_found() {
    let view = OnChainIterableKeyValueView::new();
    assert_eq!(view.get_block(1).unwrap_err(), StorageError::NotFound);
}

#[test]
fn get_full_block_resolves_every_transaction() {
    let mut view = OnChainIterableKeyValueView::new();
    view.insert_transaction(tx(10, 100));
    view.insert_transaction(tx(11, 200));
    view.insert_block(compressed(4, vec![11, 10]), zeroed());
    let block = view.get_full_block(4).unwrap();
    assert_eq!(block.header.height, 4);
    assert_eq!(block.transactions, vec![tx(11, 200), tx(10, 100)]);
}

#[test]
fn get_full_block_fails_on_unresolved_transaction() {
    let mut view = OnChainIterableKeyValueView::new();
    view.insert_transaction(tx(10, 100));
    view.insert_block(compressed(4, vec![10, 77]), zeroed());
    assert_eq!(view.get_full_block(4).unwrap_err(), StorageError::NotFound);
}

#[test]
fn get_full_block_fails_on_missing_block() {
    let view = OnChainIterableKeyValueView::new();
    assert_eq!(view.get_full_block(0).unwrap_err(), StorageError::NotFound);
}

#[test]
fn block_header_merkle_root_found() {
    let mut view = OnChainIterableKeyValueView::new();
    let root = Digest { bytes: [7u8; 32] };
    view.insert_block(compressed(1, vec![]), root);
    assert_eq!(view.block_header_merkle_root(1).unwrap(), root);
}

#[test]
fn block_header_merkle_root_not_found() {
    let view = OnChainIterableKeyValueView::new();
    assert_eq!(
        view.block_header_merkle_root(1).unwrap_err(),
        StorageError::NotFound
    );
}

#[test]
fn latest_consensus_parameters_version_is_maximum() {
    let mut view = OnChainIterableKeyValueView::new();
    view.insert_consensus_parameters_version(2);
    view.insert_consensus_parameters_version(7);
    view.insert_consensus_parameters_version(5);
    assert_eq!(view.latest_consensus_parameters_version().unwrap(), 7);
}

#[test]
fn latest_consensus_parameters_version_empty_index() {
    let view = OnChainIterableKeyValueView::new();
    assert_eq!(
        view.latest_consensus_parameters_version().unwrap_err(),
        StorageError::NotFound
    );
}

#[test]
fn latest_state_transition_bytecode_version_is_maximum() {
    let mut view = OnChainIterableKeyValueView::new();
    view.insert_state_transition_bytecode_version(1);
    view.insert_state_transition_bytecode_version(6);
    view.insert_state_transition_bytecode_version(4);
    assert_eq!(view.latest_state_transition_bytecode_version().unwrap(), 6);
}

#[test]
fn latest_state_transition_bytecode_version_empty_index() {
    let view = OnChainIterableKeyValueView::new();
    assert_eq!(
        view.latest_state_transition_bytecode_version().unwrap_err(),
        StorageError::NotFound
    );
}
