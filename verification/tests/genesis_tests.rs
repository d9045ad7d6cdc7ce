use block_producer::block::{BlockHeader, Digest, TAI64_UNIX_EPOCH};
use block_producer::genesis::{verify_genesis_block_fields, GenesisHeaderError};

fn zeroed() -> Digest {
    Digest { bytes: [0u8; 32] }
}

fn base_header() -> BlockHeader {
    BlockHeader { height: 0, da_height: 0, time: TAI64_UNIX_EPOCH, prev_root: zeroed() }
}

#[test]
fn correct_header_at_zero() {
    let h = base_header();
    assert!(verify_genesis_block_fields(0, 0, &h).is_ok());
}

#[test]
fn correct_header_at_113() {
    let mut h = base_header();
    h.height = 113;
    assert!(verify_genesis_block_fields(113, 0, &h).is_ok());
}

#[test]
fn correct_header_at_1234_da_height() {
    let mut h = base_header();
    h.da_height = 1234;
    assert!(verify_genesis_block_fields(0, 1234, &h).is_ok());
}

#[test]
fn correct_header_at_113_height_and_1234_da_height() {
    let mut h = base_header();
    h.height = 113;
    h.da_height = 1234;
    assert!(verify_genesis_block_fields(113, 1234, &h).is_ok());
}

#[test]
fn wrong_expected_height() {
    let h = base_header();
    assert_eq!(
        verify_genesis_block_fields(10, 0, &h),
        Err(GenesisHeaderError::HeightMismatch)
    );
}

#[test]
fn wrong_header_height() {
    let mut h = base_header();
    h.height = 5;
    assert_eq!(
        verify_genesis_block_fields(0, 0, &h),
        Err(GenesisHeaderError::HeightMismatch)
    );
}

#[test]
fn wrong_header_da_height() {
    let mut h = base_header();
    h.da_height = 1234;
    assert_eq!(
        verify_genesis_block_fields(0, 0, &h),
        Err(GenesisHeaderError::DaHeightMismatch)
    );
}

#[test]
fn wrong_time() {
    let mut h = base_header();
    h.time = 0;
    assert_eq!(
        verify_genesis_block_fields(0, 0, &h),
        Err(GenesisHeaderError::TimeMismatch)
    );
}

#[test]
fn wrong_root() {
    let mut h = base_header();
    h.prev_root = Digest { bytes: [1u8; 32] };
    assert_eq!(
        verify_genesis_block_fields(0, 0, &h),
        Err(GenesisHeaderError::PreviousRootMismatch)
    );
}

#[test]
fn root_is_checked_before_time() {
    let mut h = base_header();
    h.prev_root = Digest { bytes: [1u8; 32] };
    h.time = 0;
    assert_eq!(
        verify_genesis_block_fields(0, 0, &h),
        Err(GenesisHeaderError::PreviousRootMismatch)
    );
}
