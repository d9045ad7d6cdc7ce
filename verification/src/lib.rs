//! Block-production and block-validity core of a blockchain node.
//!
//! A generic producer core assembles a candidate block from a transaction
//! source under a time budget, executes it against committed chain state
//! without committing, and hands the resulting block together with its
//! uncommitted storage delta back to the caller.  Around the core stand
//! small adapters: a read-only view over committed storage, a
//! data-availability relayer port (with a deterministic degeneracy when no
//! relayer is configured), a gas-price provider, a chain-state registry,
//! and a pure verifier for genesis block headers.

pub mod block;
pub mod executor;
pub mod genesis;
pub mod producer;
pub mod providers;
pub mod relayer;
pub mod storage;
