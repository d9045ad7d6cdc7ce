//! Core block data model: digests, headers, transactions, and blocks in
//! compressed (identifier-only) and full (materialized) form.

use vstd::prelude::*;

verus! {

/// A 32-byte digest, as used for the previous-block root commitment.
#[derive(Clone, Copy, Debug, PartialEq, Eq)]
pub struct Digest {
    pub bytes: [u8; 32],
}

/// True when every byte of the digest is zero.  The zero digest marks the
/// absence of a predecessor block.
pub open spec fn digest_is_zero(d: Digest) -> bool {
    forall|i: int| 0 <= i < 32 ==> d.bytes[i] == 0
}

impl Digest {
    /// The all-zero digest.
    pub fn zeroed() -> (r: Digest)
        ensures
            digest_is_zero(r),
    {
        Digest { bytes: [0u8; 32] }
    }

    /// Decides whether every byte of the digest is zero.
    pub fn is_zero(&self) -> (r: bool)
        ensures
            r == digest_is_zero(*self),
    {
        let mut i: usize = 0;
        while i < 32
            invariant
                i <= 32,
                forall|j: int| 0 <= j < i ==> self.bytes[j] == 0,
            decreases 32 - i,
        {
            if self.bytes[i] != 0 {
                return false;
            }
            i = i + 1;
        }
        true
    }
}

/// TAI64 label of the network's epoch origin timestamp: the instant a
/// genesis header must carry as its time.
pub const TAI64_UNIX_EPOCH: u64 = 4611686018427387914;

/// A block header.  Heights grow monotonically from genesis with no gaps;
/// the data-availability height mirrors a foreign ledger's finalized height
/// and never decreases.
#[derive(Clone, Copy, Debug, PartialEq, Eq)]
pub struct BlockHeader {
    /// Height of the block on this chain.
    pub height: u32,
    /// Finalized height of the foreign data-availability ledger that this
    /// block references.
    pub da_height: u64,
    /// TAI64 timestamp of the block.
    pub time: u64,
    /// Root digest committing to the previous block.
    pub prev_root: Digest,
}

/// A transaction, reduced to the fields the production core reads: its
/// identifier, its gas allowance, and whether it spends synthetic coins
/// that only a debugging allowance makes spendable.
#[derive(Clone, Copy, Debug, PartialEq, Eq, Structural)]
pub struct Transaction {
    pub id: u64,
    pub gas: u64,
    pub uses_fake_coins: bool,
}

/// A block in compressed form: a header plus the identifiers of its
/// transactions.  Every identifier must resolve to a transaction persisted
/// in storage for the block to be materialized again.
#[derive(Clone, Debug, PartialEq, Eq)]
pub struct CompressedBlock {
    pub header: BlockHeader,
    pub tx_ids: Vec<u64>,
}

/// A block in full form: a header plus its materialized transactions, in
/// exactly the order the execution engine consumed them.
#[derive(Clone, Debug, PartialEq, Eq)]
pub struct Block {
    pub header: BlockHeader,
    pub transactions: Vec<Transaction>,
}

} // verus!
