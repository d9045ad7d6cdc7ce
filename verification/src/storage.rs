//! Read-only windowed view over committed chain storage.
//!
//! The view resolves compressed blocks, materializes full blocks by joining
//! in every referenced transaction, answers the latest committed height,
//! and scans the version indices for the newest consensus-parameters and
//! state-transition-bytecode versions.  Lookups are derived on demand and
//! never cached; the view itself performs no mutation, and the builder
//! methods exist so committed state can be assembled before a window is
//! read.

use vstd::prelude::*;
use crate::block::{Block, CompressedBlock, Digest, Transaction};

verus! {

/// Storage lookup errors.
#[derive(Clone, Copy, Debug, PartialEq, Eq, Structural)]
pub enum StorageError {
    /// The requested block, transaction or version index entry is absent.
    /// Absence may be legitimate (a query beyond the tip) and is propagated
    /// verbatim, never retried.
    NotFound,
}

/// The first block stored at `height`, if any.
pub open spec fn first_block_at(blocks: Seq<CompressedBlock>, height: u32) -> Option<
    CompressedBlock,
>
    decreases blocks.len(),
{
    if blocks.len() == 0 {
        None
    } else if blocks[0].header.height == height {
        Some(blocks[0])
    } else {
        first_block_at(blocks.drop_first(), height)
    }
}

/// The transaction stored under identifier `id`, if any.
pub open spec fn tx_at(txs: Seq<(u64, Transaction)>, id: u64) -> Option<Transaction>
    decreases txs.len(),
{
    if txs.len() == 0 {
        None
    } else if txs[0].0 == id {
        Some(txs[0].1)
    } else {
        tx_at(txs.drop_first(), id)
    }
}

/// The header-commitment root stored for `height`, if any.
pub open spec fn root_at(roots: Seq<(u32, Digest)>, height: u32) -> Option<Digest>
    decreases roots.len(),
{
    if roots.len() == 0 {
        None
    } else if roots[0].0 == height {
        Some(roots[0].1)
    } else {
        root_at(roots.drop_first(), height)
    }
}

/// True when every transaction identifier of `ids` resolves in `txs`.
pub open spec fn all_txs_resolve(txs: Seq<(u64, Transaction)>, ids: Seq<u64>) -> bool {
    forall|i: int| 0 <= i < ids.len() ==> tx_at(txs, ids[i]) is Some
}

/// The transactions that `ids` resolve to, in order.
pub open spec fn resolved_txs(txs: Seq<(u64, Transaction)>, ids: Seq<u64>) -> Seq<Transaction> {
    Seq::new(ids.len(), |i: int| tx_at(txs, ids[i]).unwrap())
}

/// Read-only view over committed chain storage: compressed blocks, the
/// transactions they reference, per-height header-commitment roots, and the
/// two version indices.
#[derive(Clone, Debug)]
pub struct OnChainIterableKeyValueView {
    /// Committed blocks, keyed by their header height.
    pub blocks: Vec<CompressedBlock>,
    /// Committed transactions, keyed by identifier.
    pub transactions: Vec<(u64, Transaction)>,
    /// Header-commitment root per committed height.
    pub header_roots: Vec<(u32, Digest)>,
    /// Index of the consensus-parameters versions ever committed.
    pub consensus_parameters_versions: Vec<u32>,
    /// Index of the state-transition-bytecode versions ever committed.
    pub state_transition_bytecode_versions: Vec<u32>,
}

impl OnChainIterableKeyValueView {
    /// Committed storage is a set of key-value tables: each block height,
    /// transaction identifier and version appears at most once.
    pub open spec fn wf(self) -> bool {
        &&& forall|i: int, j: int|
            0 <= i < j < self.blocks@.len() ==> self.blocks@[i].header.height
                != self.blocks@[j].header.height
        &&& forall|i: int, j: int|
            0 <= i < j < self.transactions@.len() ==> self.transactions@[i].0
                != self.transactions@[j].0
        &&& forall|i: int, j: int|
            0 <= i < j < self.header_roots@.len() ==> self.header_roots@[i].0
                != self.header_roots@[j].0
        &&& forall|i: int, j: int|
            0 <= i < j < self.consensus_parameters_versions@.len()
                ==> self.consensus_parameters_versions@[i]
                != self.consensus_parameters_versions@[j]
        &&& forall|i: int, j: int|
            0 <= i < j < self.state_transition_bytecode_versions@.len()
                ==> self.state_transition_bytecode_versions@[i]
                != self.state_transition_bytecode_versions@[j]
    }

    /// An empty window: no blocks committed yet.
    pub fn new() -> (r: Self)
        ensures
            r.wf(),
            r.blocks@.len() == 0,
            r.transactions@.len() == 0,
            r.header_roots@.len() == 0,
            r.consensus_parameters_versions@.len() == 0,
            r.state_transition_bytecode_versions@.len() == 0,
    {
        OnChainIterableKeyValueView {
            blocks: Vec::new(),
            transactions: Vec::new(),
            header_roots: Vec::new(),
            consensus_parameters_versions: Vec::new(),
            state_transition_bytecode_versions: Vec::new(),
        }
    }

    /// Commits a block and its header-commitment root.
    pub fn insert_block(&mut self, block: CompressedBlock, header_root: Digest)
        requires
            old(self).wf(),
            forall|i: int|
                0 <= i < old(self).blocks@.len() ==> old(self).blocks@[i].header.height
                    != block.header.height,
            forall|i: int|
                0 <= i < old(self).header_roots@.len() ==> old(self).header_roots@[i].0
                    != block.header.height,
        ensures
            final(self).wf(),
            final(self).blocks@ == old(self).blocks@.push(block),
            final(self).header_roots@ == old(self).header_roots@.push(
                (block.header.height, header_root),
            ),
            final(self).transactions@ == old(self).transactions@,
            final(self).consensus_parameters_versions@ == old(self).consensus_parameters_versions@,
            final(self).state_transition_bytecode_versions@ == old(
                self,
            ).state_transition_bytecode_versions@,
    {
        let height = block.header.height;
        self.blocks.push(block);
        self.header_roots.push((height, header_root));
    }

    /// Commits a transaction under its identifier.
    pub fn insert_transaction(&mut self, tx: Transaction)
        requires
            old(self).wf(),
            forall|i: int|
                0 <= i < old(self).transactions@.len() ==> old(self).transactions@[i].0 != tx.id,
        ensures
            final(self).wf(),
            final(self).transactions@ == old(self).transactions@.push((tx.id, tx)),
            final(self).blocks@ == old(self).blocks@,
            final(self).header_roots@ == old(self).header_roots@,
            final(self).consensus_parameters_versions@ == old(self).consensus_parameters_versions@,
            final(self).state_transition_bytecode_versions@ == old(
                self,
            ).state_transition_bytecode_versions@,
    {
        self.transactions.push((tx.id, tx));
    }

    /// Records a consensus-parameters version in its index.
    pub fn insert_consensus_parameters_version(&mut self, version: u32)
        requires
            old(self).wf(),
            forall|i: int|
                0 <= i < old(self).consensus_parameters_versions@.len() ==> old(
                    self,
                ).consensus_parameters_versions@[i] != version,
        ensures
            final(self).wf(),
            final(self).consensus_parameters_versions@ == old(
                self,
            ).consensus_parameters_versions@.push(version),
            final(self).blocks@ == old(self).blocks@,
            final(self).transactions@ == old(self).transactions@,
            final(self).header_roots@ == old(self).header_roots@,
            final(self).state_transition_bytecode_versions@ == old(
                self,
            ).state_transition_bytecode_versions@,
    {
        self.consensus_parameters_versions.push(version);
    }

    /// Records a state-transition-bytecode version in its index.
    pub fn insert_state_transition_bytecode_version(&mut self, version: u32)
        requires
            old(self).wf(),
            forall|i: int|
                0 <= i < old(self).state_transition_bytecode_versions@.len() ==> old(
                    self,
                ).state_transition_bytecode_versions@[i] != version,
        ensures
            final(self).wf(),
            final(self).state_transition_bytecode_versions@ == old(
                self,
            ).state_transition_bytecode_versions@.push(version),
            final(self).blocks@ == old(self).blocks@,
            final(self).transactions@ == old(self).transactions@,
            final(self).header_roots@ == old(self).header_roots@,
            final(self).consensus_parameters_versions@ == old(self).consensus_parameters_versions@,
    {
        self.state_transition_bytecode_versions.push(version);
    }

    /// The highest committed block height, or absence when the chain holds
    /// no blocks yet.  The maximum over every committed block is returned,
    /// not the most recently inserted height.
    pub fn latest_height(&self) -> (r: Option<u32>)
        ensures
            r is None <==> self.blocks@.len() == 0,
            r matches Some(m) ==> (exists|i: int|
                0 <= i < self.blocks@.len() && self.blocks@[i].header.height == m),
            r matches Some(m) ==> (forall|i: int|
                0 <= i < self.blocks@.len() ==> self.blocks@[i].header.height <= m),
    {
        if self.blocks.len() == 0 {
            return None;
        }
        let mut best: u32 = self.blocks[0].header.height;
        let mut i: usize = 1;
        while i < self.blocks.len()
            invariant
                1 <= i <= self.blocks@.len(),
                exists|j: int| 0 <= j < i && self.blocks@[j].header.height == best,
                forall|j: int| 0 <= j < i ==> self.blocks@[j].header.height <= best,
            decreases self.blocks@.len() - i,
        {
            if self.blocks[i].header.height > best {
                best = self.blocks[i].header.height;
            }
            i = i + 1;
        }
        Some(best)
    }

    /// The compressed block committed at `height`, or a not-found error
    /// when the height is absent.
    pub fn get_block(&self, height: u32) -> (r: Result<&CompressedBlock, StorageError>)
        ensures
            r is Ok <==> first_block_at(self.blocks@, height) is Some,
            r matches Ok(b) ==> (first_block_at(self.blocks@, height) matches Some(c) && b.header
                == c.header && b.tx_ids@ == c.tx_ids@),
            r is Err ==> r == Err::<&CompressedBlock, StorageError>(StorageError::NotFound),
    {
        let mut i: usize = 0;
        assert(self.blocks@.skip(0) =~= self.blocks@);
        while i < self.blocks.len()
            invariant
                i <= self.blocks@.len(),
                first_block_at(self.blocks@.skip(i as int), height) == first_block_at(
                    self.blocks@,
                    height,
                ),
            decreases self.blocks@.len() - i,
        {
            assert(self.blocks@.skip(i as int)[0] == self.blocks@[i as int]);
            if self.blocks[i].header.height == height {
                return Ok(&self.blocks[i]);
            }
            assert(self.blocks@.skip(i as int).drop_first() =~= self.blocks@.skip(i + 1));
            i = i + 1;
        }
        assert(self.blocks@.skip(i as int) =~= Seq::<CompressedBlock>::empty());
        Err(StorageError::NotFound)
    }

    /// The transaction committed under `id`, if any.
    pub fn get_transaction(&self, id: u64) -> (r: Option<Transaction>)
        ensures
            r == tx_at(self.transactions@, id),
    {
        let mut i: usize = 0;
        assert(self.transactions@.skip(0) =~= self.transactions@);
        while i < self.transactions.len()
            invariant
                i <= self.transactions@.len(),
                tx_at(self.transactions@.skip(i as int), id) == tx_at(self.transactions@, id),
            decreases self.transactions@.len() - i,
        {
            assert(self.transactions@.skip(i as int)[0] == self.transactions@[i as int]);
            if self.transactions[i].0 == id {
                return Some(self.transactions[i].1);
            }
            assert(self.transactions@.skip(i as int).drop_first() =~= self.transactions@.skip(
                i + 1,
            ));
            i = i + 1;
        }
        assert(self.transactions@.skip(i as int) =~= Seq::<(u64, Transaction)>::empty());
        None
    }

    /// Materializes the block committed at `height`: resolves the
    /// compressed block, then joins in every referenced transaction by
    /// identifier, in order.  Fails with not-found when the block is absent
    /// or any identifier cannot be resolved.
    pub fn get_full_block(&self, height: u32) -> (r: Result<Block, StorageError>)
        ensures
            r is Ok <==> (first_block_at(self.blocks@, height) matches Some(c) && all_txs_resolve(
                self.transactions@,
                c.tx_ids@,
            )),
            r matches Ok(b) ==> (first_block_at(self.blocks@, height) matches Some(c) && b.header
                == c.header && b.transactions@ == resolved_txs(self.transactions@, c.tx_ids@)),
            r is Err ==> r == Err::<Block, StorageError>(StorageError::NotFound),
    {
        let block = match self.get_block(height) {
            Ok(b) => b,
            Err(e) => {
                return Err(e);
            },
        };
        let ghost ids = block.tx_ids@;
        let mut transactions: Vec<Transaction> = Vec::new();
        let mut i: usize = 0;
        while i < block.tx_ids.len()
            invariant
                i <= ids.len(),
                block.tx_ids@ == ids,
                transactions@.len() == i,
                (first_block_at(self.blocks@, height) matches Some(c) && c.tx_ids@ == ids
                    && c.header == block.header),
                forall|j: int|
                    0 <= j < i ==> #[trigger] tx_at(self.transactions@, ids[j]) is Some
                        && transactions@[j] == tx_at(self.transactions@, ids[j]).unwrap(),
            decreases ids.len() - i,
        {
            let tx_id = block.tx_ids[i];
            match self.get_transaction(tx_id) {
                Some(tx) => transactions.push(tx),
                None => {
                    assert(!all_txs_resolve(self.transactions@, ids));
                    return Err(StorageError::NotFound);
                },
            }
            i = i + 1;
        }
        assert(transactions@ =~= resolved_txs(self.transactions@, ids));
        Ok(Block { header: block.header, transactions })
    }

    /// The header-commitment root stored for `height`, or a not-found
    /// error when the height is absent.
    pub fn block_header_merkle_root(&self, height: u32) -> (r: Result<Digest, StorageError>)
        ensures
            r is Ok <==> root_at(self.header_roots@, height) is Some,
            r matches Ok(d) ==> root_at(self.header_roots@, height) == Some(d),
            r is Err ==> r == Err::<Digest, StorageError>(StorageError::NotFound),
    {
        let mut i: usize = 0;
        assert(self.header_roots@.skip(0) =~= self.header_roots@);
        while i < self.header_roots.len()
            invariant
                i <= self.header_roots@.len(),
                root_at(self.header_roots@.skip(i as int), height) == root_at(
                    self.header_roots@,
                    height,
                ),
            decreases self.header_roots@.len() - i,
        {
            assert(self.header_roots@.skip(i as int)[0] == self.header_roots@[i as int]);
            if self.header_roots[i].0 == height {
                return Ok(self.header_roots[i].1);
            }
            assert(self.header_roots@.skip(i as int).drop_first() =~= self.header_roots@.skip(
                i + 1,
            ));
            i = i + 1;
        }
        assert(self.header_roots@.skip(i as int) =~= Seq::<(u32, Digest)>::empty());
        Err(StorageError::NotFound)
    }

    /// The maximum consensus-parameters version present in its index — the
    /// first entry of a descending scan — or a not-found error when the
    /// index is empty.
    pub fn latest_consensus_parameters_version(&self) -> (r: Result<u32, StorageError>)
        ensures
            r is Ok <==> self.consensus_parameters_versions@.len() > 0,
            r matches Ok(m) ==> (exists|i: int|
                0 <= i < self.consensus_parameters_versions@.len()
                    && self.consensus_parameters_versions@[i] == m),
            r matches Ok(m) ==> (forall|i: int|
                0 <= i < self.consensus_parameters_versions@.len()
                    ==> self.consensus_parameters_versions@[i] <= m),
            r is Err ==> r == Err::<u32, StorageError>(StorageError::NotFound),
    {
        max_version(&self.consensus_parameters_versions)
    }

    /// The maximum state-transition-bytecode version present in its index —
    /// the first entry of a descending scan — or a not-found error when the
    /// index is empty.
    pub fn latest_state_transition_bytecode_version(&self) -> (r: Result<u32, StorageError>)
        ensures
            r is Ok <==> self.state_transition_bytecode_versions@.len() > 0,
            r matches Ok(m) ==> (exists|i: int|
                0 <= i < self.state_transition_bytecode_versions@.len()
                    && self.state_transition_bytecode_versions@[i] == m),
            r matches Ok(m) ==> (forall|i: int|
                0 <= i < self.state_transition_bytecode_versions@.len()
                    ==> self.state_transition_bytecode_versions@[i] <= m),
            r is Err ==> r == Err::<u32, StorageError>(StorageError::NotFound),
    {
        max_version(&self.state_transition_bytecode_versions)
    }
}

/// The maximum entry of a version index, or a not-found error on an empty
/// index.
fn max_version(versions: &Vec<u32>) -> (r: Result<u32, StorageError>)
    ensures
        r is Ok <==> versions@.len() > 0,
        r matches Ok(m) ==> (exists|i: int| 0 <= i < versions@.len() && versions@[i] == m),
        r matches Ok(m) ==> (forall|i: int| 0 <= i < versions@.len() ==> versions@[i] <= m),
        r is Err ==> r == Err::<u32, StorageError>(StorageError::NotFound),
{
    if versions.len() == 0 {
        return Err(StorageError::NotFound);
    }
    let mut best: u32 = versions[0];
    let mut i: usize = 1;
    while i < versions.len()
        invariant
            1 <= i <= versions@.len(),
            exists|j: int| 0 <= j < i && versions@[j] == best,
            forall|j: int| 0 <= j < i ==> versions@[j] <= best,
        decreases versions@.len() - i,
    {
        if versions[i] > best {
            best = versions[i];
        }
        i = i + 1;
    }
    Ok(best)
}

} // verus!
