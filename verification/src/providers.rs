//! Gas-price and chain-state providers.
//!
//! The gas-price provider is a stateless placeholder policy returning one
//! configured scalar for both production and dry-run contexts.  The
//! chain-state provider resolves a consensus-parameters version to the
//! immutable parameter set in effect when blocks of that version were
//! produced, from a registry owned once at process scope and read here.

use vstd::prelude::*;
use crate::storage::StorageError;

verus! {

/// An immutable consensus parameter set, reduced to the scalars the
/// production core reads.
#[derive(Clone, Copy, Debug, PartialEq, Eq, Structural)]
pub struct ConsensusParameters {
    /// Gas budget of one block.
    pub block_gas_limit: u64,
    /// Gas allowance of one transaction.
    pub max_gas_per_tx: u64,
}

/// Gas price provider returning one configured scalar, for production and
/// dry-run alike; stateless, with no failure modes.
#[derive(Clone, Copy, Debug, PartialEq, Eq, Structural)]
pub struct StaticGasPrice {
    pub gas_price: u64,
}

impl StaticGasPrice {
    /// The gas price for committing production.
    pub fn production_gas_price(&self) -> (r: u64)
        ensures
            r == self.gas_price,
    {
        self.gas_price
    }

    /// The gas price for dry-run execution.
    pub fn dry_run_gas_price(&self) -> (r: u64)
        ensures
            r == self.gas_price,
    {
        self.gas_price
    }
}

/// The parameter set registered under `version`, if any.
pub open spec fn params_at(state: Seq<(u32, ConsensusParameters)>, version: u32) -> Option<
    ConsensusParameters,
>
    decreases state.len(),
{
    if state.len() == 0 {
        None
    } else if state[0].0 == version {
        Some(state[0].1)
    } else {
        params_at(state.drop_first(), version)
    }
}

/// Resolves a consensus-parameters version to the parameter set in effect
/// when that version was current, so execution can interpret old blocks
/// under their own rules.
#[derive(Clone, Debug)]
pub struct ChainStateInfoProvider {
    /// Version-keyed registry of immutable parameter sets; owned once at
    /// process scope, read here by version.
    pub shared_state: Vec<(u32, ConsensusParameters)>,
}

impl ChainStateInfoProvider {
    /// The parameter set of `version`, or a not-found error when the
    /// version is unknown to the registry.
    pub fn consensus_params_at_version(&self, version: u32) -> (r: Result<
        ConsensusParameters,
        StorageError,
    >)
        ensures
            r is Ok <==> params_at(self.shared_state@, version) is Some,
            r matches Ok(p) ==> params_at(self.shared_state@, version) == Some(p),
            r is Err ==> r == Err::<ConsensusParameters, StorageError>(StorageError::NotFound),
    {
        let mut i: usize = 0;
        assert(self.shared_state@.skip(0) =~= self.shared_state@);
        while i < self.shared_state.len()
            invariant
                i <= self.shared_state@.len(),
                params_at(self.shared_state@.skip(i as int), version) == params_at(
                    self.shared_state@,
                    version,
                ),
            decreases self.shared_state@.len() - i,
        {
            assert(self.shared_state@.skip(i as int)[0] == self.shared_state@[i as int]);
            if self.shared_state[i].0 == version {
                return Ok(self.shared_state[i].1);
            }
            assert(self.shared_state@.skip(i as int).drop_first() =~= self.shared_state@.skip(
                i + 1,
            ));
            i = i + 1;
        }
        assert(self.shared_state@.skip(i as int) =~= Seq::<(u32, ConsensusParameters)>::empty());
        Err(StorageError::NotFound)
    }
}

} // verus!
