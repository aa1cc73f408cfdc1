//! The read-only queries; they take snapshots and never mutate.

use vstd::prelude::*;

use crate::msg::{expanded_metadata, ConfigResponse, ContractStats, InfoResponse};
use crate::state::{Config, ContractState};

verus! {

/// Report the configuration: the current manager.
pub fn query_config(state: &ContractState) -> (r: ConfigResponse)
    ensures
        r.0.manager == state.manager,
{
    ConfigResponse(Config { manager: state.manager.clone() })
}

/// Report the denom, its expanded metadata, and the cumulative ledger
/// counters.
pub fn query_info(state: &ContractState) -> (r: InfoResponse)
    ensures
        r.denom == state.full_denom,
        expanded_metadata(r.metadata, state.denom_metadata, state.full_denom@),
        r.stats.amount_minted == state.amount_minted,
        r.stats.amount_burned == state.amount_burned,
{
    let denom = state.full_denom.clone();
    InfoResponse {
        metadata: state.denom_metadata.to_denom_metadata(&denom),
        stats: ContractStats {
            amount_burned: state.amount_burned,
            amount_minted: state.amount_minted,
        },
        denom,
    }
}

} // verus!
