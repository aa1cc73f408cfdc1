//! The entry, query and response shapes of the contract.

use vstd::prelude::*;

use crate::state::Config;
use crate::tokenfactory::{DenomUnit, Metadata, TokenFactoryType};

verus! {

/// What initialization is given: an optional manager (the instantiating
/// sender otherwise), an optional explicit dialect (inferred from the
/// network identifier otherwise), optional initial payouts, and the
/// denom's metadata.
#[derive(Debug, Clone, PartialEq, Eq)]
pub struct InstantiateMsg {
    pub manager: Option<String>,
    pub factory: Option<TokenFactoryType>,
    pub initial_balances: Option<Vec<MintParams>>,
    pub metadata: NewDenomMetadata,
}

/// The user-facing metadata of a new denom, from which the wire-level
/// [`Metadata`] is synthesized.
#[derive(Debug, Clone, PartialEq, Eq)]
pub struct NewDenomMetadata {
    pub symbol: String,
    pub decimals: u32,
    pub name: String,
    pub description: Option<String>,
    pub uri: Option<String>,
}

/// `md` is exactly the wire-level expansion of `nm` against the denom
/// `full_denom`: display mirrors the symbol, absent description/uri are
/// empty, and the two unit descriptors are the full denom at exponent 0
/// followed by the symbol at the displayed number of decimals.
pub open spec fn expanded_metadata(
    md: Metadata,
    nm: NewDenomMetadata,
    full_denom: Seq<char>,
) -> bool {
    &&& md.symbol == nm.symbol
    &&& md.display == nm.symbol
    &&& md.name == nm.name
    &&& md.base@ == full_denom
    &&& md.description@ == if nm.description is Some {
        nm.description->0@
    } else {
        Seq::<char>::empty()
    }
    &&& md.uri@ == if nm.uri is Some {
        nm.uri->0@
    } else {
        Seq::<char>::empty()
    }
    &&& md.denom_units@.len() == 2
    &&& md.denom_units@[0].denom@ == full_denom
    &&& md.denom_units@[0].exponent == 0
    &&& md.denom_units@[0].aliases@.len() == 0
    &&& md.denom_units@[1].denom == nm.symbol
    &&& md.denom_units@[1].exponent == nm.decimals
    &&& md.denom_units@[1].aliases@.len() == 0
}

impl NewDenomMetadata {
    /// Expand into the wire-level metadata record: display mirrors the
    /// symbol, absent description/uri become empty, and exactly two unit
    /// descriptors are synthesized — the full denom at exponent 0, then
    /// the symbol at the displayed number of decimals.
    pub fn to_denom_metadata(&self, full_denom: &String) -> (m: Metadata)
        ensures
            expanded_metadata(m, *self, full_denom@),
            m.base == *full_denom,
    {
        let description = match &self.description {
            Some(d) => d.clone(),
            None => String::new(),
        };
        let uri = match &self.uri {
            Some(u) => u.clone(),
            None => String::new(),
        };
        Metadata {
            symbol: self.symbol.clone(),
            display: self.symbol.clone(),
            name: self.name.clone(),
            base: full_denom.clone(),
            description,
            uri,
            denom_units: vec![
                DenomUnit { aliases: Vec::new(), denom: full_denom.clone(), exponent: 0 },
                DenomUnit { aliases: Vec::new(), denom: self.symbol.clone(), exponent: self.decimals },
            ],
        }
    }
}

/// One payout instruction: who receives, and how much.
#[derive(Debug, Clone, PartialEq, Eq)]
pub struct MintParams {
    pub address: String,
    pub amount: u128,
}

/// The privileged entry operations; every one of them requires the
/// caller to be the manager.
#[derive(Debug, Clone, PartialEq, Eq)]
pub enum ExecuteMsg {
    Mint { recipient: String, amount: u128 },
    Burn { amount: u128 },
    SetManager { address: String },
    SetDenomMetadata { metadata: NewDenomMetadata },
    SetDenomAdmin { address: String },
    RemoveDenomAdmin {},
}

/// The read-only queries.
#[derive(Debug, Clone, PartialEq, Eq)]
pub enum QueryMsg {
    Config {},
    Info {},
}

/// The migration entry carries nothing; migration only re-stamps a
/// version marker.
#[derive(Debug, Clone, PartialEq, Eq)]
pub struct MigrateMsg {}

/// Answer to the config query.
#[derive(Debug, Clone, PartialEq, Eq)]
pub struct ConfigResponse(pub Config);

/// Cumulative ledger counters as reported by the info query.
#[derive(Debug, Clone, PartialEq, Eq)]
pub struct ContractStats {
    pub amount_burned: u128,
    pub amount_minted: u128,
}

/// Answer to the info query.
#[derive(Debug, Clone, PartialEq, Eq)]
pub struct InfoResponse {
    pub denom: String,
    pub metadata: Metadata,
    pub stats: ContractStats,
}

} // verus!
