//! The five-dialect builder for denom-factory wire messages.
//!
//! Each supported chain speaks its own schema for the same logical
//! operations. The builders here are pure: they map an operation and a
//! variant tag to the exact field set that variant's schema carries,
//! and nothing else.

use vstd::prelude::*;

verus! {

/// The chain dialects whose token-factory modules this contract can drive.
#[derive(Clone, Copy, Debug, PartialEq, Eq, Structural)]
pub enum TokenFactoryType {
    CosmWasm,
    Kujira,
    Injective,
    Osmosis,
    Juno,
}

/// A denomination/amount pair as the factory messages carry it.
#[derive(Debug, Clone, PartialEq, Eq)]
pub struct Coin {
    pub denom: String,
    pub amount: u128,
}

/// One unit descriptor of a denom's metadata.
#[derive(Debug, Clone, PartialEq, Eq)]
pub struct DenomUnit {
    pub denom: String,
    pub exponent: u32,
    pub aliases: Vec<String>,
}

/// Bank-style metadata of the managed denom, as sent on the wire.
#[derive(Debug, Clone, PartialEq, Eq)]
pub struct Metadata {
    pub description: String,
    pub denom_units: Vec<DenomUnit>,
    pub base: String,
    pub display: String,
    pub name: String,
    pub symbol: String,
    pub uri: String,
}

/// An outbound token-factory instruction.
///
/// The optional fields exist because some dialects repeat the acting
/// address under a second name; a builder sets each of them exactly
/// when its variant's schema has the field.
#[derive(Debug, Clone, PartialEq, Eq)]
pub enum TokenFactoryMsg {
    CreateDenom {
        sender: String,
        subdenom: String,
    },
    Mint {
        sender: String,
        amount: Coin,
        /// Only the Kujira schema carries this; it repeats the sender.
        recipient: Option<String>,
        /// Only the Injective schema carries this; it repeats the sender.
        mint_to_address: Option<String>,
    },
    Burn {
        sender: String,
        amount: Coin,
        /// Only the Osmosis schema carries this; it repeats the sender.
        burn_from_address: Option<String>,
    },
    ChangeAdmin {
        sender: String,
        denom: String,
        new_admin: String,
    },
    SetDenomMetadata {
        sender: String,
        metadata: Metadata,
    },
}

pub open spec fn is_coin(c: Coin, denom: Seq<char>, amount: u128) -> bool {
    &&& c.denom@ == denom
    &&& c.amount == amount
}

/// The exact shape of a create-denom message: {sender, subdenom} for
/// every variant.
pub open spec fn is_create_denom_msg(
    m: TokenFactoryMsg,
    sender: Seq<char>,
    subdenom: Seq<char>,
) -> bool {
    &&& m matches TokenFactoryMsg::CreateDenom { sender: s, subdenom: sub }
    &&& s@ == sender
    &&& sub@ == subdenom
}

/// The exact shape of a mint message for variant `v`: {sender, amount}
/// everywhere; Kujira additionally repeats the sender as `recipient`,
/// Injective repeats it as `mint_to_address`.
pub open spec fn is_mint_msg(
    m: TokenFactoryMsg,
    v: TokenFactoryType,
    sender: Seq<char>,
    denom: Seq<char>,
    amount: u128,
) -> bool {
    &&& m matches TokenFactoryMsg::Mint { sender: s, amount: c, recipient, mint_to_address }
    &&& s@ == sender
    &&& is_coin(c, denom, amount)
    &&& if v is Kujira {
        recipient matches Some(r) && r@ == sender
    } else {
        recipient is None
    }
    &&& if v is Injective {
        mint_to_address matches Some(a) && a@ == sender
    } else {
        mint_to_address is None
    }
}

/// The exact shape of a burn message for variant `v`: {sender, amount}
/// everywhere; Osmosis additionally repeats the sender as
/// `burn_from_address`.
pub open spec fn is_burn_msg(
    m: TokenFactoryMsg,
    v: TokenFactoryType,
    sender: Seq<char>,
    denom: Seq<char>,
    amount: u128,
) -> bool {
    &&& m matches TokenFactoryMsg::Burn { sender: s, amount: c, burn_from_address }
    &&& s@ == sender
    &&& is_coin(c, denom, amount)
    &&& if v is Osmosis {
        burn_from_address matches Some(a) && a@ == sender
    } else {
        burn_from_address is None
    }
}

/// The exact shape of a change-admin message: {sender, denom, new_admin}
/// for every variant.
pub open spec fn is_change_admin_msg(
    m: TokenFactoryMsg,
    sender: Seq<char>,
    denom: Seq<char>,
    new_admin: Seq<char>,
) -> bool {
    &&& m matches TokenFactoryMsg::ChangeAdmin { sender: s, denom: d, new_admin: a }
    &&& s@ == sender
    &&& d@ == denom
    &&& a@ == new_admin
}

/// The exact shape of a set-metadata message: {sender, metadata} for
/// every variant.
pub open spec fn is_set_denom_metadata_msg(
    m: TokenFactoryMsg,
    sender: Seq<char>,
    metadata: Metadata,
) -> bool {
    &&& m matches TokenFactoryMsg::SetDenomMetadata { sender: s, metadata: md }
    &&& s@ == sender
    &&& md == metadata
}

/// Which variant a network identifier selects; unknown identifiers fall
/// back to the generic CosmWasm dialect.
pub open spec fn spec_from_chain_id(chain_id: Seq<char>) -> TokenFactoryType {
    if chain_id == "juno-1"@ || chain_id == "testing"@ {
        TokenFactoryType::Juno
    } else if chain_id == "osmosis-1"@ {
        TokenFactoryType::Osmosis
    } else if chain_id == "injective-1"@ {
        TokenFactoryType::Injective
    } else if chain_id == "kujira-1"@ {
        TokenFactoryType::Kujira
    } else {
        TokenFactoryType::CosmWasm
    }
}

impl TokenFactoryType {
    /// Infer the dialect from a network identifier, falling back to the
    /// generic CosmWasm dialect for identifiers not on the list.
    pub fn from_chain_id(chain_id: &String) -> (r: Self)
        ensures
            r == spec_from_chain_id(chain_id@),
    {
        if *chain_id == "juno-1".to_owned() || *chain_id == "testing".to_owned() {
            TokenFactoryType::Juno
        } else if *chain_id == "osmosis-1".to_owned() {
            TokenFactoryType::Osmosis
        } else if *chain_id == "injective-1".to_owned() {
            TokenFactoryType::Injective
        } else if *chain_id == "kujira-1".to_owned() {
            TokenFactoryType::Kujira
        } else {
            TokenFactoryType::CosmWasm
        }
    }

    /// Build this variant's burn message.
    pub fn burn(&self, address: String, denom: &str, amount: u128) -> (m: TokenFactoryMsg)
        ensures
            is_burn_msg(m, *self, address@, denom@, amount),
    {
        let coin = Coin { denom: denom.to_owned(), amount };
        match self {
            TokenFactoryType::Osmosis => TokenFactoryMsg::Burn {
                burn_from_address: Some(address.clone()),
                sender: address,
                amount: coin,
            },
            _ => TokenFactoryMsg::Burn { sender: address, amount: coin, burn_from_address: None },
        }
    }

    /// Build this variant's mint message.
    pub fn mint(&self, sender: String, denom: String, amount: u128) -> (m: TokenFactoryMsg)
        ensures
            is_mint_msg(m, *self, sender@, denom@, amount),
    {
        let coin = Coin { denom, amount };
        match self {
            TokenFactoryType::Kujira => TokenFactoryMsg::Mint {
                recipient: Some(sender.clone()),
                sender,
                amount: coin,
                mint_to_address: None,
            },
            TokenFactoryType::Injective => TokenFactoryMsg::Mint {
                mint_to_address: Some(sender.clone()),
                sender,
                amount: coin,
                recipient: None,
            },
            _ => TokenFactoryMsg::Mint {
                sender,
                amount: coin,
                recipient: None,
                mint_to_address: None,
            },
        }
    }

    /// Build this variant's change-admin message. Setting the admin to
    /// the empty sentinel address is the documented way to revoke
    /// administrative control; every variant shares this shape.
    pub fn change_admin(&self, sender: String, denom: &str, new_admin: String) -> (m:
        TokenFactoryMsg)
        ensures
            is_change_admin_msg(m, sender@, denom@, new_admin@),
    {
        TokenFactoryMsg::ChangeAdmin { sender, denom: denom.to_owned(), new_admin }
    }

    /// Build this variant's create-denom message.
    pub fn create_denom(&self, address: String, subdenom: &str) -> (m: TokenFactoryMsg)
        ensures
            is_create_denom_msg(m, address@, subdenom@),
    {
        TokenFactoryMsg::CreateDenom { sender: address, subdenom: subdenom.to_owned() }
    }

    /// Build this variant's set-metadata message.
    pub fn set_denom_metadata(&self, address: String, metadata: Metadata) -> (m: TokenFactoryMsg)
        ensures
            is_set_denom_metadata_msg(m, address@, metadata),
    {
        TokenFactoryMsg::SetDenomMetadata { sender: address, metadata }
    }

    /// The query path under which this variant serves denom authority
    /// metadata; Juno reuses the Osmosis path.
    pub fn admin_path(&self) -> (r: String)
        ensures
            *self is CosmWasm ==> r@ == "/cosmwasm.tokenfactory.v1.Query/DenomInfo"@,
            *self is Kujira ==> r@ == "/kujira.tokenfactory.v1.Query/DenomInfo"@,
            *self is Injective ==> r@ == "/injective.tokenfactory.v1.Query/DenomInfo"@,
            *self is Osmosis || *self is Juno ==> r@
                == "/osmosis.tokenfactory.v1.Query/DenomInfo"@,
    {
        match self {
            TokenFactoryType::CosmWasm => "/cosmwasm.tokenfactory.v1.Query/DenomInfo".to_owned(),
            TokenFactoryType::Kujira => "/kujira.tokenfactory.v1.Query/DenomInfo".to_owned(),
            TokenFactoryType::Injective => "/injective.tokenfactory.v1.Query/DenomInfo".to_owned(),
            TokenFactoryType::Osmosis => "/osmosis.tokenfactory.v1.Query/DenomInfo".to_owned(),
            TokenFactoryType::Juno => "/osmosis.tokenfactory.v1.Query/DenomInfo".to_owned(),
        }
    }
}

/// Request shape of the denom-authority query served under `admin_path`.
#[derive(Debug, Clone, PartialEq, Eq)]
pub struct QueryDenomAuthorityMetadataRequest {
    pub denom: String,
}

/// Response shape of the denom-authority query served under `admin_path`.
#[derive(Debug, Clone, PartialEq, Eq)]
pub struct QueryDenomAuthorityMetadataResponse {
    pub admin: String,
}

} // verus!
