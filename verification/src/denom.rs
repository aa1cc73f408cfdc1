//! Derivation of the managed denomination string.
//!
//! The full denom is fixed once at initialization as
//! `factory/{contract address}/{subdenom}`, where the subdenom is the
//! lowercased metadata symbol.

use vstd::prelude::*;

verus! {

/// The lowercase form of a character sequence, as Unicode case folding
/// produces it.
pub uninterp spec fn lower_of(s: Seq<char>) -> Seq<char>;

/// Relies on str::to_lowercase: the result depends on the characters
/// alone, and an empty string stays empty.
#[verifier::external_body]
pub(crate) fn lowercase(s: &str) -> (r: String)
    ensures
        r@ == lower_of(s@),
        s@.len() == 0 ==> r@.len() == 0,
{
    s.to_lowercase()
}

/// The full denomination derived from the owning contract's address and
/// a subdenom.
pub open spec fn full_denom_of(contract_address: Seq<char>, subdenom: Seq<char>) -> Seq<char> {
    "factory/"@ + contract_address + "/"@ + subdenom
}

/// Concatenate the full denomination string.
pub fn derive_full_denom(contract_address: &str, subdenom: &str) -> (r: String)
    ensures
        r@ == full_denom_of(contract_address@, subdenom@),
{
    let mut r: String = "factory/".to_owned();
    r.append(contract_address);
    r.append("/");
    r.append(subdenom);
    r
}

} // verus!
