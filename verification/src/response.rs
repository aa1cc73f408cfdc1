//! What an entry operation hands back to the host: attributes and
//! outbound instructions, some of which ask for a reply callback.

use vstd::prelude::*;

use crate::tokenfactory::TokenFactoryMsg;

verus! {

/// A key/value event attribute of a response.
#[derive(Debug, Clone, PartialEq, Eq)]
pub struct Attribute {
    pub key: String,
    pub value: String,
}

/// An outbound instruction: either a token-factory operation or a bank
/// transfer toward the host's ledger.
#[derive(Debug, Clone, PartialEq, Eq)]
pub enum OutboundMsg {
    TokenFactory(TokenFactoryMsg),
    BankSend { to_address: String, denom: String, amount: u128 },
}

/// An outbound instruction together with its dispatch mode: `reply_id`
/// is the correlation id under which a callback is requested on both
/// success and failure, or absent when no callback is wanted.
#[derive(Debug, Clone, PartialEq, Eq)]
pub struct SubMsg {
    pub msg: OutboundMsg,
    pub reply_id: Option<u64>,
}

impl SubMsg {
    /// Dispatch with no callback.
    pub fn new(msg: OutboundMsg) -> (r: SubMsg)
        ensures
            r.msg == msg,
            r.reply_id is None,
    {
        SubMsg { msg, reply_id: None }
    }

    /// Dispatch asking for a callback under `id` regardless of the
    /// call's success or failure.
    pub fn reply_always(msg: OutboundMsg, id: u64) -> (r: SubMsg)
        ensures
            r.msg == msg,
            r.reply_id == Some(id),
    {
        SubMsg { msg, reply_id: Some(id) }
    }
}

/// What an entry operation returns to the host.
#[derive(Debug, Clone, PartialEq, Eq)]
pub struct Response {
    pub attributes: Vec<Attribute>,
    pub messages: Vec<SubMsg>,
}

/// The result a reply callback carries: the external call either took
/// effect or failed with the given text.
#[derive(Debug, Clone, PartialEq, Eq)]
pub enum ReplyResult {
    Success,
    Failure { error: String },
}

/// A reply callback: the correlation id of the instruction it answers,
/// and how that instruction fared.
#[derive(Debug, Clone, PartialEq, Eq)]
pub struct Reply {
    pub id: u64,
    pub result: ReplyResult,
}

/// A token-factory submessage with no callback requested.
pub open spec fn is_plain_factory_msg(s: SubMsg, m: TokenFactoryMsg) -> bool {
    &&& s.msg == OutboundMsg::TokenFactory(m)
    &&& s.reply_id is None
}

/// A bank transfer submessage with no callback requested.
pub open spec fn is_bank_send(s: SubMsg, to: Seq<char>, denom: Seq<char>, amount: u128) -> bool {
    &&& s.msg matches OutboundMsg::BankSend { to_address, denom: d, amount: a }
    &&& to_address@ == to
    &&& d@ == denom
    &&& a == amount
    &&& s.reply_id is None
}

} // verus!
