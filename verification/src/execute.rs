//! The privileged entry operations and the per-mint reply resolution.

use vstd::prelude::*;

use crate::error::ContractError;
use crate::msg::{expanded_metadata, MintParams, NewDenomMetadata};
use crate::response::{
    is_bank_send, Attribute, OutboundMsg, Reply, ReplyResult, Response, SubMsg,
};
use crate::state::ContractState;
use crate::tokenfactory::{is_burn_msg, is_change_admin_msg, is_mint_msg, TokenFactoryMsg};

verus! {

/// The ambient facts of one invocation: the contract's own address, the
/// network identifier, and the calling address.
pub struct Context {
    pub contract_address: String,
    pub chain_id: String,
    pub sender: String,
}

/// All fields that name the denom and its governance are the same in
/// `a` and `b`.
pub open spec fn same_denom_config(a: ContractState, b: ContractState) -> bool {
    &&& b.manager == a.manager
    &&& b.factory == a.factory
    &&& b.full_denom == a.full_denom
    &&& b.denom_metadata == a.denom_metadata
}

/// How issuing a mint transforms the state: the dispensed id is the
/// counter's current value, the counter advances by exactly one, the
/// pending store gains exactly the new entry, and nothing else moves.
pub open spec fn mint_issued(
    pre: ContractState,
    post: ContractState,
    id: u64,
    recipient: String,
    amount: u128,
) -> bool {
    &&& id == pre.mint_reply_id_counter
    &&& post.mint_reply_id_counter == pre.mint_reply_id_counter + 1
    &&& post.pending_mints.contains_id(id)
    &&& post.pending_mints.spec_get(id) == (MintParams { address: recipient, amount })
    &&& forall|x: u64|
        x != id ==> post.pending_mints.contains_id(x) == pre.pending_mints.contains_id(x)
    &&& forall|x: u64|
        x != id && pre.pending_mints.contains_id(x) ==> post.pending_mints.spec_get(x)
            == pre.pending_mints.spec_get(x)
    &&& post.pending_mints@.len() == pre.pending_mints@.len() + 1
    &&& post.amount_minted == pre.amount_minted
    &&& post.amount_burned == pre.amount_burned
    &&& same_denom_config(pre, post)
    &&& post.initial_balances == pre.initial_balances
}

/// The full outcome of the mint entry operation.
pub open spec fn mint_outcome(
    pre: ContractState,
    post: ContractState,
    contract_address: Seq<char>,
    recipient: String,
    amount: u128,
    r: Result<Response, ContractError>,
) -> bool {
    &&& r matches Ok(resp) && {
        &&& resp.attributes@.len() == 1
        &&& resp.attributes@[0].key@ == "action"@
        &&& resp.attributes@[0].value@ == "mint"@
        &&& resp.messages@.len() == 1
        &&& resp.messages@[0].reply_id == Some(pre.mint_reply_id_counter)
        &&& resp.messages@[0].msg matches OutboundMsg::TokenFactory(m) && is_mint_msg(
            m,
            pre.factory,
            contract_address,
            pre.full_denom@,
            amount,
        )
    }
    &&& mint_issued(pre, post, pre.mint_reply_id_counter, recipient, amount)
}

/// Issue a mint: dispense the next correlation id, persist the pending
/// payout under it, and emit this dialect's mint message with a
/// reply-always callback tagged by that id. The ledger is not credited
/// here; that happens when the callback confirms success.
pub fn exec_mint(state: &mut ContractState, ctx: &Context, recipient: String, amount: u128) -> (r:
    Result<Response, ContractError>)
    requires
        old(state).wf(),
        old(state).mint_reply_id_counter < u64::MAX,
    ensures
        final(state).wf(),
        mint_outcome(*old(state), *final(state), ctx.contract_address@, recipient, amount, r),
{
    let reply_id: u64 = state.mint_reply_id_counter;
    state.mint_reply_id_counter = reply_id + 1;
    proof {
        if state.pending_mints.contains_id(reply_id) {
            assert(false);
        }
    }
    state.pending_mints.save(reply_id, MintParams { address: recipient, amount });
    proof {
        assert forall|id: u64| #[trigger]
            state.pending_mints.contains_id(id) implies crate::state::INITIAL_MINT_REPLY_ID <= id
            < state.mint_reply_id_counter by {
            if id != reply_id {
                assert(old(state).pending_mints.contains_id(id));
            }
        }
    }
    let m = state.factory.mint(ctx.contract_address.clone(), state.full_denom.clone(), amount);
    Ok(
        Response {
            attributes: vec![Attribute { key: "action".to_owned(), value: "mint".to_owned() }],
            messages: vec![SubMsg::reply_always(OutboundMsg::TokenFactory(m), reply_id)],
        },
    )
}

/// How a successful per-mint resolution transforms the state: the entry
/// under `id` is deleted, the minted counter is credited with exactly
/// its amount, and nothing else moves.
pub open spec fn resolve_success(pre: ContractState, post: ContractState, id: u64) -> bool {
    &&& pre.pending_mints.contains_id(id)
    &&& !post.pending_mints.contains_id(id)
    &&& post.pending_mints@.len() + 1 == pre.pending_mints@.len()
    &&& forall|x: u64|
        x != id ==> post.pending_mints.contains_id(x) == pre.pending_mints.contains_id(x)
    &&& forall|x: u64|
        x != id && pre.pending_mints.contains_id(x) ==> post.pending_mints.spec_get(x)
            == pre.pending_mints.spec_get(x)
    &&& post.amount_minted == pre.amount_minted + pre.pending_mints.spec_get(id).amount
    &&& post.amount_burned == pre.amount_burned
    &&& same_denom_config(pre, post)
    &&& post.mint_reply_id_counter == pre.mint_reply_id_counter
    &&& post.initial_balances == pre.initial_balances
}

/// How a per-mint callback is resolved. A success deletes the pending
/// entry exactly once — a second attempt for the same id finds no state
/// and fails — credits the ledger, and emits one payout instruction; a
/// failure propagates the upstream error verbatim and leaves both the
/// entry and the ledger untouched.
pub open spec fn mint_resolution(
    pre: ContractState,
    post: ContractState,
    reply: Reply,
    r: Result<Response, ContractError>,
) -> bool {
    match reply.result {
        ReplyResult::Failure { error } => {
            &&& r matches Err(ContractError::UpstreamFailure { error: e }) && e == error
            &&& post == pre
        },
        ReplyResult::Success => {
            if !pre.pending_mints.contains_id(reply.id) {
                &&& r == Err::<Response, ContractError>(ContractError::MissingState)
                &&& post == pre
            } else if pre.amount_minted + pre.pending_mints.spec_get(reply.id).amount
                > u128::MAX {
                &&& r == Err::<Response, ContractError>(ContractError::Overflow)
                &&& post == pre
            } else {
                &&& r matches Ok(resp) && {
                    &&& resp.attributes@.len() == 0
                    &&& resp.messages@.len() == 1
                    &&& is_bank_send(
                        resp.messages@[0],
                        pre.pending_mints.spec_get(reply.id).address@,
                        pre.full_denom@,
                        pre.pending_mints.spec_get(reply.id).amount,
                    )
                }
                &&& resolve_success(pre, post, reply.id)
            }
        },
    }
}

/// Resolve a per-mint callback: on success, load and delete the pending
/// entry keyed by the reply's id, credit the minted counter with its
/// amount, and emit the payout toward the stored recipient; on failure,
/// propagate the upstream error and leave the entry intact.
pub fn transfer_minted_coins(state: &mut ContractState, reply: Reply) -> (r: Result<
    Response,
    ContractError,
>)
    requires
        old(state).wf(),
    ensures
        final(state).wf(),
        mint_resolution(*old(state), *final(state), reply, r),
{
    match &reply.result {
        ReplyResult::Failure { error } => Err(
            ContractError::UpstreamFailure { error: error.clone() },
        ),
        ReplyResult::Success => {
            let (amount, to_address): (u128, String) = match state.pending_mints.load(reply.id) {
                None => {
                    return Err(ContractError::MissingState);
                },
                Some(p) => (p.amount, p.address.clone()),
            };
            if state.amount_minted > u128::MAX - amount {
                return Err(ContractError::Overflow);
            }
            let _ = state.pending_mints.remove(reply.id);
            state.amount_minted = state.amount_minted + amount;
            proof {
                assert forall|id: u64| #[trigger]
                    state.pending_mints.contains_id(
                        id,
                    ) implies crate::state::INITIAL_MINT_REPLY_ID <= id
                    < state.mint_reply_id_counter by {
                    assert(old(state).pending_mints.contains_id(id));
                }
            }
            Ok(
                Response {
                    attributes: Vec::new(),
                    messages: vec![
                        SubMsg::new(
                            OutboundMsg::BankSend {
                                to_address,
                                denom: state.full_denom.clone(),
                                amount,
                            },
                        ),
                    ],
                },
            )
        },
    }
}

/// How recording a burn transforms the state: the burned counter is
/// credited with exactly `amount` and nothing else moves.
pub open spec fn burn_recorded(pre: ContractState, post: ContractState, amount: u128) -> bool {
    &&& post.amount_burned == pre.amount_burned + amount
    &&& post.amount_minted == pre.amount_minted
    &&& same_denom_config(pre, post)
    &&& post.mint_reply_id_counter == pre.mint_reply_id_counter
    &&& post.pending_mints == pre.pending_mints
    &&& post.initial_balances == pre.initial_balances
}

/// The full outcome of the burn entry operation.
///
/// Burning asks for no callback, so the burned counter is credited
/// synchronously at issue time, mirroring the fact that the burn
/// primitive is dispatched without reply semantics.
pub open spec fn burn_outcome(
    pre: ContractState,
    post: ContractState,
    contract_address: Seq<char>,
    amount: u128,
    r: Result<Response, ContractError>,
) -> bool {
    if pre.amount_burned + amount > u128::MAX {
        &&& r == Err::<Response, ContractError>(ContractError::Overflow)
        &&& post == pre
    } else {
        &&& r matches Ok(resp) && {
            &&& resp.attributes@.len() == 1
            &&& resp.attributes@[0].key@ == "action"@
            &&& resp.attributes@[0].value@ == "burn"@
            &&& resp.messages@.len() == 1
            &&& resp.messages@[0].reply_id is None
            &&& resp.messages@[0].msg matches OutboundMsg::TokenFactory(m) && is_burn_msg(
                m,
                pre.factory,
                contract_address,
                pre.full_denom@,
                amount,
            )
        }
        &&& burn_recorded(pre, post, amount)
    }
}

/// Record a burn on the ledger and emit this dialect's burn message; the
/// amount is caller-supplied, so the overflow check is mandatory.
pub fn exec_burn(state: &mut ContractState, ctx: &Context, amount: u128) -> (r: Result<
    Response,
    ContractError,
>)
    requires
        old(state).wf(),
    ensures
        final(state).wf(),
        burn_outcome(*old(state), *final(state), ctx.contract_address@, amount, r),
{
    if state.amount_burned > u128::MAX - amount {
        return Err(ContractError::Overflow);
    }
    state.amount_burned = state.amount_burned + amount;
    let m = state.factory.burn(ctx.contract_address.clone(), state.full_denom.as_str(), amount);
    Ok(
        Response {
            attributes: vec![Attribute { key: "action".to_owned(), value: "burn".to_owned() }],
            messages: vec![SubMsg::new(OutboundMsg::TokenFactory(m))],
        },
    )
}

/// The full outcome of the set-manager entry operation.
pub open spec fn set_manager_outcome(
    pre: ContractState,
    post: ContractState,
    new_manager: String,
    valid: bool,
    r: Result<Response, ContractError>,
) -> bool {
    if !valid {
        &&& r matches Err(ContractError::Validation { .. })
        &&& post == pre
    } else {
        &&& r matches Ok(resp) && {
            &&& resp.attributes@.len() == 2
            &&& resp.attributes@[0].key@ == "action"@
            &&& resp.attributes@[0].value@ == "set_manager"@
            &&& resp.attributes@[1].key@ == "new_manager"@
            &&& resp.attributes@[1].value == new_manager
            &&& resp.messages@.len() == 0
        }
        &&& post.manager == new_manager
        &&& post.factory == pre.factory
        &&& post.full_denom == pre.full_denom
        &&& post.denom_metadata == pre.denom_metadata
        &&& post.amount_minted == pre.amount_minted
        &&& post.amount_burned == pre.amount_burned
        &&& post.mint_reply_id_counter == pre.mint_reply_id_counter
        &&& post.pending_mints == pre.pending_mints
        &&& post.initial_balances == pre.initial_balances
    }
}

/// Transfer managerial authority to `new_manager`; `valid` is the host
/// address validator's verdict on it.
pub fn exec_set_manager(state: &mut ContractState, new_manager: String, valid: bool) -> (r: Result<
    Response,
    ContractError,
>)
    requires
        old(state).wf(),
    ensures
        final(state).wf(),
        set_manager_outcome(*old(state), *final(state), new_manager, valid, r),
{
    if !valid {
        return Err(ContractError::Validation { reason: "invalid manager address".to_owned() });
    }
    let value = new_manager.clone();
    state.manager = new_manager;
    Ok(
        Response {
            attributes: vec![
                Attribute { key: "action".to_owned(), value: "set_manager".to_owned() },
                Attribute { key: "new_manager".to_owned(), value },
            ],
            messages: Vec::new(),
        },
    )
}

/// The full outcome of the set-denom-admin entry operation; the state
/// is read, never changed.
pub open spec fn set_denom_admin_outcome(
    s: ContractState,
    contract_address: Seq<char>,
    new_admin: String,
    valid: bool,
    r: Result<Response, ContractError>,
) -> bool {
    if !valid {
        r matches Err(ContractError::Validation { .. })
    } else {
        r matches Ok(resp) && {
            &&& resp.attributes@.len() == 1
            &&& resp.attributes@[0].key@ == "action"@
            &&& resp.attributes@[0].value@ == "set_denom_admin"@
            &&& resp.messages@.len() == 1
            &&& resp.messages@[0].reply_id is None
            &&& resp.messages@[0].msg matches OutboundMsg::TokenFactory(m) && is_change_admin_msg(
                m,
                contract_address,
                s.full_denom@,
                new_admin@,
            )
        }
    }
}

/// Hand administrative control of the denom to `new_admin`; `valid` is
/// the host address validator's verdict on it.
pub fn exec_set_denom_admin(state: &ContractState, ctx: &Context, new_admin: String, valid: bool)
    -> (r: Result<Response, ContractError>)
    ensures
        set_denom_admin_outcome(*state, ctx.contract_address@, new_admin, valid, r),
{
    if !valid {
        return Err(ContractError::Validation { reason: "invalid admin address".to_owned() });
    }
    let m = state.factory.change_admin(
        ctx.contract_address.clone(),
        state.full_denom.as_str(),
        new_admin,
    );
    Ok(
        Response {
            attributes: vec![
                Attribute { key: "action".to_owned(), value: "set_denom_admin".to_owned() },
            ],
            messages: vec![SubMsg::new(OutboundMsg::TokenFactory(m))],
        },
    )
}

/// The full outcome of the remove-denom-admin entry operation: always a
/// change-admin message whose new-admin field is the empty sentinel
/// address, whatever the dialect; the state is read, never changed.
pub open spec fn remove_denom_admin_outcome(
    s: ContractState,
    contract_address: Seq<char>,
    r: Result<Response, ContractError>,
) -> bool {
    r matches Ok(resp) && {
        &&& resp.attributes@.len() == 1
        &&& resp.attributes@[0].key@ == "action"@
        &&& resp.attributes@[0].value@ == "remove_denom_admin"@
        &&& resp.messages@.len() == 1
        &&& resp.messages@[0].reply_id is None
        &&& resp.messages@[0].msg matches OutboundMsg::TokenFactory(m) && is_change_admin_msg(
            m,
            contract_address,
            s.full_denom@,
            Seq::<char>::empty(),
        )
    }
}

/// Revoke administrative control over the denom. There is no deletion
/// operation on the wire: revocation is a change-admin whose new admin
/// is the empty sentinel address.
pub fn exec_remove_denom_admin(state: &ContractState, ctx: &Context) -> (r: Result<
    Response,
    ContractError,
>)
    ensures
        remove_denom_admin_outcome(*state, ctx.contract_address@, r),
{
    let m = state.factory.change_admin(
        ctx.contract_address.clone(),
        state.full_denom.as_str(),
        String::new(),
    );
    Ok(
        Response {
            attributes: vec![
                Attribute { key: "action".to_owned(), value: "remove_denom_admin".to_owned() },
            ],
            messages: vec![SubMsg::new(OutboundMsg::TokenFactory(m))],
        },
    )
}

/// The full outcome of the set-denom-metadata entry operation: the new
/// metadata is persisted, and the emitted message carries its expansion
/// against the unchanged full denom.
pub open spec fn set_denom_metadata_outcome(
    pre: ContractState,
    post: ContractState,
    contract_address: Seq<char>,
    metadata: NewDenomMetadata,
    r: Result<Response, ContractError>,
) -> bool {
    &&& r matches Ok(resp) && {
        &&& resp.attributes@.len() == 1
        &&& resp.attributes@[0].key@ == "action"@
        &&& resp.attributes@[0].value@ == "set_denom_metadata"@
        &&& resp.messages@.len() == 1
        &&& resp.messages@[0].reply_id is None
        &&& resp.messages@[0].msg matches OutboundMsg::TokenFactory(m) && (m matches
            TokenFactoryMsg::SetDenomMetadata { sender, metadata: md } && (sender@
            == contract_address && expanded_metadata(md, metadata, pre.full_denom@)))
    }
    &&& post.denom_metadata == metadata
    &&& post.manager == pre.manager
    &&& post.factory == pre.factory
    &&& post.full_denom == pre.full_denom
    &&& post.amount_minted == pre.amount_minted
    &&& post.amount_burned == pre.amount_burned
    &&& post.mint_reply_id_counter == pre.mint_reply_id_counter
    &&& post.pending_mints == pre.pending_mints
    &&& post.initial_balances == pre.initial_balances
}

/// Replace the denom metadata wholesale: persist it first, then emit
/// this dialect's set-metadata message, so persisted state and the
/// emitted message cannot diverge.
pub fn exec_set_denom_metadata(
    state: &mut ContractState,
    ctx: &Context,
    metadata: NewDenomMetadata,
) -> (r: Result<Response, ContractError>)
    requires
        old(state).wf(),
    ensures
        final(state).wf(),
        set_denom_metadata_outcome(
            *old(state),
            *final(state),
            ctx.contract_address@,
            metadata,
            r,
        ),
{
    let wire = metadata.to_denom_metadata(&state.full_denom);
    state.denom_metadata = metadata;
    let m = state.factory.set_denom_metadata(ctx.contract_address.clone(), wire);
    Ok(
        Response {
            attributes: vec![
                Attribute { key: "action".to_owned(), value: "set_denom_metadata".to_owned() },
            ],
            messages: vec![SubMsg::new(OutboundMsg::TokenFactory(m))],
        },
    )
}

} // verus!
