//! The authorization gate in front of the privileged operations, and
//! the dispatch of reply callbacks by correlation id.

use vstd::prelude::*;

use crate::error::ContractError;
use crate::execute::{
    burn_outcome, exec_burn, exec_mint, exec_remove_denom_admin, exec_set_denom_admin,
    exec_set_denom_metadata, exec_set_manager, mint_outcome, mint_resolution,
    remove_denom_admin_outcome, set_denom_admin_outcome, set_denom_metadata_outcome,
    set_manager_outcome, transfer_minted_coins, Context,
};
use crate::msg::ExecuteMsg;
use crate::response::{Reply, Response};
use crate::state::{
    batch_resolution, transfer_initial_balances, ContractState, INITIAL_BALANCES_REPLY_ID,
    INITIAL_MINT_REPLY_ID,
};

verus! {

/// Run one privileged entry operation.
///
/// Every operation dispatched here is privileged: a caller other than
/// the manager fails with not-authorized and the state is untouched.
/// `addr_valid` is the host address validator's verdict on the address
/// the message carries, where it carries one; it is ignored otherwise.
pub fn execute(state: &mut ContractState, ctx: &Context, msg: ExecuteMsg, addr_valid: bool) -> (r:
    Result<Response, ContractError>)
    requires
        old(state).wf(),
        msg matches ExecuteMsg::Mint { .. } ==> old(state).mint_reply_id_counter < u64::MAX,
    ensures
        final(state).wf(),
        ctx.sender@ != old(state).manager@ ==> (r matches Err(
            ContractError::NotAuthorized { .. },
        ) && *final(state) == *old(state)),
        ctx.sender@ == old(state).manager@ ==> match msg {
            ExecuteMsg::Mint { recipient, amount } => mint_outcome(
                *old(state),
                *final(state),
                ctx.contract_address@,
                recipient,
                amount,
                r,
            ),
            ExecuteMsg::Burn { amount } => burn_outcome(
                *old(state),
                *final(state),
                ctx.contract_address@,
                amount,
                r,
            ),
            ExecuteMsg::SetManager { address } => set_manager_outcome(
                *old(state),
                *final(state),
                address,
                addr_valid,
                r,
            ),
            ExecuteMsg::SetDenomMetadata { metadata } => set_denom_metadata_outcome(
                *old(state),
                *final(state),
                ctx.contract_address@,
                metadata,
                r,
            ),
            ExecuteMsg::SetDenomAdmin { address } => set_denom_admin_outcome(
                *old(state),
                ctx.contract_address@,
                address,
                addr_valid,
                r,
            ) && *final(state) == *old(state),
            ExecuteMsg::RemoveDenomAdmin {  } => remove_denom_admin_outcome(
                *old(state),
                ctx.contract_address@,
                r,
            ) && *final(state) == *old(state),
        },
{
    if !(ctx.sender == state.manager) {
        return Err(
            ContractError::NotAuthorized {
                reason: "only manager can perform this action".to_owned(),
            },
        );
    }
    match msg {
        ExecuteMsg::SetDenomMetadata { metadata } => exec_set_denom_metadata(
            state,
            ctx,
            metadata,
        ),
        ExecuteMsg::SetDenomAdmin { address } => exec_set_denom_admin(
            state,
            ctx,
            address,
            addr_valid,
        ),
        ExecuteMsg::RemoveDenomAdmin {  } => exec_remove_denom_admin(state, ctx),
        ExecuteMsg::SetManager { address } => exec_set_manager(state, address, addr_valid),
        ExecuteMsg::Mint { recipient, amount } => exec_mint(state, ctx, recipient, amount),
        ExecuteMsg::Burn { amount } => exec_burn(state, ctx, amount),
    }
}

/// Dispatch a reply callback by its correlation id: the reserved batch
/// id resolves the aggregate initial mint, ids at or above the per-mint
/// seed resolve individual mints, and anything in between was never
/// handed out and fails with not-authorized.
pub fn reply(state: &mut ContractState, msg: Reply) -> (r: Result<Response, ContractError>)
    requires
        old(state).wf(),
    ensures
        final(state).wf(),
        msg.id == INITIAL_BALANCES_REPLY_ID ==> batch_resolution(
            *old(state),
            *final(state),
            msg,
            r,
        ),
        msg.id >= INITIAL_MINT_REPLY_ID ==> mint_resolution(*old(state), *final(state), msg, r),
        INITIAL_BALANCES_REPLY_ID < msg.id < INITIAL_MINT_REPLY_ID ==> (r matches Err(
            ContractError::NotAuthorized { .. },
        ) && *final(state) == *old(state)),
{
    if msg.id == INITIAL_BALANCES_REPLY_ID {
        transfer_initial_balances(state, msg)
    } else if msg.id >= INITIAL_MINT_REPLY_ID {
        transfer_minted_coins(state, msg)
    } else {
        Err(ContractError::NotAuthorized { reason: "unrecognized reply id".to_owned() })
    }
}

} // verus!
