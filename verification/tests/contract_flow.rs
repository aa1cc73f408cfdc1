//! End-to-end flows: initialization, the batch path, mint issue and
//! resolution, burns, authorization, and queries.

use cw_tokenfactory::contract::{execute, reply};
use cw_tokenfactory::error::ContractError;
use cw_tokenfactory::execute::Context;
use cw_tokenfactory::msg::{ExecuteMsg, InstantiateMsg, MintParams, NewDenomMetadata};
use cw_tokenfactory::query::{query_config, query_info};
use cw_tokenfactory::response::{OutboundMsg, Reply, ReplyResult, Response};
use cw_tokenfactory::state::{init, ContractState, INITIAL_BALANCES_REPLY_ID};
use cw_tokenfactory::tokenfactory::{TokenFactoryMsg, TokenFactoryType};

fn s(x: &str) -> String {
    x.to_owned()
}

fn ctx() -> Context {
    Context { contract_address: s("contract7"), chain_id: s("osmosis-1"), sender: s("alice") }
}

fn metadata() -> NewDenomMetadata {
    NewDenomMetadata {
        symbol: s("TOKEN"),
        decimals: 6,
        name: s("Test Token"),
        description: Some(s("a test token")),
        uri: None,
    }
}

fn plain_msg() -> InstantiateMsg {
    InstantiateMsg {
        manager: None,
        factory: Some(TokenFactoryType::CosmWasm),
        initial_balances: None,
        metadata: metadata(),
    }
}

fn fresh_state() -> ContractState {
    let (state, _) = init(ctx(), plain_msg(), true, Vec::new()).unwrap();
    state
}

fn success(id: u64) -> Reply {
    Reply { id, result: ReplyResult::Success }
}

fn failure(id: u64, text: &str) -> Reply {
    Reply { id, result: ReplyResult::Failure { error: s(text) } }
}

fn factory_msg(resp: &Response, i: usize) -> &TokenFactoryMsg {
    match &resp.messages[i].msg {
        OutboundMsg::TokenFactory(m) => m,
        other => panic!("expected a token-factory message, got {:?}", other),
    }
}

#[test]
fn init_lowercases_symbol_into_denom() {
    let (state, resp) = init(ctx(), plain_msg(), true, Vec::new()).unwrap();
    assert_eq!(state.full_denom, "factory/contract7/token");
    match factory_msg(&resp, 0) {
        TokenFactoryMsg::CreateDenom { sender, subdenom } => {
            assert_eq!(sender, "contract7");
            assert_eq!(subdenom, "token");
        },
        other => panic!("expected create-denom first, got {:?}", other),
    }
}

#[test]
fn init_defaults_manager_to_sender_and_zeroes_ledger() {
    let (state, _) = init(ctx(), plain_msg(), true, Vec::new()).unwrap();
    assert_eq!(state.manager, "alice");
    assert_eq!(state.amount_minted, 0);
    assert_eq!(state.amount_burned, 0);
    assert_eq!(state.factory, TokenFactoryType::CosmWasm);
    assert!(state.initial_balances.is_empty());
}

#[test]
fn init_infers_factory_from_chain_id_when_absent() {
    let mut msg = plain_msg();
    msg.factory = None;
    let (state, _) = init(ctx(), msg, true, Vec::new()).unwrap();
    assert_eq!(state.factory, TokenFactoryType::Osmosis);
}

#[test]
fn init_expands_metadata_message() {
    let (_, resp) = init(ctx(), plain_msg(), true, Vec::new()).unwrap();
    match factory_msg(&resp, 1) {
        TokenFactoryMsg::SetDenomMetadata { sender, metadata: md } => {
            assert_eq!(sender, "contract7");
            assert_eq!(md.symbol, "TOKEN");
            assert_eq!(md.display, "TOKEN");
            assert_eq!(md.name, "Test Token");
            assert_eq!(md.base, "factory/contract7/token");
            assert_eq!(md.description, "a test token");
            assert_eq!(md.uri, "");
            assert_eq!(md.denom_units.len(), 2);
            assert_eq!(md.denom_units[0].denom, "factory/contract7/token");
            assert_eq!(md.denom_units[0].exponent, 0);
            assert_eq!(md.denom_units[1].denom, "TOKEN");
            assert_eq!(md.denom_units[1].exponent, 6);
        },
        other => panic!("expected set-metadata second, got {:?}", other),
    }
}

#[test]
fn init_without_balances_emits_no_aggregate_mint() {
    let (_, resp) = init(ctx(), plain_msg(), true, Vec::new()).unwrap();
    assert_eq!(resp.messages.len(), 2);
    assert!(resp.messages.iter().all(|m| m.reply_id.is_none()));
}

#[test]
fn init_with_empty_balance_list_emits_no_aggregate_mint() {
    let mut msg = plain_msg();
    msg.initial_balances = Some(Vec::new());
    let (state, resp) = init(ctx(), msg, true, Vec::new()).unwrap();
    assert_eq!(resp.messages.len(), 2);
    assert!(state.initial_balances.is_empty());
}

#[test]
fn init_with_balances_emits_one_aggregate_mint_under_reserved_id() {
    let mut msg = plain_msg();
    msg.initial_balances = Some(vec![
        MintParams { address: s("a1"), amount: 10 },
        MintParams { address: s("b2"), amount: 20 },
    ]);
    let (state, resp) = init(ctx(), msg, true, vec![true, true]).unwrap();
    assert_eq!(resp.messages.len(), 3);
    assert_eq!(resp.messages[2].reply_id, Some(INITIAL_BALANCES_REPLY_ID));
    match factory_msg(&resp, 2) {
        TokenFactoryMsg::Mint { sender, amount, .. } => {
            assert_eq!(sender, "contract7");
            assert_eq!(amount.denom, "factory/contract7/token");
            assert_eq!(amount.amount, 30);
        },
        other => panic!("expected the aggregate mint, got {:?}", other),
    }
    assert_eq!(state.initial_balances.len(), 2);
    assert_eq!(state.amount_minted, 0);
}

#[test]
fn init_takes_explicit_valid_manager() {
    let mut msg = plain_msg();
    msg.manager = Some(s("carol"));
    let (state, _) = init(ctx(), msg, true, Vec::new()).unwrap();
    assert_eq!(state.manager, "carol");
}

#[test]
fn batch_reply_drains_the_queue_only_once() {
    let mut msg = plain_msg();
    msg.initial_balances = Some(vec![MintParams { address: s("a1"), amount: 10 }]);
    let (mut state, _) = init(ctx(), msg, true, vec![true]).unwrap();
    reply(&mut state, success(INITIAL_BALANCES_REPLY_ID)).unwrap();
    assert_eq!(state.amount_minted, 10);
    let again = reply(&mut state, success(INITIAL_BALANCES_REPLY_ID)).unwrap();
    assert!(again.messages.is_empty());
    assert_eq!(state.amount_minted, 10);
    assert!(state.initial_balances.is_empty());
}

#[test]
fn init_rejects_invalid_manager() {
    let mut msg = plain_msg();
    msg.manager = Some(s("not an address"));
    let r = init(ctx(), msg, false, Vec::new());
    assert!(matches!(r, Err(ContractError::Validation { .. })));
}

#[test]
fn init_rejects_invalid_balance_recipient() {
    let mut msg = plain_msg();
    msg.initial_balances = Some(vec![
        MintParams { address: s("a1"), amount: 10 },
        MintParams { address: s("broken"), amount: 20 },
    ]);
    let r = init(ctx(), msg, true, vec![true, false]);
    assert!(matches!(r, Err(ContractError::Validation { .. })));
}

#[test]
fn init_rejects_overflowing_balance_total() {
    let mut msg = plain_msg();
    msg.initial_balances = Some(vec![
        MintParams { address: s("a1"), amount: u128::MAX },
        MintParams { address: s("b2"), amount: 1 },
    ]);
    let r = init(ctx(), msg, true, vec![true, true]);
    assert!(matches!(r, Err(ContractError::Overflow)));
}

#[test]
fn batch_reply_drains_queue_in_order_and_credits_total() {
    let mut msg = plain_msg();
    msg.initial_balances = Some(vec![
        MintParams { address: s("a1"), amount: 10 },
        MintParams { address: s("b2"), amount: 20 },
    ]);
    let (mut state, _) = init(ctx(), msg, true, vec![true, true]).unwrap();
    let resp = reply(&mut state, success(INITIAL_BALANCES_REPLY_ID)).unwrap();
    assert_eq!(resp.messages.len(), 2);
    match &resp.messages[0].msg {
        OutboundMsg::BankSend { to_address, denom, amount } => {
            assert_eq!(to_address, "a1");
            assert_eq!(denom, "factory/contract7/token");
            assert_eq!(*amount, 10);
        },
        other => panic!("expected a bank send, got {:?}", other),
    }
    match &resp.messages[1].msg {
        OutboundMsg::BankSend { to_address, amount, .. } => {
            assert_eq!(to_address, "b2");
            assert_eq!(*amount, 20);
        },
        other => panic!("expected a bank send, got {:?}", other),
    }
    assert_eq!(state.amount_minted, 30);
    assert!(state.initial_balances.is_empty());
}

#[test]
fn batch_reply_failure_keeps_queue_and_ledger() {
    let mut msg = plain_msg();
    msg.initial_balances = Some(vec![MintParams { address: s("a1"), amount: 10 }]);
    let (mut state, _) = init(ctx(), msg, true, vec![true]).unwrap();
    let before = state.clone();
    let r = reply(&mut state, failure(INITIAL_BALANCES_REPLY_ID, "upstream broke"));
    match r {
        Err(ContractError::UpstreamFailure { error }) => assert_eq!(error, "upstream broke"),
        other => panic!("expected the upstream failure, got {:?}", other),
    }
    assert_eq!(state, before);
    assert_eq!(state.initial_balances.len(), 1);
}

#[test]
fn mint_issues_distinct_increasing_ids() {
    let mut state = fresh_state();
    let c = ctx();
    let mut ids: Vec<u64> = Vec::new();
    for k in 0..3u128 {
        let resp = execute(
            &mut state,
            &c,
            ExecuteMsg::Mint { recipient: s("bob"), amount: 5 + k },
            true,
        )
        .unwrap();
        ids.push(resp.messages[0].reply_id.expect("mint asks for a reply"));
    }
    assert_eq!(ids, vec![1000000, 1000001, 1000002]);
    assert_eq!(state.pending_mints.entries().len(), 3);
}

#[test]
fn mint_reply_success_credits_ledger_and_pays_out() {
    let mut state = fresh_state();
    let c = ctx();
    let resp = execute(&mut state, &c, ExecuteMsg::Mint { recipient: s("bob"), amount: 5 }, true)
        .unwrap();
    let id = resp.messages[0].reply_id.unwrap();
    match factory_msg(&resp, 0) {
        TokenFactoryMsg::Mint { sender, amount, .. } => {
            assert_eq!(sender, "contract7");
            assert_eq!(amount.amount, 5);
        },
        other => panic!("expected a mint message, got {:?}", other),
    }
    assert_eq!(state.amount_minted, 0);
    let payout = reply(&mut state, success(id)).unwrap();
    assert_eq!(state.amount_minted, 5);
    assert_eq!(payout.messages.len(), 1);
    match &payout.messages[0].msg {
        OutboundMsg::BankSend { to_address, denom, amount } => {
            assert_eq!(to_address, "bob");
            assert_eq!(denom, "factory/contract7/token");
            assert_eq!(*amount, 5);
        },
        other => panic!("expected the payout, got {:?}", other),
    }
    assert!(state.pending_mints.entries().is_empty());
}

#[test]
fn minted_total_is_sum_of_sequential_mints() {
    let mut state = fresh_state();
    let c = ctx();
    for amount in [3u128, 4, 10] {
        let resp = execute(&mut state, &c, ExecuteMsg::Mint { recipient: s("bob"), amount }, true)
            .unwrap();
        let id = resp.messages[0].reply_id.unwrap();
        reply(&mut state, success(id)).unwrap();
    }
    assert_eq!(state.amount_minted, 17);
}

#[test]
fn mint_reply_twice_fails_with_missing_state() {
    let mut state = fresh_state();
    let c = ctx();
    let resp = execute(&mut state, &c, ExecuteMsg::Mint { recipient: s("bob"), amount: 5 }, true)
        .unwrap();
    let id = resp.messages[0].reply_id.unwrap();
    reply(&mut state, success(id)).unwrap();
    let before = state.clone();
    let second = reply(&mut state, success(id));
    assert!(matches!(second, Err(ContractError::MissingState)));
    assert_eq!(state, before);
}

#[test]
fn mint_reply_failure_leaves_pending_and_ledger() {
    let mut state = fresh_state();
    let c = ctx();
    let resp = execute(&mut state, &c, ExecuteMsg::Mint { recipient: s("bob"), amount: 5 }, true)
        .unwrap();
    let id = resp.messages[0].reply_id.unwrap();
    let before = state.clone();
    let r = reply(&mut state, failure(id, "mint rejected"));
    match r {
        Err(ContractError::UpstreamFailure { error }) => assert_eq!(error, "mint rejected"),
        other => panic!("expected the upstream failure, got {:?}", other),
    }
    assert_eq!(state, before);
    assert_eq!(state.amount_minted, 0);
    assert_eq!(state.pending_mints.entries().len(), 1);
}

#[test]
fn mint_reply_overflow_leaves_state() {
    let mut state = fresh_state();
    let c = ctx();
    state.amount_minted = u128::MAX;
    let resp = execute(&mut state, &c, ExecuteMsg::Mint { recipient: s("bob"), amount: 1 }, true)
        .unwrap();
    let id = resp.messages[0].reply_id.unwrap();
    let before = state.clone();
    let r = reply(&mut state, success(id));
    assert!(matches!(r, Err(ContractError::Overflow)));
    assert_eq!(state, before);
}

#[test]
fn reply_with_unknown_id_fails() {
    let mut state = fresh_state();
    let before = state.clone();
    let r = reply(&mut state, success(17));
    assert!(matches!(r, Err(ContractError::NotAuthorized { .. })));
    assert_eq!(state, before);
}

#[test]
fn burn_records_and_emits_burn_message() {
    let mut state = fresh_state();
    let c = ctx();
    let resp = execute(&mut state, &c, ExecuteMsg::Burn { amount: 9 }, true).unwrap();
    assert_eq!(state.amount_burned, 9);
    assert_eq!(state.amount_minted, 0);
    match factory_msg(&resp, 0) {
        TokenFactoryMsg::Burn { sender, amount, burn_from_address } => {
            assert_eq!(sender, "contract7");
            assert_eq!(amount.amount, 9);
            assert_eq!(amount.denom, "factory/contract7/token");
            assert!(burn_from_address.is_none());
        },
        other => panic!("expected a burn message, got {:?}", other),
    }
}

#[test]
fn burn_overflow_is_rejected() {
    let mut state = fresh_state();
    let c = ctx();
    state.amount_burned = u128::MAX;
    let before = state.clone();
    let r = execute(&mut state, &c, ExecuteMsg::Burn { amount: 1 }, true);
    assert!(matches!(r, Err(ContractError::Overflow)));
    assert_eq!(state, before);
}

#[test]
fn non_manager_is_rejected_on_every_operation_without_mutation() {
    let mut state = fresh_state();
    let outsider = Context {
        contract_address: s("contract7"),
        chain_id: s("osmosis-1"),
        sender: s("mallory"),
    };
    let operations = vec![
        ExecuteMsg::Mint { recipient: s("bob"), amount: 5 },
        ExecuteMsg::Burn { amount: 5 },
        ExecuteMsg::SetManager { address: s("mallory") },
        ExecuteMsg::SetDenomMetadata { metadata: metadata() },
        ExecuteMsg::SetDenomAdmin { address: s("mallory") },
        ExecuteMsg::RemoveDenomAdmin {},
    ];
    for op in operations {
        let before = state.clone();
        let r = execute(&mut state, &outsider, op, true);
        assert!(matches!(r, Err(ContractError::NotAuthorized { .. })));
        assert_eq!(state, before);
    }
}

#[test]
fn set_manager_replaces_manager() {
    let mut state = fresh_state();
    let c = ctx();
    execute(&mut state, &c, ExecuteMsg::SetManager { address: s("carol") }, true).unwrap();
    assert_eq!(state.manager, "carol");
    let r = execute(&mut state, &c, ExecuteMsg::Burn { amount: 1 }, true);
    assert!(matches!(r, Err(ContractError::NotAuthorized { .. })));
}

#[test]
fn set_manager_rejects_invalid_address() {
    let mut state = fresh_state();
    let c = ctx();
    let before = state.clone();
    let r = execute(&mut state, &c, ExecuteMsg::SetManager { address: s("broken") }, false);
    assert!(matches!(r, Err(ContractError::Validation { .. })));
    assert_eq!(state, before);
}

#[test]
fn set_denom_admin_builds_change_admin_message() {
    let mut state = fresh_state();
    let c = ctx();
    let resp = execute(&mut state, &c, ExecuteMsg::SetDenomAdmin { address: s("dave") }, true)
        .unwrap();
    match factory_msg(&resp, 0) {
        TokenFactoryMsg::ChangeAdmin { sender, denom, new_admin } => {
            assert_eq!(sender, "contract7");
            assert_eq!(denom, "factory/contract7/token");
            assert_eq!(new_admin, "dave");
        },
        other => panic!("expected a change-admin message, got {:?}", other),
    }
}

#[test]
fn set_denom_admin_rejects_invalid_address() {
    let mut state = fresh_state();
    let c = ctx();
    let r = execute(&mut state, &c, ExecuteMsg::SetDenomAdmin { address: s("broken") }, false);
    assert!(matches!(r, Err(ContractError::Validation { .. })));
}

#[test]
fn remove_denom_admin_uses_empty_sentinel_for_every_variant() {
    for variant in [
        TokenFactoryType::CosmWasm,
        TokenFactoryType::Kujira,
        TokenFactoryType::Injective,
        TokenFactoryType::Osmosis,
        TokenFactoryType::Juno,
    ] {
        let mut msg = plain_msg();
        msg.factory = Some(variant);
        let (mut state, _) = init(ctx(), msg, true, Vec::new()).unwrap();
        let c = ctx();
        let resp = execute(&mut state, &c, ExecuteMsg::RemoveDenomAdmin {}, true).unwrap();
        match factory_msg(&resp, 0) {
            TokenFactoryMsg::ChangeAdmin { new_admin, .. } => assert_eq!(new_admin, ""),
            other => panic!("expected a change-admin message, got {:?}", other),
        }
    }
}

#[test]
fn set_denom_metadata_persists_before_emitting() {
    let mut state = fresh_state();
    let c = ctx();
    let new_meta = NewDenomMetadata {
        symbol: s("NEW"),
        decimals: 8,
        name: s("Renamed"),
        description: None,
        uri: Some(s("https://example.invalid/meta")),
    };
    let resp = execute(
        &mut state,
        &c,
        ExecuteMsg::SetDenomMetadata { metadata: new_meta.clone() },
        true,
    )
    .unwrap();
    assert_eq!(state.denom_metadata, new_meta);
    match factory_msg(&resp, 0) {
        TokenFactoryMsg::SetDenomMetadata { metadata: md, .. } => {
            assert_eq!(md.symbol, "NEW");
            assert_eq!(md.description, "");
            assert_eq!(md.uri, "https://example.invalid/meta");
            // the denom itself is derived once and never regenerated
            assert_eq!(md.base, "factory/contract7/token");
            assert_eq!(md.denom_units[1].exponent, 8);
        },
        other => panic!("expected a set-metadata message, got {:?}", other),
    }
}

#[test]
fn queries_report_manager_denom_and_counters() {
    let mut state = fresh_state();
    let c = ctx();
    let resp = execute(&mut state, &c, ExecuteMsg::Mint { recipient: s("bob"), amount: 5 }, true)
        .unwrap();
    let id = resp.messages[0].reply_id.unwrap();
    reply(&mut state, success(id)).unwrap();
    execute(&mut state, &c, ExecuteMsg::Burn { amount: 2 }, true).unwrap();

    let config = query_config(&state);
    assert_eq!(config.0.manager, "alice");

    let info = query_info(&state);
    assert_eq!(info.denom, "factory/contract7/token");
    assert_eq!(info.stats.amount_minted, 5);
    assert_eq!(info.stats.amount_burned, 2);
    assert_eq!(info.metadata.symbol, "TOKEN");
    assert_eq!(info.metadata.base, "factory/contract7/token");
}
