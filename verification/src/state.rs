//! The contract's state: configuration, ledger counters, the pending
//! mint store keyed by correlation id, and the initial-balance queue;
//! plus initialization and the drain of the initial-balance queue.

use vstd::prelude::*;

use crate::denom::{derive_full_denom, full_denom_of, lower_of, lowercase};
use crate::error::ContractError;
use crate::execute::Context;
use crate::msg::{expanded_metadata, InstantiateMsg, MintParams, NewDenomMetadata};
use crate::response::{Attribute, OutboundMsg, Reply, ReplyResult, Response, SubMsg};
use crate::tokenfactory::{
    is_create_denom_msg, is_mint_msg, spec_from_chain_id, TokenFactoryMsg, TokenFactoryType,
};

verus! {

/// The reserved correlation id of the one aggregate initial mint.
pub const INITIAL_BALANCES_REPLY_ID: u64 = 0;

/// The seed of the per-mint correlation counter. Individual mints get
/// ids from here upward, so they can never collide with the reserved
/// batch id.
pub const INITIAL_MINT_REPLY_ID: u64 = 1000000;

/// The singleton configuration reported by the config query.
#[derive(Debug, Clone, PartialEq, Eq)]
pub struct Config {
    pub manager: String,
}

/// Pending mints keyed by correlation id.
///
/// Each entry is created when a mint is issued and deleted exactly once
/// when its callback resolves successfully; ids are unique.
#[derive(Debug, Clone, PartialEq, Eq)]
pub struct PendingMints {
    entries: Vec<(u64, MintParams)>,
}

impl View for PendingMints {
    type V = Seq<(u64, MintParams)>;

    closed spec fn view(&self) -> Seq<(u64, MintParams)> {
        self.entries@
    }
}

impl PendingMints {
    /// No id occurs twice.
    pub open spec fn wf(&self) -> bool {
        forall|i: int, j: int|
            0 <= i < j < self@.len() ==> (#[trigger] self@[i].0) != (#[trigger] self@[j].0)
    }

    /// Some entry is keyed by `id`.
    pub open spec fn contains_id(&self, id: u64) -> bool {
        exists|i: int| 0 <= i < self@.len() && (#[trigger] self@[i].0) == id
    }

    /// The parameters stored under `id` (meaningful only when present).
    pub open spec fn spec_get(&self, id: u64) -> MintParams {
        self@[choose|i: int| 0 <= i < self@.len() && (#[trigger] self@[i].0) == id].1
    }

    pub fn new() -> (r: Self)
        ensures
            r.wf(),
            r@.len() == 0,
            forall|id: u64| !r.contains_id(id),
    {
        PendingMints { entries: Vec::new() }
    }

    /// The stored pairs, for persistence outside this module.
    pub fn entries(&self) -> (r: &Vec<(u64, MintParams)>)
        ensures
            r@ == self@,
    {
        &self.entries
    }

    /// Store `params` under the fresh id `id`.
    pub fn save(&mut self, id: u64, params: MintParams)
        requires
            old(self).wf(),
            !old(self).contains_id(id),
        ensures
            final(self).wf(),
            final(self).contains_id(id),
            final(self).spec_get(id) == params,
            final(self)@.len() == old(self)@.len() + 1,
            forall|x: u64|
                x != id ==> final(self).contains_id(x) == old(self).contains_id(x),
            forall|x: u64|
                x != id && old(self).contains_id(x) ==> final(self).spec_get(x) == old(
                    self,
                ).spec_get(x),
    {
        self.entries.push((id, params));
        proof {
            let s0 = old(self)@;
            let s1 = self@;
            assert(s1 == s0.push((id, params)));
            assert(s1[s0.len() as int].0 == id);
            assert forall|i: int, j: int|
                0 <= i < j < s1.len() implies (#[trigger] s1[i].0) != (#[trigger] s1[j].0) by {
                assert(s1[i] == s0[i]);
                if j < s0.len() {
                    assert(s1[j] == s0[j]);
                } else {
                    if s1[i].0 == id {
                        assert(0 <= i < s0.len() && s0[i].0 == id);
                        assert(false);
                    }
                }
            }
            lemma_pending_get(*self, id, s0.len() as int);
            assert forall|x: u64|
                x != id implies self.contains_id(x) == old(self).contains_id(x) by {
                if old(self).contains_id(x) {
                    let i = choose|i: int| 0 <= i < s0.len() && s0[i].0 == x;
                    assert(s1[i].0 == x);
                }
                if self.contains_id(x) {
                    let i = choose|i: int| 0 <= i < s1.len() && s1[i].0 == x;
                    assert(i < s0.len());
                    assert(s0[i].0 == x);
                }
            }
            assert forall|x: u64|
                x != id && old(self).contains_id(x) implies self.spec_get(x) == old(
                self,
            ).spec_get(x) by {
                let i = choose|i: int| 0 <= i < s0.len() && s0[i].0 == x;
                lemma_pending_get(*old(self), x, i);
                assert(s1[i].0 == x);
                lemma_pending_get(*self, x, i);
            }
        }
    }

    /// Borrow the parameters stored under `id`, if any.
    pub fn load(&self, id: u64) -> (r: Option<&MintParams>)
        requires
            self.wf(),
        ensures
            self.contains_id(id) ==> (r matches Some(p) && *p == self.spec_get(id)),
            !self.contains_id(id) ==> r is None,
    {
        let n: usize = self.entries.len();
        let mut i: usize = 0;
        while i < n
            invariant
                n == self@.len(),
                i <= n,
                self.wf(),
                forall|k: int| 0 <= k < i ==> (#[trigger] self@[k].0) != id,
            decreases n - i,
        {
            if self.entries[i].0 == id {
                proof {
                    lemma_pending_get(*self, id, i as int);
                }
                return Some(&self.entries[i].1);
            }
            i += 1;
        }
        proof {
            if self.contains_id(id) {
                let k = choose|k: int| 0 <= k < self@.len() && self@[k].0 == id;
                assert(false);
            }
        }
        None
    }

    /// Delete and return the entry stored under `id`, if any.
    pub fn remove(&mut self, id: u64) -> (r: Option<MintParams>)
        requires
            old(self).wf(),
        ensures
            final(self).wf(),
            !final(self).contains_id(id),
            old(self).contains_id(id) ==> (r == Some(old(self).spec_get(id)) && final(self)@.len()
                + 1 == old(self)@.len()),
            !old(self).contains_id(id) ==> (r is None && *final(self) == *old(self)),
            forall|x: u64|
                x != id ==> final(self).contains_id(x) == old(self).contains_id(x),
            forall|x: u64|
                x != id && old(self).contains_id(x) ==> final(self).spec_get(x) == old(
                    self,
                ).spec_get(x),
    {
        let n: usize = self.entries.len();
        let mut i: usize = 0;
        while i < n
            invariant
                *self == *old(self),
                n == self@.len(),
                i <= n,
                self.wf(),
                forall|k: int| 0 <= k < i ==> (#[trigger] self@[k].0) != id,
            decreases n - i,
        {
            if self.entries[i].0 == id {
                proof {
                    lemma_pending_get(*self, id, i as int);
                }
                let pair = self.entries.remove(i);
                proof {
                    let s0 = old(self)@;
                    let s1 = self@;
                    s0.remove_ensures(i as int);
                    assert forall|p: int, q: int|
                        0 <= p < q < s1.len() implies (#[trigger] s1[p].0)
                            != (#[trigger] s1[q].0) by {
                        let pm = if p < i as int { p } else { p + 1 };
                        let qm = if q < i as int { q } else { q + 1 };
                        assert(s1[p] == s0[pm]);
                        assert(s1[q] == s0[qm]);
                    }
                    if self.contains_id(id) {
                        let k = choose|k: int| 0 <= k < s1.len() && s1[k].0 == id;
                        let km = if k < i as int { k } else { k + 1 };
                        assert(s1[k] == s0[km]);
                        assert(false);
                    }
                    assert forall|x: u64|
                        x != id implies self.contains_id(x) == old(self).contains_id(
                        x,
                    ) by {
                        if old(self).contains_id(x) {
                            let m = choose|m: int| 0 <= m < s0.len() && s0[m].0 == x;
                            let k = if m < i as int { m } else { m - 1 };
                            assert(s1[k] == s0[m]);
                            assert(s1[k].0 == x);
                        }
                        if self.contains_id(x) {
                            let k = choose|k: int| 0 <= k < s1.len() && s1[k].0 == x;
                            let km = if k < i as int { k } else { k + 1 };
                            assert(s1[k] == s0[km]);
                            assert(s0[km].0 == x);
                        }
                    }
                    assert forall|x: u64|
                        x != id && old(self).contains_id(x) implies self.spec_get(x) == old(
                        self,
                    ).spec_get(x) by {
                        let m = choose|m: int| 0 <= m < s0.len() && s0[m].0 == x;
                        lemma_pending_get(*old(self), x, m);
                        let k = if m < i as int { m } else { m - 1 };
                        assert(s1[k] == s0[m]);
                        lemma_pending_get(*self, x, k);
                        assert(self.spec_get(x) == s1[k].1);
                    }
                }
                return Some(pair.1);
            }
            i += 1;
        }
        proof {
            if self.contains_id(id) {
                let k = choose|k: int| 0 <= k < self@.len() && self@[k].0 == id;
                assert(false);
            }
        }
        None
    }
}

/// `pm@[i]` is keyed by `id`: then `id` is present and `spec_get`
/// yields exactly that entry's parameters (ids are unique).
pub proof fn lemma_pending_get(pm: PendingMints, id: u64, i: int)
    requires
        pm.wf(),
        0 <= i < pm@.len(),
        pm@[i].0 == id,
    ensures
        pm.contains_id(id),
        pm.spec_get(id) == pm@[i].1,
{
    assert(pm.contains_id(id));
    let j = choose|j: int| 0 <= j < pm@.len() && (#[trigger] pm@[j].0) == id;
    if i < j {
        assert(pm@[i].0 != pm@[j].0);
        assert(false);
    } else if j < i {
        assert(pm@[j].0 != pm@[i].0);
        assert(false);
    }
}

/// The whole persisted state of one contract instance.
#[derive(Debug, Clone, PartialEq, Eq)]
pub struct ContractState {
    /// The sole address allowed to perform privileged operations.
    pub manager: String,
    /// The chain dialect chosen at initialization, immutable thereafter.
    pub factory: TokenFactoryType,
    /// The denomination derived at initialization, immutable thereafter.
    pub full_denom: String,
    /// The user-facing metadata, replaced wholesale by the privileged
    /// set-metadata operation.
    pub denom_metadata: NewDenomMetadata,
    /// Cumulative amount minted through this contract; never decreases.
    pub amount_minted: u128,
    /// Cumulative amount burned through this contract; never decreases.
    pub amount_burned: u128,
    /// The next correlation id to hand out; never decreases, never reused.
    pub mint_reply_id_counter: u64,
    /// Mints issued and not yet resolved.
    pub pending_mints: PendingMints,
    /// Initial payouts awaiting the aggregate mint's callback.
    pub initial_balances: Vec<MintParams>,
}

impl ContractState {
    /// Pending ids are unique, were all dispensed by the counter, and
    /// sit at or above the seed, so none collides with the reserved
    /// batch id.
    pub open spec fn wf(&self) -> bool {
        &&& self.pending_mints.wf()
        &&& INITIAL_MINT_REPLY_ID <= self.mint_reply_id_counter
        &&& forall|id: u64|
            #[trigger] self.pending_mints.contains_id(id) ==> INITIAL_MINT_REPLY_ID <= id
                < self.mint_reply_id_counter
    }
}

/// The sum of the amounts of a payout list.
pub open spec fn sum_of(entries: Seq<MintParams>) -> int
    decreases entries.len(),
{
    if entries.len() == 0 {
        0
    } else {
        entries[0].amount + sum_of(entries.drop_first())
    }
}

/// A payout sum is never negative.
pub proof fn lemma_sum_of_nonneg(entries: Seq<MintParams>)
    ensures
        sum_of(entries) >= 0,
    decreases entries.len(),
{
    if entries.len() > 0 {
        lemma_sum_of_nonneg(entries.drop_first());
    }
}

/// What scanning the initial-balance list finds first: its total, an
/// entry whose address the validator rejected, or a total too large for
/// the ledger. Validation and accumulation run entry by entry, so the
/// earlier failure of the earlier entry wins.
#[derive(Debug, Clone, PartialEq, Eq)]
pub enum BalanceScan {
    Total(u128),
    Invalid,
    TooLarge,
}

/// Scan `entries` against the validator verdicts `valid`, accumulating
/// onto `acc`.
pub open spec fn scan_initial_balances(
    entries: Seq<MintParams>,
    valid: Seq<bool>,
    acc: u128,
) -> BalanceScan
    recommends
        entries.len() == valid.len(),
    decreases entries.len(),
{
    if entries.len() == 0 {
        BalanceScan::Total(acc)
    } else if !valid[0] {
        BalanceScan::Invalid
    } else if acc + entries[0].amount > u128::MAX {
        BalanceScan::TooLarge
    } else {
        scan_initial_balances(
            entries.drop_first(),
            valid.drop_first(),
            (acc + entries[0].amount) as u128,
        )
    }
}

/// A successful scan's total is the accumulator plus the sum of all
/// entries.
pub proof fn lemma_scan_total_is_sum(entries: Seq<MintParams>, valid: Seq<bool>, acc: u128)
    requires
        scan_initial_balances(entries, valid, acc) matches BalanceScan::Total(t),
    ensures
        scan_initial_balances(entries, valid, acc) == BalanceScan::Total(
            ((acc + sum_of(entries)) as u128),
        ),
        acc + sum_of(entries) <= u128::MAX,
    decreases entries.len(),
{
    if entries.len() == 0 {
    } else {
        lemma_scan_total_is_sum(
            entries.drop_first(),
            valid.drop_first(),
            (acc + entries[0].amount) as u128,
        );
    }
}

/// The initial-balance list given at initialization, empty when absent.
pub open spec fn init_balances_of(msg: InstantiateMsg) -> Seq<MintParams> {
    if msg.initial_balances is Some {
        msg.initial_balances->0@
    } else {
        Seq::<MintParams>::empty()
    }
}

/// The manager chosen at initialization: the explicit one when given,
/// the instantiating sender otherwise.
pub open spec fn init_manager_of(msg: InstantiateMsg, sender: String) -> String {
    if msg.manager is Some {
        msg.manager->0
    } else {
        sender
    }
}

/// The dialect chosen at initialization: the explicit one when given,
/// else the one the network identifier selects.
pub open spec fn init_factory_of(msg: InstantiateMsg, chain_id: Seq<char>) -> TokenFactoryType {
    if msg.factory is Some {
        msg.factory->0
    } else {
        spec_from_chain_id(chain_id)
    }
}

/// An explicit manager was given and the validator rejected it.
pub open spec fn init_manager_rejected(msg: InstantiateMsg, manager_valid: bool) -> bool {
    msg.manager is Some && !manager_valid
}

/// The state and response a successful initialization produces, where
/// `total` is the aggregate initial mint amount.
pub open spec fn init_ok(
    ctx: Context,
    msg: InstantiateMsg,
    total: u128,
    s: ContractState,
    resp: Response,
) -> bool {
    let subdenom = lower_of(msg.metadata.symbol@);
    let denom = full_denom_of(ctx.contract_address@, subdenom);
    let balances = init_balances_of(msg);
    &&& s.manager == init_manager_of(msg, ctx.sender)
    &&& s.factory == init_factory_of(msg, ctx.chain_id@)
    &&& s.full_denom@ == denom
    &&& s.denom_metadata == msg.metadata
    &&& s.amount_minted == 0
    &&& s.amount_burned == 0
    &&& s.mint_reply_id_counter == INITIAL_MINT_REPLY_ID
    &&& s.pending_mints@.len() == 0
    &&& s.initial_balances@ == balances
    &&& s.wf()
    &&& resp.attributes@.len() == 1
    &&& resp.attributes@[0].key@ == "action"@
    &&& resp.attributes@[0].value@ == "instantiate"@
    &&& resp.messages@.len() == if balances.len() == 0 {
        2int
    } else {
        3int
    }
    &&& resp.messages@[0].reply_id is None
    &&& resp.messages@[0].msg matches OutboundMsg::TokenFactory(m0) && is_create_denom_msg(
        m0,
        ctx.contract_address@,
        subdenom,
    )
    &&& resp.messages@[1].reply_id is None
    &&& resp.messages@[1].msg matches OutboundMsg::TokenFactory(m1) && (m1 matches
        TokenFactoryMsg::SetDenomMetadata { sender: msender, metadata: mmeta } && (msender@
        == ctx.contract_address@ && expanded_metadata(mmeta, msg.metadata, denom)))
    &&& balances.len() > 0 ==> (resp.messages@[2].reply_id == Some(INITIAL_BALANCES_REPLY_ID) && (
    resp.messages@[2].msg matches OutboundMsg::TokenFactory(m2) && is_mint_msg(
        m2,
        s.factory,
        ctx.contract_address@,
        denom,
        total,
    )))
}

/// Top-level initialization: derive the denom, choose dialect and
/// manager, zero the ledger, seed the correlation counter, queue the
/// initial payouts, and emit create-denom and set-metadata messages,
/// plus — only when the payout list is non-empty — one aggregate mint
/// dispatched under the reserved batch id with reply-always semantics.
///
/// `manager_valid` and `balance_valid` are the host address validator's
/// verdicts on the explicit manager (consulted only when one is given)
/// and on each initial-balance recipient.
pub fn init(ctx: Context, msg: InstantiateMsg, manager_valid: bool, balance_valid: Vec<bool>) -> (r:
    Result<(ContractState, Response), ContractError>)
    requires
        msg.initial_balances matches Some(b) ==> balance_valid@.len() == b@.len(),
        msg.initial_balances is None ==> balance_valid@.len() == 0,
    ensures
        ({
            let scan = scan_initial_balances(init_balances_of(msg), balance_valid@, 0);
            if init_manager_rejected(msg, manager_valid) {
                r matches Err(ContractError::Validation { .. })
            } else if scan is Invalid {
                r matches Err(ContractError::Validation { .. })
            } else if scan is TooLarge {
                r == Err::<(ContractState, Response), ContractError>(ContractError::Overflow)
            } else {
                r matches Ok(out) && (scan matches BalanceScan::Total(t) && init_ok(
                    ctx,
                    msg,
                    t,
                    out.0,
                    out.1,
                ))
            }
        }),
{
    let InstantiateMsg { manager, factory, initial_balances, metadata } = msg;

    let subdenom = lowercase(metadata.symbol.as_str());
    let full_denom = derive_full_denom(ctx.contract_address.as_str(), subdenom.as_str());

    let factory = match factory {
        Some(f) => f,
        None => TokenFactoryType::from_chain_id(&ctx.chain_id),
    };

    let manager = match manager {
        Some(m) => {
            if !manager_valid {
                return Err(
                    ContractError::Validation { reason: "invalid manager address".to_owned() },
                );
            }
            m
        },
        None => ctx.sender.clone(),
    };

    let create_msg = factory.create_denom(ctx.contract_address.clone(), subdenom.as_str());
    let meta_msg = factory.set_denom_metadata(
        ctx.contract_address.clone(),
        metadata.to_denom_metadata(&full_denom),
    );

    let mut messages: Vec<SubMsg> = Vec::new();
    messages.push(SubMsg::new(OutboundMsg::TokenFactory(create_msg)));
    messages.push(SubMsg::new(OutboundMsg::TokenFactory(meta_msg)));

    let initial_balances: Vec<MintParams> = match initial_balances {
        Some(balances) => {
            let ghost all = balances@;
            let ghost vall = balance_valid@;
            let n: usize = balances.len();
            let mut total: u128 = 0;
            let mut i: usize = 0;
            proof {
                assert(all.subrange(0, n as int) =~= all);
                assert(vall.subrange(0, n as int) =~= vall);
            }
            while i < n
                invariant
                    n == all.len(),
                    vall.len() == n,
                    i <= n,
                    balances@ == all,
                    balance_valid@ == vall,
                    !init_manager_rejected(msg, manager_valid),
                    all == init_balances_of(msg),
                    scan_initial_balances(all, vall, 0) == scan_initial_balances(
                        all.subrange(i as int, n as int),
                        vall.subrange(i as int, n as int),
                        total,
                    ),
                decreases n - i,
            {
                proof {
                    assert(all.subrange(i as int, n as int)[0] == all[i as int]);
                    assert(vall.subrange(i as int, n as int)[0] == vall[i as int]);
                }
                if !balance_valid[i] {
                    return Err(
                        ContractError::Validation {
                            reason: "invalid initial balance address".to_owned(),
                        },
                    );
                }
                let amount = balances[i].amount;
                total = match total.checked_add(amount) {
                    Some(t) => t,
                    None => {
                        return Err(ContractError::Overflow);
                    },
                };
                proof {
                    assert(all.subrange(i as int, n as int).drop_first() =~= all.subrange(
                        i as int + 1,
                        n as int,
                    ));
                    assert(vall.subrange(i as int, n as int).drop_first() =~= vall.subrange(
                        i as int + 1,
                        n as int,
                    ));
                }
                i += 1;
            }
            proof {
                assert(all.subrange(n as int, n as int) =~= Seq::<MintParams>::empty());
                assert(vall.subrange(n as int, n as int) =~= Seq::<bool>::empty());
            }
            if n > 0 {
                let mint_msg = factory.mint(
                    ctx.contract_address.clone(),
                    full_denom.clone(),
                    total,
                );
                messages.push(
                    SubMsg::reply_always(
                        OutboundMsg::TokenFactory(mint_msg),
                        INITIAL_BALANCES_REPLY_ID,
                    ),
                );
            }
            balances
        },
        None => Vec::new(),
    };

    let state = ContractState {
        manager,
        factory,
        full_denom,
        denom_metadata: metadata,
        amount_minted: 0,
        amount_burned: 0,
        mint_reply_id_counter: INITIAL_MINT_REPLY_ID,
        pending_mints: PendingMints::new(),
        initial_balances,
    };
    let resp = Response {
        attributes: vec![
            Attribute { key: "action".to_owned(), value: "instantiate".to_owned() },
        ],
        messages,
    };
    Ok((state, resp))
}

/// How a batch callback under the reserved id transforms the state.
///
/// A success drains the whole queue in order, one payout instruction
/// per entry, and credits the minted counter once with the queue's sum;
/// a failure (or an overflowing credit) changes nothing.
pub open spec fn batch_resolution(
    pre: ContractState,
    post: ContractState,
    reply: Reply,
    r: Result<Response, ContractError>,
) -> bool {
    match reply.result {
        ReplyResult::Failure { error } => {
            &&& r matches Err(ContractError::UpstreamFailure { error: e }) && e == error
            &&& post == pre
        },
        ReplyResult::Success => {
            if pre.amount_minted + sum_of(pre.initial_balances@) > u128::MAX {
                &&& r == Err::<Response, ContractError>(ContractError::Overflow)
                &&& post == pre
            } else {
                &&& r matches Ok(resp) && {
                    &&& resp.attributes@.len() == 0
                    &&& resp.messages@.len() == pre.initial_balances@.len()
                    &&& forall|i: int|
                        0 <= i < pre.initial_balances@.len()
                            ==> crate::response::is_bank_send(
                            #[trigger] resp.messages@[i],
                            pre.initial_balances@[i].address@,
                            pre.full_denom@,
                            pre.initial_balances@[i].amount,
                        )
                }
                &&& post.initial_balances@.len() == 0
                &&& post.amount_minted == pre.amount_minted + sum_of(pre.initial_balances@)
                &&& post.amount_burned == pre.amount_burned
                &&& post.manager == pre.manager
                &&& post.factory == pre.factory
                &&& post.full_denom == pre.full_denom
                &&& post.denom_metadata == pre.denom_metadata
                &&& post.mint_reply_id_counter == pre.mint_reply_id_counter
                &&& post.pending_mints == pre.pending_mints
            }
        },
    }
}

/// Resolve the aggregate initial mint's callback: on success, drain the
/// initial-balance queue strictly in order into one payout instruction
/// per entry and credit the minted counter once with the total; on
/// failure, propagate the upstream error and leave the queue populated
/// for operator intervention.
pub fn transfer_initial_balances(state: &mut ContractState, reply: Reply) -> (r: Result<
    Response,
    ContractError,
>)
    requires
        old(state).wf(),
    ensures
        final(state).wf(),
        batch_resolution(*old(state), *final(state), reply, r),
{
    match &reply.result {
        ReplyResult::Failure { error } => Err(
            ContractError::UpstreamFailure { error: error.clone() },
        ),
        ReplyResult::Success => {
            let ghost queue = state.initial_balances@;
            let n: usize = state.initial_balances.len();
            let mut acc: u128 = state.amount_minted;
            let mut i: usize = 0;
            proof {
                assert(queue.subrange(0, n as int) =~= queue);
            }
            while i < n
                invariant
                    n == queue.len(),
                    i <= n,
                    *state == *old(state),
                    state.initial_balances@ == queue,
                    old(state).wf(),
                    reply.result is Success,
                    old(state).amount_minted + sum_of(queue) == acc + sum_of(
                        queue.subrange(i as int, n as int),
                    ),
                decreases n - i,
            {
                proof {
                    assert(queue.subrange(i as int, n as int)[0] == queue[i as int]);
                    assert(queue.subrange(i as int, n as int).drop_first() =~= queue.subrange(
                        i as int + 1,
                        n as int,
                    ));
                    lemma_sum_of_nonneg(queue.subrange(i as int + 1, n as int));
                }
                let amount = state.initial_balances[i].amount;
                acc = match acc.checked_add(amount) {
                    Some(t) => t,
                    None => {
                        return Err(ContractError::Overflow);
                    },
                };
                i += 1;
            }
            proof {
                assert(queue.subrange(n as int, n as int) =~= Seq::<MintParams>::empty());
            }
            let mut send_msgs: Vec<SubMsg> = Vec::new();
            let mut j: usize = 0;
            while j < n
                invariant
                    n == queue.len(),
                    j <= n,
                    state.initial_balances@ == queue,
                    *state == *old(state),
                    send_msgs@.len() == j,
                    forall|k: int|
                        0 <= k < j ==> crate::response::is_bank_send(
                            #[trigger] send_msgs@[k],
                            queue[k].address@,
                            old(state).full_denom@,
                            queue[k].amount,
                        ),
                decreases n - j,
            {
                let to_address = state.initial_balances[j].address.clone();
                let amount = state.initial_balances[j].amount;
                send_msgs.push(
                    SubMsg::new(
                        OutboundMsg::BankSend {
                            to_address,
                            denom: state.full_denom.clone(),
                            amount,
                        },
                    ),
                );
                j += 1;
            }
            state.initial_balances = Vec::new();
            state.amount_minted = acc;
            Ok(Response { attributes: Vec::new(), messages: send_msgs })
        },
    }
}

} // verus!
