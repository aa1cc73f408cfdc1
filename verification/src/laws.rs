//! Library-wide guarantees, stated and proved over the transition
//! relations that the entry operations' contracts establish.

use vstd::prelude::*;

use crate::error::ContractError;
use crate::execute::{burn_recorded, mint_issued, mint_resolution, resolve_success};
use crate::msg::MintParams;
use crate::response::{Reply, Response};
use crate::state::ContractState;

verus! {

/// The sum of a sequence of amounts.
pub open spec fn sum_u128(s: Seq<u128>) -> int
    decreases s.len(),
{
    if s.len() == 0 {
        0
    } else {
        s[0] + sum_u128(s.drop_first())
    }
}

/// The amounts resolved along a run of successful mint resolutions:
/// for each step, the amount of the pending entry it claimed.
pub open spec fn resolved_amounts(chain: Seq<ContractState>, ids: Seq<u64>) -> Seq<u128> {
    Seq::new(ids.len(), |i: int| chain[i].pending_mints.spec_get(ids[i]).amount)
}

/// After any run of successful mint resolutions, the minted counter
/// equals its starting value plus the sum of the resolved amounts, and
/// it never decreases along the way.
pub proof fn lemma_minted_total_is_sum(chain: Seq<ContractState>, ids: Seq<u64>)
    requires
        chain.len() == ids.len() + 1,
        forall|i: int|
            0 <= i < ids.len() ==> resolve_success(#[trigger] chain[i], chain[i + 1], ids[i]),
    ensures
        chain.last().amount_minted == chain.first().amount_minted + sum_u128(
            resolved_amounts(chain, ids),
        ),
        forall|i: int|
            0 <= i < ids.len() ==> (#[trigger] chain[i].amount_minted) <= chain[
                i + 1
            ].amount_minted,
    decreases ids.len(),
{
    if ids.len() == 0 {
        assert(sum_u128(resolved_amounts(chain, ids)) == 0);
        assert(chain.last() == chain.first());
    } else {
        let subchain = chain.drop_first();
        let subids = ids.drop_first();
        assert forall|i: int|
            0 <= i < subids.len() implies resolve_success(
            #[trigger] subchain[i],
            subchain[i + 1],
            subids[i],
        ) by {
            assert(resolve_success(chain[i + 1], chain[i + 2], ids[i + 1]));
        }
        lemma_minted_total_is_sum(subchain, subids);
        assert(resolved_amounts(subchain, subids) =~= resolved_amounts(chain, ids).drop_first());
        assert(resolve_success(chain[0], chain[1], ids[0]));
        assert(resolved_amounts(chain, ids)[0] == chain[0].pending_mints.spec_get(
            ids[0],
        ).amount);
        assert(subchain.last() == chain.last());
        assert(subchain.first() == chain[1]);
        assert forall|i: int|
            0 <= i < ids.len() implies (#[trigger] chain[i].amount_minted) <= chain[
            i + 1
        ].amount_minted by {
            assert(resolve_success(chain[i], chain[i + 1], ids[i]));
        }
    }
}

/// After any run of recorded burns, the burned counter equals its
/// starting value plus the sum of the burned amounts, and it never
/// decreases along the way.
pub proof fn lemma_burned_total_is_sum(chain: Seq<ContractState>, amounts: Seq<u128>)
    requires
        chain.len() == amounts.len() + 1,
        forall|i: int|
            0 <= i < amounts.len() ==> burn_recorded(#[trigger] chain[i], chain[i + 1], amounts[i]),
    ensures
        chain.last().amount_burned == chain.first().amount_burned + sum_u128(amounts),
        forall|i: int|
            0 <= i < amounts.len() ==> (#[trigger] chain[i].amount_burned) <= chain[
                i + 1
            ].amount_burned,
    decreases amounts.len(),
{
    if amounts.len() == 0 {
        assert(chain.last() == chain.first());
    } else {
        let subchain = chain.drop_first();
        let subamounts = amounts.drop_first();
        assert forall|i: int|
            0 <= i < subamounts.len() implies burn_recorded(
            #[trigger] subchain[i],
            subchain[i + 1],
            subamounts[i],
        ) by {
            assert(burn_recorded(chain[i + 1], chain[i + 2], amounts[i + 1]));
        }
        lemma_burned_total_is_sum(subchain, subamounts);
        assert(burn_recorded(chain[0], chain[1], amounts[0]));
        assert(subchain.last() == chain.last());
        assert forall|i: int|
            0 <= i < amounts.len() implies (#[trigger] chain[i].amount_burned) <= chain[
            i + 1
        ].amount_burned by {
            assert(burn_recorded(chain[i], chain[i + 1], amounts[i]));
        }
    }
}

/// The correlation counter advances by exactly one per issued mint.
proof fn lemma_counter_advances(
    chain: Seq<ContractState>,
    ids: Seq<u64>,
    recipients: Seq<String>,
    amounts: Seq<u128>,
    m: int,
)
    requires
        chain.len() == ids.len() + 1,
        recipients.len() == ids.len(),
        amounts.len() == ids.len(),
        forall|i: int|
            0 <= i < ids.len() ==> mint_issued(
                #[trigger] chain[i],
                chain[i + 1],
                ids[i],
                recipients[i],
                amounts[i],
            ),
        0 <= m <= ids.len(),
    ensures
        chain[m].mint_reply_id_counter == chain[0].mint_reply_id_counter + m,
    decreases m,
{
    if m > 0 {
        lemma_counter_advances(chain, ids, recipients, amounts, m - 1);
        assert(mint_issued(chain[m - 1], chain[m], ids[m - 1], recipients[m - 1], amounts[m - 1]));
    }
}

/// An entry issued at step `i` survives, unchanged, through step `j`.
proof fn lemma_entry_persists(
    chain: Seq<ContractState>,
    ids: Seq<u64>,
    recipients: Seq<String>,
    amounts: Seq<u128>,
    i: int,
    j: int,
)
    requires
        chain.len() == ids.len() + 1,
        recipients.len() == ids.len(),
        amounts.len() == ids.len(),
        forall|m: int|
            0 <= m < ids.len() ==> mint_issued(
                #[trigger] chain[m],
                chain[m + 1],
                ids[m],
                recipients[m],
                amounts[m],
            ),
        0 <= i < j <= ids.len(),
    ensures
        chain[j].pending_mints.contains_id(ids[i]),
        chain[j].pending_mints.spec_get(ids[i]) == (MintParams {
            address: recipients[i],
            amount: amounts[i],
        }),
    decreases j - i,
{
    if j == i + 1 {
        assert(mint_issued(chain[i], chain[i + 1], ids[i], recipients[i], amounts[i]));
    } else {
        lemma_entry_persists(chain, ids, recipients, amounts, i, j - 1);
        lemma_counter_advances(chain, ids, recipients, amounts, i);
        lemma_counter_advances(chain, ids, recipients, amounts, j - 1);
        assert(mint_issued(chain[j - 1], chain[j], ids[j - 1], recipients[j - 1], amounts[j - 1]));
        assert(ids[i] == chain[i].mint_reply_id_counter);
        assert(ids[j - 1] == chain[j - 1].mint_reply_id_counter);
        assert(ids[i] != ids[j - 1]);
    }
}

/// A mint's correlation id is never reused: across any run of issued
/// mints the dispensed ids are strictly increasing — hence pairwise
/// distinct — and in the final state each of them still resolves to
/// exactly the recipient and amount stored for it.
pub proof fn lemma_correlation_ids_unique(
    chain: Seq<ContractState>,
    ids: Seq<u64>,
    recipients: Seq<String>,
    amounts: Seq<u128>,
)
    requires
        chain.len() == ids.len() + 1,
        recipients.len() == ids.len(),
        amounts.len() == ids.len(),
        forall|i: int|
            0 <= i < ids.len() ==> mint_issued(
                #[trigger] chain[i],
                chain[i + 1],
                ids[i],
                recipients[i],
                amounts[i],
            ),
    ensures
        forall|i: int, j: int| 0 <= i < j < ids.len() ==> #[trigger] ids[i] < #[trigger] ids[j],
        forall|i: int|
            0 <= i < ids.len() ==> chain.last().pending_mints.contains_id(#[trigger] ids[i])
                && chain.last().pending_mints.spec_get(ids[i]) == (MintParams {
                address: recipients[i],
                amount: amounts[i],
            }),
{
    assert forall|i: int, j: int|
        0 <= i < j < ids.len() implies #[trigger] ids[i] < #[trigger] ids[j] by {
        lemma_counter_advances(chain, ids, recipients, amounts, i);
        lemma_counter_advances(chain, ids, recipients, amounts, j);
        assert(mint_issued(chain[i], chain[i + 1], ids[i], recipients[i], amounts[i]));
        assert(mint_issued(chain[j], chain[j + 1], ids[j], recipients[j], amounts[j]));
    }
    assert forall|i: int|
        0 <= i < ids.len() implies chain.last().pending_mints.contains_id(#[trigger] ids[i])
        && chain.last().pending_mints.spec_get(ids[i]) == (MintParams {
        address: recipients[i],
        amount: amounts[i],
    }) by {
        lemma_entry_persists(chain, ids, recipients, amounts, i, ids.len() as int);
        assert(chain[ids.len() as int] == chain.last());
    }
}

/// A pending entry is claimed at most once: after a successful
/// resolution of `id`, the entry is gone, so a second resolution
/// attempt for the same id reports missing state and changes nothing,
/// rather than paying out again.
pub proof fn lemma_double_resolution(
    pre: ContractState,
    mid: ContractState,
    post: ContractState,
    id: u64,
    second: Reply,
    r2: Result<Response, ContractError>,
)
    requires
        resolve_success(pre, mid, id),
        second.id == id,
        second.result is Success,
        mint_resolution(mid, post, second, r2),
    ensures
        r2 == Err::<Response, ContractError>(ContractError::MissingState),
        post == mid,
{
    assert(!mid.pending_mints.contains_id(id));
}

} // verus!
