//! The ledger's laws, stated once and proved for every reachable state:
//! sequential id allocation, conservation of staked funds, exclusive betting
//! rights, final resolution, and exactly-once settlement.

use vstd::prelude::*;

use crate::contract::{
    claim_outcome, claim_transition, claimed_record, market_with_stake, op_fits, op_transition,
    place_bet_outcome, place_bet_transition, resolve_market_outcome, resolve_market_transition,
};
use crate::state::{
    bet_matches, lemma_market_stake_split, lemma_stake_le_side_sum, market_stake_total,
    PredictionMarket, Principal,
};
use crate::{MarketError, Operation};

verus! {

/// Market ids are allocated starting at 1, strictly increasing by 1, and
/// globally unique: the market at index `i` carries id `i + 1`, and the
/// allocator always points one past the highest id given out.
pub proof fn lemma_ids_sequential(s: PredictionMarket)
    requires
        s.wf(),
    ensures
        s.next_market_id == s.markets@.len() + 1,
        forall|i: int| 0 <= i < s.markets@.len() ==> (#[trigger] s.markets@[i]).id == i + 1,
        forall|i: int, j: int|
            #![trigger s.markets@[i], s.markets@[j]]
            0 <= i < j < s.markets@.len() ==> s.markets@[i].id != s.markets@[j].id,
{
}

/// Conservation: a market's two pools always sum to the total amount staked
/// on that market, over all bets in the ledger.
pub proof fn lemma_pool_conservation(s: PredictionMarket, market_id: u64)
    requires
        s.wf(),
        s.has_market(market_id),
    ensures
        s.market_at(market_id).yes_pool + s.market_at(market_id).no_pool == market_stake_total(
            s.bets@,
            market_id,
        ),
{
    lemma_market_stake_split(s.bets@, market_id);
    assert(s.market_at(market_id).id == market_id);
}

/// Exclusive betting rights: once a principal's bet on a market went in, a
/// second `PlaceBet` by the same principal on the same market returns
/// `DuplicateBet` (and, by the betting contract, moves nothing).
pub proof fn lemma_second_bet_rejected(
    pre: PredictionMarket,
    post: PredictionMarket,
    market_id: u64,
    is_yes: bool,
    amount: u128,
    caller: Principal,
)
    requires
        pre.wf(),
        place_bet_outcome(pre, market_id, caller) is Ok,
        place_bet_transition(pre, post, market_id, is_yes, amount, caller),
    ensures
        place_bet_outcome(post, market_id, caller) == Err::<(), MarketError>(
            MarketError::DuplicateBet,
        ),
{
    let n = pre.bets@.len() as int;
    assert(bet_matches(post.bets@[n], market_id, caller));
    assert(post.market_at(market_id) == market_with_stake(
        pre.market_at(market_id),
        is_yes,
        amount,
    ));
}

/// Authorization: resolving succeeds exactly when the market exists, is
/// still open, and the caller is its creator.
pub proof fn lemma_resolve_authorization(s: PredictionMarket, market_id: u64, caller: Principal)
    requires
        s.wf(),
    ensures
        resolve_market_outcome(s, market_id, caller) is Ok <==> (s.has_market(market_id)
            && !s.market_at(market_id).resolved && s.market_at(market_id).creator == caller),
{
}

/// Resolution is final: a successful `ResolveMarket` finalizes the outcome,
/// and any further `ResolveMarket` on that market, by anyone, returns
/// `AlreadyResolved`.
pub proof fn lemma_resolution_is_final(
    pre: PredictionMarket,
    post: PredictionMarket,
    market_id: u64,
    outcome: bool,
    caller: Principal,
    second_caller: Principal,
)
    requires
        pre.wf(),
        resolve_market_outcome(pre, market_id, caller) is Ok,
        resolve_market_transition(pre, post, market_id, outcome, caller),
    ensures
        post.market_at(market_id).resolved,
        post.market_at(market_id).outcome == Some(outcome),
        resolve_market_outcome(post, market_id, second_caller) == Err::<(), MarketError>(
            MarketError::AlreadyResolved,
        ),
{
}

/// A resolved market is frozen: whatever operation runs next, by whomever,
/// the market's record (outcome and pools included) stays as it is.
pub proof fn lemma_resolved_market_frozen(
    pre: PredictionMarket,
    post: PredictionMarket,
    op: Operation,
    caller: Principal,
    market_id: u64,
)
    requires
        pre.wf(),
        op_transition(pre, post, op, caller),
        pre.has_market(market_id),
        pre.market_at(market_id).resolved,
    ensures
        post.has_market(market_id),
        post.market_at(market_id) == pre.market_at(market_id),
{
    match op {
        Operation::CreateMarket { .. } => {
            assert(post.markets@[market_id - 1] == pre.markets@[market_id - 1]);
        },
        Operation::PlaceBet { market_id: target, .. } => {
            if place_bet_outcome(pre, target, caller) is Ok {
                assert(!pre.market_at(target).resolved);
                assert(target != market_id);
            }
        },
        Operation::ResolveMarket { market_id: target, .. } => {
            if resolve_market_outcome(pre, target, caller) is Ok {
                assert(!pre.market_at(target).resolved);
                assert(target != market_id);
            }
        },
        Operation::ClaimWinnings { .. } => {},
    }
}

/// A winning bet funds its own side: the winning pool is at least the bet's
/// amount, so the payout calculator's division-by-zero guard is unreachable
/// for any funded winning bet.
pub proof fn lemma_winning_pool_covers_winning_bet(
    s: PredictionMarket,
    market_id: u64,
    who: Principal,
)
    requires
        s.wf(),
        s.has_market(market_id),
        s.has_bet(market_id, who),
        s.market_at(market_id).resolved,
        s.bet_of(market_id, who).is_yes == s.market_at(market_id).outcome.unwrap(),
    ensures
        (if s.market_at(market_id).outcome.unwrap() {
            s.market_at(market_id).yes_pool
        } else {
            s.market_at(market_id).no_pool
        }) >= s.bet_of(market_id, who).amount,
{
    let i = s.bet_index(market_id, who);
    assert(0 <= i < s.bets@.len() && bet_matches(s.bets@[i], market_id, who));
    assert(s.market_at(market_id).id == market_id);
    lemma_stake_le_side_sum(s.bets@, i, market_id, s.bet_of(market_id, who).is_yes);
}

/// Pools only grow: whatever operation runs next, an existing market's
/// pools never shrink (and only `PlaceBet` on that market grows them).
pub proof fn lemma_pools_monotone(
    pre: PredictionMarket,
    post: PredictionMarket,
    op: Operation,
    caller: Principal,
    market_id: u64,
)
    requires
        pre.wf(),
        op_fits(pre, op, caller),
        op_transition(pre, post, op, caller),
        pre.has_market(market_id),
    ensures
        post.has_market(market_id),
        post.market_at(market_id).yes_pool >= pre.market_at(market_id).yes_pool,
        post.market_at(market_id).no_pool >= pre.market_at(market_id).no_pool,
{
    match op {
        Operation::CreateMarket { .. } => {
            assert(post.markets@[market_id - 1] == pre.markets@[market_id - 1]);
        },
        Operation::PlaceBet { .. } => {},
        Operation::ResolveMarket { .. } => {},
        Operation::ClaimWinnings { .. } => {},
    }
}

/// Bets are never deleted or rewritten: whatever operation runs next, every
/// recorded bet keeps its key, its amount and its side, and a claimed bet
/// stays claimed. New records can only be appended.
pub proof fn lemma_bets_append_only(
    pre: PredictionMarket,
    post: PredictionMarket,
    op: Operation,
    caller: Principal,
)
    requires
        pre.wf(),
        op_transition(pre, post, op, caller),
    ensures
        post.bets@.len() >= pre.bets@.len(),
        forall|k: int|
            0 <= k < pre.bets@.len() ==> {
                &&& (#[trigger] post.bets@[k]).market_id == pre.bets@[k].market_id
                &&& post.bets@[k].bettor == pre.bets@[k].bettor
                &&& post.bets@[k].bet.amount == pre.bets@[k].bet.amount
                &&& post.bets@[k].bet.is_yes == pre.bets@[k].bet.is_yes
                &&& (pre.bets@[k].bet.claimed ==> post.bets@[k].bet.claimed)
            },
{
    match op {
        Operation::CreateMarket { .. } => {},
        Operation::PlaceBet { .. } => {},
        Operation::ResolveMarket { .. } => {},
        Operation::ClaimWinnings { market_id } => {
            if claim_outcome(pre, market_id, caller) is Ok {
                let i = pre.bet_index(market_id, caller);
                assert(0 <= i < pre.bets@.len() && bet_matches(pre.bets@[i], market_id, caller));
                assert(!pre.bets@[i].bet.claimed);
            }
        },
    }
}

/// Settlement is exactly-once: after a successful claim, a second
/// `ClaimWinnings` on the same bet returns `AlreadyClaimed` (and, by the
/// claiming contract, moves nothing, so no payout is affected).
pub proof fn lemma_second_claim_rejected(
    pre: PredictionMarket,
    post: PredictionMarket,
    market_id: u64,
    caller: Principal,
)
    requires
        pre.wf(),
        claim_outcome(pre, market_id, caller) is Ok,
        claim_transition(pre, post, market_id, caller),
    ensures
        claim_outcome(post, market_id, caller) == Err::<u128, MarketError>(
            MarketError::AlreadyClaimed,
        ),
{
    let i = pre.bet_index(market_id, caller);
    assert(0 <= i < pre.bets@.len() && bet_matches(pre.bets@[i], market_id, caller));
    assert(post.bets@ == pre.bets@.update(i, claimed_record(pre.bets@[i])));
    assert forall|k1: int, k2: int|
        #![trigger post.bets@[k1], post.bets@[k2]]
        0 <= k1 < k2 < post.bets@.len() implies !(post.bets@[k1].market_id
        == post.bets@[k2].market_id && post.bets@[k1].bettor == post.bets@[k2].bettor) by {
        assert(post.bets@[k1].market_id == pre.bets@[k1].market_id && post.bets@[k1].bettor
            == pre.bets@[k1].bettor);
        assert(post.bets@[k2].market_id == pre.bets@[k2].market_id && post.bets@[k2].bettor
            == pre.bets@[k2].bettor);
    }
    post.lemma_bet_index_is(market_id, caller, i);
    assert(post.bet_of(market_id, caller).claimed);
}

} // verus!
