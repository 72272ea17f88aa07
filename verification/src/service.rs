//! The read-only projection over the ledger: market listings with computed
//! percentage splits, single-market lookup, and bet lookup. All of it is
//! derived data with no invariants of its own and no side effects.

use vstd::prelude::*;

use crate::state::{Bet, Market, PredictionMarket, Principal};
use crate::{BetInfo, MarketInfo};

verus! {

/// `pool * 100 / total`, rounded down; an even 50 when nothing is staked.
pub open spec fn percentage_of(pool: u128, total: int) -> int {
    if total > 0 {
        (pool * 100) / total
    } else {
        50
    }
}

/// The machine limit on computing a split: `pool * 100` runs in 128 bits
/// (the host would abort there).
pub open spec fn split_fits(m: Market) -> bool {
    (m.yes_pool + m.no_pool) * 100 <= u128::MAX
}

/// The projection of one market record.
pub open spec fn market_info_of(m: Market) -> MarketInfo {
    MarketInfo {
        id: m.id,
        question: m.question,
        creator: m.creator,
        yes_pool: m.yes_pool,
        no_pool: m.no_pool,
        end_time: m.end_time,
        resolved: m.resolved,
        outcome: m.outcome,
        yes_percentage: percentage_of(m.yes_pool, m.yes_pool + m.no_pool) as u128,
        no_percentage: percentage_of(m.no_pool, m.yes_pool + m.no_pool) as u128,
    }
}

/// The projection of one bet record.
pub open spec fn bet_info_of(b: Bet) -> BetInfo {
    BetInfo { amount: b.amount, is_yes: b.is_yes, claimed: b.claimed }
}

/// Builds the projection of one market.
fn project_market(m: &Market) -> (r: MarketInfo)
    requires
        split_fits(*m),
    ensures
        r == market_info_of(*m),
{
    let total = m.yes_pool + m.no_pool;
    let yes_pct: u128 = if total > 0 {
        (m.yes_pool * 100) / total
    } else {
        50
    };
    let no_pct: u128 = if total > 0 {
        (m.no_pool * 100) / total
    } else {
        50
    };
    MarketInfo {
        id: m.id,
        question: m.question.clone(),
        creator: m.creator,
        yes_pool: m.yes_pool,
        no_pool: m.no_pool,
        end_time: m.end_time,
        resolved: m.resolved,
        outcome: m.outcome,
        yes_percentage: yes_pct,
        no_percentage: no_pct,
    }
}

impl PredictionMarket {
    /// All markets, ids 1 up to the allocator, each with its split.
    pub fn markets(&self) -> (r: Vec<MarketInfo>)
        requires
            forall|i: int| 0 <= i < self.markets@.len() ==> split_fits(#[trigger] self.markets@[i]),
        ensures
            r@.len() == self.markets@.len(),
            forall|i: int|
                0 <= i < r@.len() ==> r@[i] == market_info_of(#[trigger] self.markets@[i]),
    {
        let mut result: Vec<MarketInfo> = Vec::new();
        let n = self.markets.len();
        let mut i: usize = 0;
        while i < n
            invariant
                n == self.markets@.len(),
                i <= n,
                result@.len() == i,
                forall|j: int|
                    0 <= j < i ==> result@[j] == market_info_of(#[trigger] self.markets@[j]),
                forall|j: int| 0 <= j < n ==> split_fits(#[trigger] self.markets@[j]),
            decreases n - i,
        {
            let info = project_market(&self.markets[i]);
            result.push(info);
            i = i + 1;
        }
        result
    }

    /// A single market by id, with its split; `None` exactly when no market
    /// has this id.
    pub fn market(&self, id: u64) -> (r: Option<MarketInfo>)
        requires
            self.has_market(id) ==> split_fits(self.market_at(id)),
        ensures
            r is Some <==> self.has_market(id),
            self.has_market(id) ==> r == Some(market_info_of(self.market_at(id))),
    {
        if id == 0 || id > self.markets.len() as u64 {
            return None;
        }
        let idx: usize = (id - 1) as usize;
        Some(project_market(&self.markets[idx]))
    }

    /// A principal's bet on a market; `None` exactly when it has none.
    pub fn user_bet(&self, market_id: u64, user: Principal) -> (r: Option<BetInfo>)
        requires
            self.wf(),
        ensures
            r is Some <==> self.has_bet(market_id, user),
            self.has_bet(market_id, user) ==> r == Some(bet_info_of(self.bet_of(market_id, user))),
    {
        match self.find_bet(market_id, user) {
            Some(i) => {
                proof {
                    self.lemma_bet_index_is(market_id, user, i as int);
                }
                let b = self.bets[i].bet;
                Some(BetInfo { amount: b.amount, is_yes: b.is_yes, claimed: b.claimed })
            },
            None => None,
        }
    }
}

} // verus!
