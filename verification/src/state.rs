//! The ledger state: markets, bets, the id allocator, and the
//! well-formedness invariant that every operation preserves.

use vstd::prelude::*;

verus! {

/// An opaque, comparable identity token for the caller of an operation.
/// The hosting runtime authenticates callers and hands one token per
/// operation; this core only ever compares tokens for equality.
#[derive(Clone, Copy, Debug, PartialEq, Eq, Hash, Structural)]
pub struct Principal(pub u64);

/// A binary-outcome prediction market.
#[derive(Clone, Debug, PartialEq)]
pub struct Market {
    /// Unique id, assigned sequentially from 1.
    pub id: u64,
    /// The question the market is about; free text, never validated.
    pub question: String,
    /// The principal that created the market; only it may resolve.
    pub creator: Principal,
    /// Total amount staked on the YES side.
    pub yes_pool: u128,
    /// Total amount staked on the NO side.
    pub no_pool: u128,
    /// Advisory timestamp; recorded, never enforced.
    pub end_time: u64,
    /// Whether the outcome has been finalized; irreversible.
    pub resolved: bool,
    /// The finalized outcome; present exactly when `resolved`.
    pub outcome: Option<bool>,
}

/// A single wager: at most one per `(market, principal)` pair.
#[derive(Clone, Copy, Debug, PartialEq, Eq, Structural)]
pub struct Bet {
    /// The staked amount; pure ledger data, never escrowed.
    pub amount: u128,
    /// Which side the wager backs.
    pub is_yes: bool,
    /// Whether the winnings were already claimed; set at most once.
    pub claimed: bool,
}

impl Default for Bet {
    /// The empty wager: nothing staked, backing NO, unclaimed.
    fn default() -> (b: Bet)
        ensures
            b == (Bet { amount: 0, is_yes: false, claimed: false }),
    {
        Bet { amount: 0, is_yes: false, claimed: false }
    }
}

/// A bet together with the compound key it is stored under.
#[derive(Clone, Copy, Debug, PartialEq, Eq, Structural)]
pub struct BetRecord {
    /// The market the bet is placed on.
    pub market_id: u64,
    /// The principal that placed the bet.
    pub bettor: Principal,
    /// The wager itself.
    pub bet: Bet,
}

/// The whole persisted ledger: the id allocator, all markets, all bets.
///
/// Markets are stored densely: the market with id `i + 1` sits at index `i`,
/// which makes the allocator's "ids are 1, 2, 3, ... with no gaps" promise a
/// structural fact of the representation.
pub struct PredictionMarket {
    /// Counter for generating unique market ids; always `markets.len() + 1`.
    pub next_market_id: u64,
    /// All markets, indexed by `id - 1`.
    pub markets: Vec<Market>,
    /// All bets, with unique `(market_id, bettor)` keys.
    pub bets: Vec<BetRecord>,
}

/// Does `entry` carry the key `(market_id, who)`?
pub open spec fn bet_matches(entry: BetRecord, market_id: u64, who: Principal) -> bool {
    entry.market_id == market_id && entry.bettor == who
}

/// The contribution of `entry` to the pool of side `is_yes` of `market_id`.
pub open spec fn stake(entry: BetRecord, market_id: u64, is_yes: bool) -> int {
    if entry.market_id == market_id && entry.bet.is_yes == is_yes {
        entry.bet.amount as int
    } else {
        0
    }
}

/// Sum of the amounts of all bets on side `is_yes` of market `market_id`.
pub open spec fn side_sum(bets: Seq<BetRecord>, market_id: u64, is_yes: bool) -> int
    decreases bets.len(),
{
    if bets.len() == 0 {
        0
    } else {
        side_sum(bets.drop_last(), market_id, is_yes) + stake(bets.last(), market_id, is_yes)
    }
}

/// Sum of the amounts of all bets on market `market_id`, either side.
pub open spec fn market_stake_total(bets: Seq<BetRecord>, market_id: u64) -> int
    decreases bets.len(),
{
    if bets.len() == 0 {
        0
    } else {
        market_stake_total(bets.drop_last(), market_id) + (
        if bets.last().market_id == market_id {
            bets.last().bet.amount as int
        } else {
            0
        })
    }
}

/// No two entries share a `(market_id, bettor)` key.
pub open spec fn unique_bet_keys(bets: Seq<BetRecord>) -> bool {
    forall|k1: int, k2: int|
        #![trigger bets[k1], bets[k2]]
        0 <= k1 < k2 < bets.len() ==> !(bets[k1].market_id == bets[k2].market_id
            && bets[k1].bettor == bets[k2].bettor)
}

/// A market nobody has bet on has empty pools on both sides.
pub proof fn lemma_side_sum_no_bets(bets: Seq<BetRecord>, market_id: u64, is_yes: bool)
    requires
        forall|k: int| 0 <= k < bets.len() ==> (#[trigger] bets[k]).market_id != market_id,
    ensures
        side_sum(bets, market_id, is_yes) == 0,
    decreases bets.len(),
{
    if bets.len() > 0 {
        lemma_side_sum_no_bets(bets.drop_last(), market_id, is_yes);
    }
}

/// Appending one bet grows a side's sum by exactly that bet's contribution.
pub proof fn lemma_side_sum_push(bets: Seq<BetRecord>, entry: BetRecord, market_id: u64, is_yes: bool)
    ensures
        side_sum(bets.push(entry), market_id, is_yes) == side_sum(bets, market_id, is_yes)
            + stake(entry, market_id, is_yes),
{
    assert(bets.push(entry).drop_last() =~= bets);
}

/// Replacing a bet by one with the same market, side and amount leaves
/// every side's sum unchanged.
pub proof fn lemma_side_sum_update_same_stake(
    bets: Seq<BetRecord>,
    i: int,
    entry: BetRecord,
    market_id: u64,
    is_yes: bool,
)
    requires
        0 <= i < bets.len(),
        entry.market_id == bets[i].market_id,
        entry.bet.amount == bets[i].bet.amount,
        entry.bet.is_yes == bets[i].bet.is_yes,
    ensures
        side_sum(bets.update(i, entry), market_id, is_yes) == side_sum(bets, market_id, is_yes),
    decreases bets.len(),
{
    if i == bets.len() - 1 {
        assert(bets.update(i, entry).drop_last() =~= bets.drop_last());
    } else {
        assert(bets.update(i, entry).drop_last() =~= bets.drop_last().update(i, entry));
        lemma_side_sum_update_same_stake(bets.drop_last(), i, entry, market_id, is_yes);
    }
}

/// A side's sum is never negative.
pub proof fn lemma_side_sum_nonneg(bets: Seq<BetRecord>, market_id: u64, is_yes: bool)
    ensures
        side_sum(bets, market_id, is_yes) >= 0,
    decreases bets.len(),
{
    if bets.len() > 0 {
        lemma_side_sum_nonneg(bets.drop_last(), market_id, is_yes);
    }
}

/// Each single bet's amount is covered by the sum of its own side.
pub proof fn lemma_stake_le_side_sum(bets: Seq<BetRecord>, i: int, market_id: u64, is_yes: bool)
    requires
        0 <= i < bets.len(),
        bets[i].market_id == market_id,
        bets[i].bet.is_yes == is_yes,
    ensures
        side_sum(bets, market_id, is_yes) >= bets[i].bet.amount,
    decreases bets.len(),
{
    if i == bets.len() - 1 {
        lemma_side_sum_nonneg(bets.drop_last(), market_id, is_yes);
    } else {
        lemma_stake_le_side_sum(bets.drop_last(), i, market_id, is_yes);
    }
}

/// The total staked on a market is the sum of its two sides.
pub proof fn lemma_market_stake_split(bets: Seq<BetRecord>, market_id: u64)
    ensures
        market_stake_total(bets, market_id) == side_sum(bets, market_id, true) + side_sum(
            bets,
            market_id,
            false,
        ),
    decreases bets.len(),
{
    if bets.len() > 0 {
        lemma_market_stake_split(bets.drop_last(), market_id);
    }
}

impl PredictionMarket {
    /// The ledger's well-formedness invariant: dense sequential ids, the
    /// resolution flag mirrors the outcome's presence, each pool equals the
    /// sum of the amounts staked on its side, every bet points at an
    /// existing market, and bet keys are unique.
    pub open spec fn wf(self) -> bool {
        &&& self.next_market_id == self.markets@.len() + 1
        &&& forall|i: int|
            0 <= i < self.markets@.len() ==> (#[trigger] self.markets@[i]).id == i + 1
        &&& forall|i: int|
            0 <= i < self.markets@.len() ==> ((#[trigger] self.markets@[i]).resolved <==> self.markets@[i].outcome is Some)
        &&& forall|i: int|
            0 <= i < self.markets@.len() ==> (#[trigger] self.markets@[i]).yes_pool == side_sum(
                self.bets@,
                self.markets@[i].id,
                true,
            )
        &&& forall|i: int|
            0 <= i < self.markets@.len() ==> (#[trigger] self.markets@[i]).no_pool == side_sum(
                self.bets@,
                self.markets@[i].id,
                false,
            )
        &&& forall|k: int|
            0 <= k < self.bets@.len() ==> 1 <= (#[trigger] self.bets@[k]).market_id
                <= self.markets@.len()
        &&& unique_bet_keys(self.bets@)
    }

    /// Is there a market with this id?
    pub open spec fn has_market(self, market_id: u64) -> bool {
        1 <= market_id <= self.markets@.len()
    }

    /// The market with this id (meaningful only when `has_market`).
    pub open spec fn market_at(self, market_id: u64) -> Market {
        self.markets@[market_id - 1]
    }

    /// Has `who` a bet on `market_id`?
    pub open spec fn has_bet(self, market_id: u64, who: Principal) -> bool {
        exists|k: int|
            0 <= k < self.bets@.len() && bet_matches(#[trigger] self.bets@[k], market_id, who)
    }

    /// The index of `who`'s bet on `market_id` (meaningful only when
    /// `has_bet`; then unique under `wf`).
    pub open spec fn bet_index(self, market_id: u64, who: Principal) -> int {
        choose|k: int|
            0 <= k < self.bets@.len() && bet_matches(#[trigger] self.bets@[k], market_id, who)
    }

    /// `who`'s bet on `market_id` (meaningful only when `has_bet`).
    pub open spec fn bet_of(self, market_id: u64, who: Principal) -> Bet {
        self.bets@[self.bet_index(market_id, who)].bet
    }

    /// Under unique keys, any index carrying the key `(market_id, who)` is
    /// the one `bet_index` denotes, so the bet found there is `bet_of`.
    pub proof fn lemma_bet_index_is(self, market_id: u64, who: Principal, i: int)
        requires
            unique_bet_keys(self.bets@),
            0 <= i < self.bets@.len(),
            bet_matches(self.bets@[i], market_id, who),
        ensures
            self.has_bet(market_id, who),
            self.bet_index(market_id, who) == i,
            self.bet_of(market_id, who) == self.bets@[i].bet,
    {
        assert(self.has_bet(market_id, who));
        let k = self.bet_index(market_id, who);
        assert(0 <= k < self.bets@.len() && bet_matches(self.bets@[k], market_id, who));
        if k < i {
            assert(!(self.bets@[k].market_id == self.bets@[i].market_id && self.bets@[k].bettor
                == self.bets@[i].bettor));
        } else if i < k {
            assert(!(self.bets@[i].market_id == self.bets@[k].market_id && self.bets@[i].bettor
                == self.bets@[k].bettor));
        }
    }

    /// A fresh ledger: no markets, no bets, ids to be allocated from 1.
    pub fn new() -> (s: PredictionMarket)
        ensures
            s.wf(),
            s.next_market_id == 1,
            s.markets@.len() == 0,
            s.bets@.len() == 0,
    {
        PredictionMarket { next_market_id: 1, markets: Vec::new(), bets: Vec::new() }
    }
}

} // verus!
