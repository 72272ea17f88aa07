//! The operation surface of the ledger: market lifecycle, betting protocol,
//! and the dispatcher. Each operation is specified by an outcome function
//! (which error it returns on which states, if-and-only-if) and a transition
//! predicate (how the ledger after the call relates to the ledger before).

use vstd::prelude::*;

use crate::payout::{compute_winnings, payout_fits, winnings_amount};
use crate::state::{
    bet_matches, lemma_side_sum_no_bets, lemma_side_sum_push, lemma_side_sum_update_same_stake,
    side_sum, Bet, BetRecord, Market, PredictionMarket, Principal,
};
use crate::{MarketError, Operation, OperationResponse};

verus! {

/// The market record a successful `create_market` stores.
pub open spec fn new_market(
    id: u64,
    question: String,
    creator: Principal,
    end_time: u64,
) -> Market {
    Market {
        id,
        question,
        creator,
        yes_pool: 0,
        no_pool: 0,
        end_time,
        resolved: false,
        outcome: None,
    }
}

/// The market as it stands after a bet of `amount` on side `is_yes`.
pub open spec fn market_with_stake(m: Market, is_yes: bool, amount: u128) -> Market {
    Market {
        yes_pool: if is_yes {
            (m.yes_pool + amount) as u128
        } else {
            m.yes_pool
        },
        no_pool: if is_yes {
            m.no_pool
        } else {
            (m.no_pool + amount) as u128
        },
        ..m
    }
}

/// The market as it stands after resolution with `outcome`.
pub open spec fn market_resolved(m: Market, outcome: bool) -> Market {
    Market { resolved: true, outcome: Some(outcome), ..m }
}

/// The bet record as it stands after its winnings were claimed.
pub open spec fn claimed_record(r: BetRecord) -> BetRecord {
    BetRecord { bet: Bet { claimed: true, ..r.bet }, ..r }
}

/// Nothing in the ledger moved.
pub open spec fn ledger_unchanged(pre: PredictionMarket, post: PredictionMarket) -> bool {
    &&& post.next_market_id == pre.next_market_id
    &&& post.markets@ == pre.markets@
    &&& post.bets@ == pre.bets@
}

/// How a successful `create_market` changes the ledger: one market appended
/// with the allocated id and empty pools, the allocator advanced by one,
/// the bets untouched.
pub open spec fn create_market_transition(
    pre: PredictionMarket,
    post: PredictionMarket,
    question: String,
    end_time: u64,
    caller: Principal,
) -> bool {
    &&& post.next_market_id == pre.next_market_id + 1
    &&& post.markets@ == pre.markets@.push(
        new_market(pre.next_market_id, question, caller, end_time),
    )
    &&& post.bets@ == pre.bets@
}

/// Which result `place_bet` returns on which ledger, if and only if.
pub open spec fn place_bet_outcome(
    s: PredictionMarket,
    market_id: u64,
    caller: Principal,
) -> Result<(), MarketError> {
    if !s.has_market(market_id) {
        Err(MarketError::NotFound)
    } else if s.market_at(market_id).resolved {
        Err(MarketError::AlreadyResolved)
    } else if s.has_bet(market_id, caller) {
        Err(MarketError::DuplicateBet)
    } else {
        Ok(())
    }
}

/// The machine limit on `place_bet`: an accepted bet must not push its side's
/// pool past `u128::MAX` (the host would abort there).
pub open spec fn place_bet_fits(
    s: PredictionMarket,
    market_id: u64,
    is_yes: bool,
    amount: u128,
    caller: Principal,
) -> bool {
    place_bet_outcome(s, market_id, caller) is Ok ==> (if is_yes {
        s.market_at(market_id).yes_pool
    } else {
        s.market_at(market_id).no_pool
    }) + amount <= u128::MAX
}

/// How `place_bet` changes the ledger: on success the market's side pool
/// grows by the amount and exactly one bet record is appended — both
/// together, never one without the other; on any error nothing moves.
pub open spec fn place_bet_transition(
    pre: PredictionMarket,
    post: PredictionMarket,
    market_id: u64,
    is_yes: bool,
    amount: u128,
    caller: Principal,
) -> bool {
    if place_bet_outcome(pre, market_id, caller) is Ok {
        &&& post.next_market_id == pre.next_market_id
        &&& post.markets@ == pre.markets@.update(
            market_id - 1,
            market_with_stake(pre.market_at(market_id), is_yes, amount),
        )
        &&& post.bets@ == pre.bets@.push(
            BetRecord { market_id, bettor: caller, bet: Bet { amount, is_yes, claimed: false } },
        )
    } else {
        ledger_unchanged(pre, post)
    }
}

/// Which result `resolve_market` returns on which ledger, if and only if.
pub open spec fn resolve_market_outcome(
    s: PredictionMarket,
    market_id: u64,
    caller: Principal,
) -> Result<(), MarketError> {
    if !s.has_market(market_id) {
        Err(MarketError::NotFound)
    } else if s.market_at(market_id).resolved {
        Err(MarketError::AlreadyResolved)
    } else if s.market_at(market_id).creator != caller {
        Err(MarketError::Unauthorized)
    } else {
        Ok(())
    }
}

/// How `resolve_market` changes the ledger: on success only the named
/// market's resolution flag and outcome are set, irreversibly; on any error
/// nothing moves.
pub open spec fn resolve_market_transition(
    pre: PredictionMarket,
    post: PredictionMarket,
    market_id: u64,
    outcome: bool,
    caller: Principal,
) -> bool {
    if resolve_market_outcome(pre, market_id, caller) is Ok {
        &&& post.next_market_id == pre.next_market_id
        &&& post.markets@ == pre.markets@.update(
            market_id - 1,
            market_resolved(pre.market_at(market_id), outcome),
        )
        &&& post.bets@ == pre.bets@
    } else {
        ledger_unchanged(pre, post)
    }
}

/// Which result `claim_winnings` returns on which ledger, if and only if.
/// The checks run in this order: market existence, resolution, bet
/// existence, prior claim, then win or loss.
pub open spec fn claim_outcome(
    s: PredictionMarket,
    market_id: u64,
    caller: Principal,
) -> Result<u128, MarketError> {
    if !s.has_market(market_id) {
        Err(MarketError::NotFound)
    } else if !s.market_at(market_id).resolved {
        Err(MarketError::NotResolved)
    } else if !s.has_bet(market_id, caller) {
        Err(MarketError::NoBet)
    } else if s.bet_of(market_id, caller).claimed {
        Err(MarketError::AlreadyClaimed)
    } else if s.bet_of(market_id, caller).is_yes != s.market_at(market_id).outcome.unwrap() {
        Err(MarketError::Loss)
    } else {
        Ok(
            (winnings_amount(
                s.bet_of(market_id, caller).amount,
                s.market_at(market_id).yes_pool,
                s.market_at(market_id).no_pool,
                s.market_at(market_id).outcome.unwrap(),
            )) as u128,
        )
    }
}

/// The machine limit on `claim_winnings`: a winning claim computes
/// `amount * (yes_pool + no_pool)` in 128 bits (the host would abort there).
pub open spec fn claim_fits(s: PredictionMarket, market_id: u64, caller: Principal) -> bool {
    claim_outcome(s, market_id, caller) is Ok ==> payout_fits(
        s.bet_of(market_id, caller).amount,
        s.market_at(market_id).yes_pool,
        s.market_at(market_id).no_pool,
    )
}

/// How `claim_winnings` changes the ledger: on success only the caller's bet
/// record is replaced by the same bet with its claimed flag set; on any
/// error nothing moves.
pub open spec fn claim_transition(
    pre: PredictionMarket,
    post: PredictionMarket,
    market_id: u64,
    caller: Principal,
) -> bool {
    if claim_outcome(pre, market_id, caller) is Ok {
        &&& post.next_market_id == pre.next_market_id
        &&& post.markets@ == pre.markets@
        &&& post.bets@ == pre.bets@.update(
            pre.bet_index(market_id, caller),
            claimed_record(pre.bets@[pre.bet_index(market_id, caller)]),
        )
    } else {
        ledger_unchanged(pre, post)
    }
}

/// The machine limits of whichever operation is dispatched.
pub open spec fn op_fits(s: PredictionMarket, op: Operation, caller: Principal) -> bool {
    match op {
        Operation::CreateMarket { .. } => s.next_market_id < u64::MAX,
        Operation::PlaceBet { market_id, is_yes, amount } => place_bet_fits(
            s,
            market_id,
            is_yes,
            amount,
            caller,
        ),
        Operation::ResolveMarket { .. } => true,
        Operation::ClaimWinnings { market_id } => claim_fits(s, market_id, caller),
    }
}

/// The response `execute_operation` returns for each operation on each
/// ledger: the success acknowledgement of the routed handler, or its error.
pub open spec fn response_of(s: PredictionMarket, op: Operation, caller: Principal) -> OperationResponse {
    match op {
        Operation::CreateMarket { .. } => OperationResponse::MarketCreated(s.next_market_id),
        Operation::PlaceBet { market_id, .. } => match place_bet_outcome(s, market_id, caller) {
            Ok(_) => OperationResponse::BetPlaced,
            Err(e) => OperationResponse::Error(e),
        },
        Operation::ResolveMarket { market_id, .. } => match resolve_market_outcome(
            s,
            market_id,
            caller,
        ) {
            Ok(_) => OperationResponse::MarketResolved,
            Err(e) => OperationResponse::Error(e),
        },
        Operation::ClaimWinnings { market_id } => match claim_outcome(s, market_id, caller) {
            Ok(w) => OperationResponse::WinningsClaimed(w),
            Err(e) => OperationResponse::Error(e),
        },
    }
}

/// How `execute_operation` changes the ledger: exactly the transition of the
/// handler it routes to.
pub open spec fn op_transition(
    pre: PredictionMarket,
    post: PredictionMarket,
    op: Operation,
    caller: Principal,
) -> bool {
    match op {
        Operation::CreateMarket { question, end_time } => create_market_transition(
            pre,
            post,
            question,
            end_time,
            caller,
        ),
        Operation::PlaceBet { market_id, is_yes, amount } => place_bet_transition(
            pre,
            post,
            market_id,
            is_yes,
            amount,
            caller,
        ),
        Operation::ResolveMarket { market_id, outcome } => resolve_market_transition(
            pre,
            post,
            market_id,
            outcome,
            caller,
        ),
        Operation::ClaimWinnings { market_id } => claim_transition(pre, post, market_id, caller),
    }
}

impl PredictionMarket {
    /// Looks the caller's bet up by its compound key; returns its index.
    pub fn find_bet(&self, market_id: u64, who: Principal) -> (r: Option<usize>)
        ensures
            match r {
                Some(i) => i < self.bets@.len() && bet_matches(self.bets@[i as int], market_id, who),
                None => !self.has_bet(market_id, who),
            },
    {
        let n = self.bets.len();
        let mut i: usize = 0;
        while i < n
            invariant
                n == self.bets@.len(),
                i <= n,
                forall|j: int| 0 <= j < i ==> !bet_matches(#[trigger] self.bets@[j], market_id, who),
            decreases n - i,
        {
            let entry = &self.bets[i];
            if entry.market_id == market_id && entry.bettor == who {
                return Some(i);
            }
            i = i + 1;
        }
        None
    }

    /// Creates a market: allocates the next id, stores the market with empty
    /// pools under it, and advances the allocator by exactly one. Never
    /// fails; the question and the advisory end time are not validated.
    pub fn create_market(&mut self, question: String, end_time: u64, caller: Principal) -> (market_id: u64)
        requires
            old(self).wf(),
            old(self).next_market_id < u64::MAX,
        ensures
            final(self).wf(),
            market_id == old(self).next_market_id,
            create_market_transition(*old(self), *final(self), question, end_time, caller),
    {
        let market_id = self.next_market_id;
        let market = Market {
            id: market_id,
            question,
            creator: caller,
            yes_pool: 0,
            no_pool: 0,
            end_time,
            resolved: false,
            outcome: None,
        };
        self.markets.push(market);
        self.next_market_id = market_id + 1;
        proof {
            assert forall|k: int| 0 <= k < self.bets@.len() implies (#[trigger] self.bets@[k]).market_id
                != market_id by {
                assert(self.bets@[k].market_id <= old(self).markets@.len());
            }
            lemma_side_sum_no_bets(self.bets@, market_id, true);
            lemma_side_sum_no_bets(self.bets@, market_id, false);
        }
        market_id
    }

    /// Places a bet: checks that the market exists and is open and that the
    /// caller has not bet on it yet, then grows the chosen side's pool and
    /// records the bet, atomically. Returns exactly the error the outcome
    /// function names; on any error the ledger is untouched.
    pub fn place_bet(&mut self, market_id: u64, is_yes: bool, amount: u128, caller: Principal) -> (r:
        Result<(), MarketError>)
        requires
            old(self).wf(),
            place_bet_fits(*old(self), market_id, is_yes, amount, caller),
        ensures
            final(self).wf(),
            r == place_bet_outcome(*old(self), market_id, caller),
            place_bet_transition(*old(self), *final(self), market_id, is_yes, amount, caller),
            r is Err ==> *final(self) == *old(self),
            r is Ok ==> final(self).has_bet(market_id, caller) && final(self).bet_of(
                market_id,
                caller,
            ) == (Bet { amount, is_yes, claimed: false }),
    {
        if market_id == 0 || market_id > self.markets.len() as u64 {
            return Err(MarketError::NotFound);
        }
        let idx: usize = (market_id - 1) as usize;
        if self.markets[idx].resolved {
            return Err(MarketError::AlreadyResolved);
        }
        if self.find_bet(market_id, caller).is_some() {
            return Err(MarketError::DuplicateBet);
        }
        let market = &mut self.markets[idx];
        if is_yes {
            market.yes_pool = market.yes_pool + amount;
        } else {
            market.no_pool = market.no_pool + amount;
        }
        let entry = BetRecord { market_id, bettor: caller, bet: Bet { amount, is_yes, claimed: false } };
        self.bets.push(entry);
        proof {
            let pre = *old(self);
            assert(self.markets@ == pre.markets@.update(
                market_id - 1,
                market_with_stake(pre.market_at(market_id), is_yes, amount),
            ));
            assert forall|j: int|
                0 <= j < self.markets@.len() implies (#[trigger] self.markets@[j]).yes_pool
                == side_sum(self.bets@, self.markets@[j].id, true) && self.markets@[j].no_pool
                == side_sum(self.bets@, self.markets@[j].id, false) by {
                lemma_side_sum_push(pre.bets@, entry, self.markets@[j].id, true);
                lemma_side_sum_push(pre.bets@, entry, self.markets@[j].id, false);
            }
            self.lemma_bet_index_is(market_id, caller, self.bets@.len() - 1);
        }
        Ok(())
    }

    /// Resolves a market: only its creator may do so, only once. On success
    /// the outcome is finalized and the market frozen; on any error the
    /// ledger is untouched.
    pub fn resolve_market(&mut self, market_id: u64, outcome: bool, caller: Principal) -> (r:
        Result<(), MarketError>)
        requires
            old(self).wf(),
        ensures
            final(self).wf(),
            r == resolve_market_outcome(*old(self), market_id, caller),
            resolve_market_transition(*old(self), *final(self), market_id, outcome, caller),
            r is Err ==> *final(self) == *old(self),
            r is Ok ==> final(self).market_at(market_id).resolved && final(self).market_at(
                market_id,
            ).outcome == Some(outcome),
    {
        if market_id == 0 || market_id > self.markets.len() as u64 {
            return Err(MarketError::NotFound);
        }
        let idx: usize = (market_id - 1) as usize;
        if self.markets[idx].resolved {
            return Err(MarketError::AlreadyResolved);
        }
        if self.markets[idx].creator != caller {
            return Err(MarketError::Unauthorized);
        }
        let market = &mut self.markets[idx];
        market.resolved = true;
        market.outcome = Some(outcome);
        Ok(())
    }

    /// Claims the winnings of the caller's bet on a resolved market: pays
    /// the pari-mutuel share exactly once. On success only the bet's claimed
    /// flag moves; on any error the ledger is untouched. The winnings are
    /// reported, not disbursed: amounts are ledger data.
    pub fn claim_winnings(&mut self, market_id: u64, caller: Principal) -> (r: Result<
        u128,
        MarketError,
    >)
        requires
            old(self).wf(),
            claim_fits(*old(self), market_id, caller),
        ensures
            final(self).wf(),
            r == claim_outcome(*old(self), market_id, caller),
            claim_transition(*old(self), *final(self), market_id, caller),
            r is Err ==> *final(self) == *old(self),
            r is Ok ==> final(self).has_bet(market_id, caller) && final(self).bet_of(
                market_id,
                caller,
            ).claimed,
    {
        if market_id == 0 || market_id > self.markets.len() as u64 {
            return Err(MarketError::NotFound);
        }
        let idx: usize = (market_id - 1) as usize;
        if !self.markets[idx].resolved {
            return Err(MarketError::NotResolved);
        }
        let bet_i = match self.find_bet(market_id, caller) {
            Some(i) => i,
            None => {
                return Err(MarketError::NoBet);
            },
        };
        proof {
            self.lemma_bet_index_is(market_id, caller, bet_i as int);
        }
        let bet = self.bets[bet_i].bet;
        if bet.claimed {
            return Err(MarketError::AlreadyClaimed);
        }
        let winnings = match compute_winnings(&bet, &self.markets[idx]) {
            Ok(w) => w,
            Err(e) => {
                return Err(e);
            },
        };
        let rec = self.bets[bet_i];
        self.bets[bet_i] = BetRecord {
            market_id: rec.market_id,
            bettor: rec.bettor,
            bet: Bet { amount: rec.bet.amount, is_yes: rec.bet.is_yes, claimed: true },
        };
        proof {
            let pre = *old(self);
            assert(self.bets@ == pre.bets@.update(bet_i as int, claimed_record(pre.bets@[bet_i as int])));
            assert forall|j: int|
                0 <= j < self.markets@.len() implies (#[trigger] self.markets@[j]).yes_pool
                == side_sum(self.bets@, self.markets@[j].id, true) && self.markets@[j].no_pool
                == side_sum(self.bets@, self.markets@[j].id, false) by {
                lemma_side_sum_update_same_stake(
                    pre.bets@,
                    bet_i as int,
                    self.bets@[bet_i as int],
                    self.markets@[j].id,
                    true,
                );
                lemma_side_sum_update_same_stake(
                    pre.bets@,
                    bet_i as int,
                    self.bets@[bet_i as int],
                    self.markets@[j].id,
                    false,
                );
            }
            self.lemma_bet_index_is(market_id, caller, bet_i as int);
        }
        Ok(winnings)
    }

    /// Routes one operation to its handler. The hosting runtime calls this
    /// with the authenticated caller, one operation at a time; every write
    /// the handler makes commits with the operation as one unit.
    pub fn execute_operation(&mut self, operation: Operation, caller: Principal) -> (r:
        OperationResponse)
        requires
            old(self).wf(),
            op_fits(*old(self), operation, caller),
        ensures
            final(self).wf(),
            r == response_of(*old(self), operation, caller),
            op_transition(*old(self), *final(self), operation, caller),
    {
        match operation {
            Operation::CreateMarket { question, end_time } => {
                let id = self.create_market(question, end_time, caller);
                OperationResponse::MarketCreated(id)
            },
            Operation::PlaceBet { market_id, is_yes, amount } => {
                match self.place_bet(market_id, is_yes, amount, caller) {
                    Ok(_) => OperationResponse::BetPlaced,
                    Err(e) => OperationResponse::Error(e),
                }
            },
            Operation::ResolveMarket { market_id, outcome } => {
                match self.resolve_market(market_id, outcome, caller) {
                    Ok(_) => OperationResponse::MarketResolved,
                    Err(e) => OperationResponse::Error(e),
                }
            },
            Operation::ClaimWinnings { market_id } => {
                match self.claim_winnings(market_id, caller) {
                    Ok(w) => OperationResponse::WinningsClaimed(w),
                    Err(e) => OperationResponse::Error(e),
                }
            },
        }
    }
}

} // verus!
