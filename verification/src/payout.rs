//! The payout calculator: a pure pari-mutuel split. Winners divide the
//! whole pool (both sides) in proportion to their stake within the winning
//! side; the division rounds down, so dust may stay unclaimed forever.

use vstd::prelude::*;

use crate::state::{Bet, Market};
use crate::MarketError;

verus! {

/// `floor(amount * (yes_pool + no_pool) / winning_pool)` where the winning
/// pool is the side named by `outcome`; 0 if that side is empty (a guard
/// that no winning bet can ever reach, since a winning bet's own amount is
/// part of the winning pool).
pub open spec fn winnings_amount(amount: u128, yes_pool: u128, no_pool: u128, outcome: bool) -> int {
    let winning: int = if outcome {
        yes_pool as int
    } else {
        no_pool as int
    };
    if winning > 0 {
        (amount * (yes_pool + no_pool)) / winning
    } else {
        0
    }
}

/// The machine limit on computing a payout: the pools' total and the
/// widening product `amount * total` must fit in 128 bits (the host would
/// abort there).
pub open spec fn payout_fits(amount: u128, yes_pool: u128, no_pool: u128) -> bool {
    &&& yes_pool + no_pool <= u128::MAX
    &&& amount * (yes_pool + no_pool) <= u128::MAX
}

/// Computes what a bet on a resolved market pays out: `Loss` exactly when
/// the bet backed the losing side, otherwise the pari-mutuel share.
pub fn compute_winnings(bet: &Bet, market: &Market) -> (r: Result<u128, MarketError>)
    requires
        market.resolved,
        market.outcome is Some,
        bet.is_yes == market.outcome.unwrap() ==> payout_fits(
            bet.amount,
            market.yes_pool,
            market.no_pool,
        ),
    ensures
        r is Err <==> bet.is_yes != market.outcome.unwrap(),
        r is Err ==> r == Err::<u128, MarketError>(MarketError::Loss),
        r is Ok ==> r->Ok_0 as int == winnings_amount(
            bet.amount,
            market.yes_pool,
            market.no_pool,
            market.outcome.unwrap(),
        ),
{
    let outcome = market.outcome.unwrap();
    if bet.is_yes != outcome {
        return Err(MarketError::Loss);
    }
    let total = market.yes_pool + market.no_pool;
    let winning_pool = if outcome {
        market.yes_pool
    } else {
        market.no_pool
    };
    let winnings = if winning_pool > 0 {
        (bet.amount * total) / winning_pool
    } else {
        0
    };
    Ok(winnings)
}

} // verus!
