//! Tests of the read-only projection and the payout calculator.

use prediction_market::payout::compute_winnings;
use prediction_market::state::{Bet, Market, PredictionMarket, Principal};
use prediction_market::{BetInfo, MarketError};

const ALICE: Principal = Principal(1);
const BOB: Principal = Principal(2);

fn resolved_market(yes_pool: u128, no_pool: u128, outcome: bool) -> Market {
    Market {
        id: 1,
        question: "q".to_string(),
        creator: ALICE,
        yes_pool,
        no_pool,
        end_time: 0,
        resolved: true,
        outcome: Some(outcome),
    }
}

#[test]
fn percentages_are_truncated_shares_of_the_total() {
    let mut s = PredictionMarket::new();
    assert_eq!(s.create_market("split".to_string(), 0, ALICE), 1);
    assert_eq!(s.place_bet(1, true, 100, ALICE), Ok(()));
    assert_eq!(s.place_bet(1, false, 300, BOB), Ok(()));
    let info = s.market(1).expect("market 1 exists");
    assert_eq!(info.id, 1);
    assert_eq!(info.question, "split");
    assert_eq!(info.creator, ALICE);
    assert_eq!(info.yes_pool, 100);
    assert_eq!(info.no_pool, 300);
    assert_eq!(info.yes_percentage, 25);
    assert_eq!(info.no_percentage, 75);
    assert!(!info.resolved);
    assert_eq!(info.outcome, None);
}

#[test]
fn empty_market_shows_an_even_split() {
    let mut s = PredictionMarket::new();
    assert_eq!(s.create_market("empty".to_string(), 0, ALICE), 1);
    let info = s.market(1).expect("market 1 exists");
    assert_eq!(info.yes_percentage, 50);
    assert_eq!(info.no_percentage, 50);
}

#[test]
fn percentages_truncate_toward_zero() {
    let mut s = PredictionMarket::new();
    assert_eq!(s.create_market("thirds".to_string(), 0, ALICE), 1);
    assert_eq!(s.place_bet(1, true, 1, ALICE), Ok(()));
    assert_eq!(s.place_bet(1, false, 2, BOB), Ok(()));
    let info = s.market(1).expect("market 1 exists");
    // 1/3 and 2/3 of 100, both rounded down: 33 + 66 < 100
    assert_eq!(info.yes_percentage, 33);
    assert_eq!(info.no_percentage, 66);
}

#[test]
fn missing_market_projects_to_none() {
    let s = PredictionMarket::new();
    assert!(s.market(1).is_none());
    assert!(s.market(0).is_none());
}

#[test]
fn listing_covers_every_market_in_id_order() {
    let mut s = PredictionMarket::new();
    assert_eq!(s.create_market("one".to_string(), 1, ALICE), 1);
    assert_eq!(s.create_market("two".to_string(), 2, BOB), 2);
    assert_eq!(s.place_bet(2, true, 5, ALICE), Ok(()));
    let all = s.markets();
    assert_eq!(all.len(), 2);
    assert_eq!(all[0].id, 1);
    assert_eq!(all[0].question, "one");
    assert_eq!(all[0].yes_percentage, 50);
    assert_eq!(all[1].id, 2);
    assert_eq!(all[1].question, "two");
    assert_eq!(all[1].yes_percentage, 100);
    assert_eq!(all[1].no_percentage, 0);
}

#[test]
fn user_bet_returns_the_stored_record_or_nothing() {
    let mut s = PredictionMarket::new();
    assert_eq!(s.create_market("bets".to_string(), 0, ALICE), 1);
    assert_eq!(s.place_bet(1, false, 42, BOB), Ok(()));
    assert_eq!(
        s.user_bet(1, BOB),
        Some(BetInfo { amount: 42, is_yes: false, claimed: false })
    );
    assert_eq!(s.user_bet(1, ALICE), None);
    assert_eq!(s.user_bet(2, BOB), None);
}

#[test]
fn default_bet_is_empty_and_unclaimed() {
    let b = Bet::default();
    assert_eq!(b, Bet { amount: 0, is_yes: false, claimed: false });
}

#[test]
fn losing_bet_computes_to_loss_not_zero() {
    let bet = Bet { amount: 10, is_yes: false, claimed: false };
    let market = resolved_market(10, 10, true);
    assert_eq!(compute_winnings(&bet, &market), Err(MarketError::Loss));
}

#[test]
fn winning_bet_computes_its_parimutuel_share() {
    let bet = Bet { amount: 100, is_yes: true, claimed: false };
    let market = resolved_market(300, 50, true);
    // floor(100 * 350 / 300) = 116
    assert_eq!(compute_winnings(&bet, &market), Ok(116));
}

#[test]
fn empty_winning_pool_computes_to_zero() {
    // Unreachable through the ledger (a winning bet funds its own pool);
    // the calculator still answers 0 rather than dividing by zero.
    let bet = Bet { amount: 0, is_yes: true, claimed: false };
    let market = resolved_market(0, 0, true);
    assert_eq!(compute_winnings(&bet, &market), Ok(0));
}
