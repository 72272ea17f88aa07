//! End-to-end tests of the operation surface: id allocation, betting,
//! resolution, claiming, and the dispatcher.

use prediction_market::state::{PredictionMarket, Principal};
use prediction_market::{MarketError, Operation, OperationResponse};

const ALICE: Principal = Principal(1);
const BOB: Principal = Principal(2);
const CAROL: Principal = Principal(3);

fn market_with_creator(creator: Principal) -> PredictionMarket {
    let mut s = PredictionMarket::new();
    let id = s.create_market("Will it rain tomorrow?".to_string(), 1_700_000_000, creator);
    assert_eq!(id, 1);
    s
}

#[test]
fn ids_start_at_one_and_increase_by_one() {
    let mut s = PredictionMarket::new();
    assert_eq!(s.next_market_id, 1);
    let a = s.create_market("first".to_string(), 10, ALICE);
    let b = s.create_market("second".to_string(), 20, BOB);
    let c = s.create_market("third".to_string(), 30, ALICE);
    assert_eq!((a, b, c), (1, 2, 3));
    assert_eq!(s.next_market_id, 4);
    assert_eq!(s.markets.len(), 3);
    for (i, m) in s.markets.iter().enumerate() {
        assert_eq!(m.id as usize, i + 1);
    }
}

#[test]
fn created_market_starts_open_and_empty() {
    let s = market_with_creator(ALICE);
    let m = &s.markets[0];
    assert_eq!(m.id, 1);
    assert_eq!(m.question, "Will it rain tomorrow?");
    assert_eq!(m.creator, ALICE);
    assert_eq!(m.yes_pool, 0);
    assert_eq!(m.no_pool, 0);
    assert_eq!(m.end_time, 1_700_000_000);
    assert!(!m.resolved);
    assert_eq!(m.outcome, None);
}

#[test]
fn pools_always_sum_to_total_staked() {
    let mut s = market_with_creator(ALICE);
    assert_eq!(s.place_bet(1, true, 100, ALICE), Ok(()));
    assert_eq!(s.place_bet(1, false, 300, BOB), Ok(()));
    assert_eq!(s.place_bet(1, true, 250, CAROL), Ok(()));
    let m = &s.markets[0];
    assert_eq!(m.yes_pool, 350);
    assert_eq!(m.no_pool, 300);
    let staked: u128 = s.bets.iter().filter(|b| b.market_id == 1).map(|b| b.bet.amount).sum();
    assert_eq!(m.yes_pool + m.no_pool, staked);
}

#[test]
fn second_bet_on_same_market_is_rejected_and_changes_nothing() {
    let mut s = market_with_creator(ALICE);
    assert_eq!(s.place_bet(1, true, 100, BOB), Ok(()));
    let r = s.place_bet(1, false, 999, BOB);
    assert_eq!(r, Err(MarketError::DuplicateBet));
    assert_eq!(s.markets[0].yes_pool, 100);
    assert_eq!(s.markets[0].no_pool, 0);
    assert_eq!(s.bets.len(), 1);
    assert_eq!(s.bets[0].bet.amount, 100);
    assert!(s.bets[0].bet.is_yes);
}

#[test]
fn bet_on_missing_market_is_not_found() {
    let mut s = market_with_creator(ALICE);
    assert_eq!(s.place_bet(2, true, 10, BOB), Err(MarketError::NotFound));
    assert_eq!(s.place_bet(0, true, 10, BOB), Err(MarketError::NotFound));
}

#[test]
fn bet_on_resolved_market_is_rejected() {
    let mut s = market_with_creator(ALICE);
    assert_eq!(s.resolve_market(1, true, ALICE), Ok(()));
    assert_eq!(s.place_bet(1, true, 10, BOB), Err(MarketError::AlreadyResolved));
    assert_eq!(s.bets.len(), 0);
}

#[test]
fn only_creator_resolves_and_only_once() {
    let mut s = market_with_creator(ALICE);
    assert_eq!(s.resolve_market(1, true, BOB), Err(MarketError::Unauthorized));
    assert!(!s.markets[0].resolved);
    assert_eq!(s.resolve_market(1, true, ALICE), Ok(()));
    assert!(s.markets[0].resolved);
    assert_eq!(s.markets[0].outcome, Some(true));
    assert_eq!(s.resolve_market(1, false, ALICE), Err(MarketError::AlreadyResolved));
    assert_eq!(s.resolve_market(1, false, BOB), Err(MarketError::AlreadyResolved));
    assert_eq!(s.markets[0].outcome, Some(true));
    assert_eq!(s.resolve_market(9, true, ALICE), Err(MarketError::NotFound));
}

#[test]
fn claim_is_exactly_once() {
    let mut s = market_with_creator(ALICE);
    assert_eq!(s.place_bet(1, true, 100, ALICE), Ok(()));
    assert_eq!(s.place_bet(1, false, 300, BOB), Ok(()));
    assert_eq!(s.resolve_market(1, true, ALICE), Ok(()));
    assert_eq!(s.claim_winnings(1, ALICE), Ok(400));
    assert_eq!(s.claim_winnings(1, ALICE), Err(MarketError::AlreadyClaimed));
    assert_eq!(s.markets[0].yes_pool, 100);
    assert_eq!(s.markets[0].no_pool, 300);
    assert!(s.bets[0].bet.claimed);
}

#[test]
fn scenario_yes_outcome_pays_yes_bettor_in_full() {
    let mut s = PredictionMarket::new();
    let id = s.create_market("scenario".to_string(), 5, CAROL);
    assert_eq!(id, 1);
    assert_eq!(s.place_bet(1, true, 100, ALICE), Ok(()));
    assert_eq!(s.place_bet(1, false, 300, BOB), Ok(()));
    assert_eq!(s.resolve_market(1, true, CAROL), Ok(()));
    // floor(100 * 400 / 100) = 400
    assert_eq!(s.claim_winnings(1, ALICE), Ok(400));
    assert_eq!(s.claim_winnings(1, BOB), Err(MarketError::Loss));
}

#[test]
fn scenario_no_outcome_pays_no_bettor_in_full() {
    let mut s = PredictionMarket::new();
    let id = s.create_market("scenario".to_string(), 5, CAROL);
    assert_eq!(id, 1);
    assert_eq!(s.place_bet(1, true, 100, ALICE), Ok(()));
    assert_eq!(s.place_bet(1, false, 300, BOB), Ok(()));
    assert_eq!(s.resolve_market(1, false, CAROL), Ok(()));
    // floor(300 * 400 / 300) = 400
    assert_eq!(s.claim_winnings(1, BOB), Ok(400));
    assert_eq!(s.claim_winnings(1, ALICE), Err(MarketError::Loss));
}

#[test]
fn scenario_premature_claim_missing_bet_and_wrong_resolver() {
    let mut s = market_with_creator(ALICE);
    assert_eq!(s.place_bet(1, true, 100, BOB), Ok(()));
    assert_eq!(s.claim_winnings(1, BOB), Err(MarketError::NotResolved));
    assert_eq!(s.resolve_market(1, true, BOB), Err(MarketError::Unauthorized));
    assert_eq!(s.resolve_market(1, true, ALICE), Ok(()));
    assert_eq!(s.claim_winnings(1, CAROL), Err(MarketError::NoBet));
    assert_eq!(s.claim_winnings(9, BOB), Err(MarketError::NotFound));
}

#[test]
fn truncating_division_leaves_dust_unclaimed() {
    let mut s = market_with_creator(CAROL);
    assert_eq!(s.place_bet(1, true, 100, ALICE), Ok(()));
    assert_eq!(s.place_bet(1, true, 200, BOB), Ok(()));
    assert_eq!(s.place_bet(1, false, 50, CAROL), Ok(()));
    assert_eq!(s.resolve_market(1, true, CAROL), Ok(()));
    // total 350, winning pool 300: floor(100*350/300) = 116, floor(200*350/300) = 233
    assert_eq!(s.claim_winnings(1, ALICE), Ok(116));
    assert_eq!(s.claim_winnings(1, BOB), Ok(233));
    // 116 + 233 = 349: one unit of dust stays in the ledger forever
    assert_eq!(s.claim_winnings(1, CAROL), Err(MarketError::Loss));
}

#[test]
fn bets_on_different_markets_are_independent() {
    let mut s = PredictionMarket::new();
    assert_eq!(s.create_market("one".to_string(), 1, ALICE), 1);
    assert_eq!(s.create_market("two".to_string(), 2, ALICE), 2);
    assert_eq!(s.place_bet(1, true, 10, BOB), Ok(()));
    assert_eq!(s.place_bet(2, false, 20, BOB), Ok(()));
    assert_eq!(s.markets[0].yes_pool, 10);
    assert_eq!(s.markets[1].no_pool, 20);
    assert_eq!(s.resolve_market(1, true, ALICE), Ok(()));
    assert_eq!(s.claim_winnings(1, BOB), Ok(10));
    assert_eq!(s.claim_winnings(2, BOB), Err(MarketError::NotResolved));
}

#[test]
fn dispatcher_routes_and_reports_like_the_handlers() {
    let mut s = PredictionMarket::new();
    let r = s.execute_operation(
        Operation::CreateMarket { question: "via dispatch".to_string(), end_time: 9 },
        ALICE,
    );
    assert_eq!(r, OperationResponse::MarketCreated(1));
    let r = s.execute_operation(
        Operation::PlaceBet { market_id: 1, is_yes: true, amount: 40 },
        BOB,
    );
    assert_eq!(r, OperationResponse::BetPlaced);
    let r = s.execute_operation(
        Operation::PlaceBet { market_id: 1, is_yes: true, amount: 1 },
        BOB,
    );
    assert_eq!(r, OperationResponse::Error(MarketError::DuplicateBet));
    let r = s.execute_operation(Operation::ResolveMarket { market_id: 1, outcome: true }, ALICE);
    assert_eq!(r, OperationResponse::MarketResolved);
    let r = s.execute_operation(Operation::ClaimWinnings { market_id: 1 }, BOB);
    assert_eq!(r, OperationResponse::WinningsClaimed(40));
    let r = s.execute_operation(Operation::ClaimWinnings { market_id: 1 }, BOB);
    assert_eq!(r, OperationResponse::Error(MarketError::AlreadyClaimed));
    let r = s.execute_operation(Operation::ClaimWinnings { market_id: 7 }, BOB);
    assert_eq!(r, OperationResponse::Error(MarketError::NotFound));
}
