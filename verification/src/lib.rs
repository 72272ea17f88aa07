//! A binary-outcome prediction market: creation, wagering, resolution, and
//! pari-mutuel payout over a small in-memory ledger.
//!
//! The ledger ([`state::PredictionMarket`]) owns all persisted entities:
//! markets keyed by a sequentially allocated id, bets keyed by
//! `(market_id, principal)`, and the id-allocation counter. Every operation
//! is a verified state transition that preserves the ledger's well-formedness
//! invariant, chief among them conservation: each market's two pools always
//! sum to the total amount staked on that market.

use vstd::prelude::*;

pub mod contract;
pub mod laws;
pub mod payout;
pub mod service;
pub mod state;

use crate::state::Principal;

verus! {

/// The application binary interface marker for the prediction market.
pub struct PredictionMarketAbi;

/// Everything that can go wrong with an operation: a closed set of error
/// kinds, one per domain rule or storage failure.
#[derive(Clone, Copy, Debug, PartialEq, Eq, Structural)]
pub enum MarketError {
    /// No market with the given id exists.
    NotFound,
    /// The market's outcome is already finalized.
    AlreadyResolved,
    /// The market's outcome is not finalized yet.
    NotResolved,
    /// Only the market's creator may resolve it.
    Unauthorized,
    /// The caller already has a bet on this market.
    DuplicateBet,
    /// The caller has no bet on this market.
    NoBet,
    /// The winnings of this bet were already claimed.
    AlreadyClaimed,
    /// The bet backed the losing side; nothing to claim.
    Loss,
    /// The storage collaborator failed to read an entity; nothing was
    /// mutated. Never produced by the ledger itself, only by a host whose
    /// store can fail.
    ReadFailure,
}

/// Operations that can be executed on the prediction market.
#[derive(Clone, Debug)]
pub enum Operation {
    /// Create a new prediction market.
    CreateMarket { question: String, end_time: u64 },
    /// Place a bet on a market (YES or NO).
    PlaceBet { market_id: u64, is_yes: bool, amount: u128 },
    /// Resolve a market (only the creator can do this).
    ResolveMarket { market_id: u64, outcome: bool },
    /// Claim winnings from a resolved market.
    ClaimWinnings { market_id: u64 },
}

/// Response from executing one operation.
#[derive(Clone, Copy, Debug, PartialEq, Eq, Structural)]
pub enum OperationResponse {
    /// Market created successfully; carries the new market id.
    MarketCreated(u64),
    /// Bet placed successfully.
    BetPlaced,
    /// Market resolved successfully.
    MarketResolved,
    /// Winnings claimed successfully; carries the amount.
    WinningsClaimed(u128),
    /// The operation failed with the given error kind.
    Error(MarketError),
}

/// Market data for queries, with precomputed percentage splits.
#[derive(Clone, Debug, PartialEq)]
pub struct MarketInfo {
    pub id: u64,
    pub question: String,
    pub creator: Principal,
    pub yes_pool: u128,
    pub no_pool: u128,
    pub end_time: u64,
    pub resolved: bool,
    pub outcome: Option<bool>,
    /// `yes_pool * 100 / (yes_pool + no_pool)`, rounded down; 50 when empty.
    pub yes_percentage: u128,
    /// `no_pool * 100 / (yes_pool + no_pool)`, rounded down; 50 when empty.
    pub no_percentage: u128,
}

/// Bet data for queries.
#[derive(Clone, Copy, Debug, PartialEq, Eq, Structural)]
pub struct BetInfo {
    pub amount: u128,
    pub is_yes: bool,
    pub claimed: bool,
}

/// Input for placing a bet through a query front end.
#[derive(Clone, Debug, PartialEq)]
pub struct PlaceBetInput {
    pub market_id: u64,
    pub is_yes: bool,
    pub amount: u64,
}

/// Input for creating a market through a query front end.
#[derive(Clone, Debug, PartialEq)]
pub struct CreateMarketInput {
    pub question: String,
    pub end_time: u64,
}

} // verus!
