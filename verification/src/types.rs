//! Core data model: principals, market lifecycle states, markets, positions.

use vstd::prelude::*;

verus! {

/// Opaque principal identifier. It stands in for an on-ledger account
/// address: the core only ever compares principals for equality, so a
/// single opaque number carries everything the logic reads.
#[derive(Clone, Copy, Debug, PartialEq, Eq, Structural)]
pub struct Address {
    pub id: u64,
}

/// The possible states of a prediction market. `Active` is the initial
/// state; `Resolved` and `Canceled` are terminal.
#[derive(Clone, Copy, Debug, PartialEq, Eq, Structural)]
pub enum MarketStatus {
    Active,
    Resolved,
    Canceled,
}

/// Core record holding all relevant information for one market.
#[derive(Debug)]
pub struct Market {
    /// Unique identifier, allocated from a monotonic counter.
    pub id: u32,
    /// The market question, 1 to 499 characters.
    pub question: String,
    /// Epoch seconds at which the market closes for trading.
    pub end_time: u64,
    /// Ed25519 verification key of the authorized oracle.
    pub oracle_pubkey: [u8; 32],
    pub status: MarketStatus,
    /// The outcome; present exactly when the market is resolved.
    pub result: Option<bool>,
    pub creator: Address,
    /// Epoch seconds at which the market was created.
    pub created_at: u64,
    /// Reference to the external token held as collateral.
    pub collateral_token: Address,
    /// Running sum of net deposits into this market, never negative.
    pub total_collateral: i128,
}

impl Market {
    /// Well-formedness: the outcome is recorded exactly on resolved
    /// markets and the collateral sum is non-negative.
    pub open spec fn wf(self) -> bool {
        &&& self.result is Some <==> self.status == MarketStatus::Resolved
        &&& self.total_collateral >= 0
    }

    /// A copy of this market with a different collateral total and
    /// every other attribute unchanged.
    pub fn with_total_collateral(&self, total_collateral: i128) -> (m: Market)
        ensures
            m == (Market { total_collateral, ..*self }),
    {
        Market {
            id: self.id,
            question: self.question.clone(),
            end_time: self.end_time,
            oracle_pubkey: self.oracle_pubkey,
            status: self.status,
            result: self.result,
            creator: self.creator,
            created_at: self.created_at,
            collateral_token: self.collateral_token,
            total_collateral,
        }
    }

    /// A copy of this market resolved with the given outcome and every
    /// other attribute unchanged.
    pub fn with_resolution(&self, outcome: bool) -> (m: Market)
        ensures
            m == (Market {
                status: MarketStatus::Resolved,
                result: Some(outcome),
                ..*self
            }),
    {
        Market {
            id: self.id,
            question: self.question.clone(),
            end_time: self.end_time,
            oracle_pubkey: self.oracle_pubkey,
            status: MarketStatus::Resolved,
            result: Some(outcome),
            creator: self.creator,
            created_at: self.created_at,
            collateral_token: self.collateral_token,
            total_collateral: self.total_collateral,
        }
    }
}

/// Share balances and locked collateral of one user in one market.
#[derive(Clone, Copy, Debug, PartialEq, Eq, Structural)]
pub struct Position {
    pub market_id: u32,
    pub user: Address,
    pub yes_shares: i128,
    pub no_shares: i128,
    pub locked_collateral: i128,
    /// One-way latch: set by settlement, never cleared.
    pub is_settled: bool,
}

impl Position {
    /// A fresh position for a (market, user) pair, all balances zero.
    pub fn new(market_id: u32, user: Address) -> (p: Position)
        ensures
            p == Position::spec_new(market_id, user),
    {
        Position {
            market_id,
            user,
            yes_shares: 0,
            no_shares: 0,
            locked_collateral: 0,
            is_settled: false,
        }
    }

    pub open spec fn spec_new(market_id: u32, user: Address) -> Position {
        Position {
            market_id,
            user,
            yes_shares: 0,
            no_shares: 0,
            locked_collateral: 0,
            is_settled: false,
        }
    }

    /// Well-formedness: balances are never negative.
    pub open spec fn wf(self) -> bool {
        &&& self.yes_shares >= 0
        &&& self.no_shares >= 0
        &&& self.locked_collateral >= 0
    }
}

} // verus!
