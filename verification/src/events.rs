//! Event payloads published after each state change. Publishing is
//! fire-and-forget and belongs to the host's notification sink; the
//! library defines the payloads so that adapters and the core agree on
//! what each event carries.

use vstd::prelude::*;

use crate::types::Address;

verus! {

/// Published when a market is created.
#[derive(Debug, PartialEq, Eq)]
pub struct MarketCreatedEvent {
    pub market_id: u32,
    pub question: String,
    pub end_time: u64,
}

/// Published when collateral is deposited; `new_total` is the
/// depositor's locked collateral in the market after the deposit.
#[derive(Clone, Copy, Debug, PartialEq, Eq, Structural)]
pub struct CollateralDepositedEvent {
    pub user: Address,
    pub market_id: u32,
    pub amount: i128,
    pub new_total: i128,
}

/// Published when collateral is withdrawn; `new_total` is the user's
/// locked collateral in the market after the withdrawal.
#[derive(Clone, Copy, Debug, PartialEq, Eq, Structural)]
pub struct CollateralWithdrawnEvent {
    pub user: Address,
    pub market_id: u32,
    pub amount: i128,
    pub new_total: i128,
}

/// Published when a market is resolved with an attested outcome.
#[derive(Clone, Copy, Debug, PartialEq, Eq, Structural)]
pub struct MarketResolvedEvent {
    pub market_id: u32,
    pub outcome: bool,
    pub resolved_at: u64,
}

/// Published when a user's share position changes.
#[derive(Clone, Copy, Debug, PartialEq, Eq, Structural)]
pub struct PositionUpdatedEvent {
    pub market_id: u32,
    pub user: Address,
    pub yes_shares: i128,
    pub no_shares: i128,
    pub locked_collateral: i128,
}

/// Published when a position is settled for a payout.
#[derive(Clone, Copy, Debug, PartialEq, Eq, Structural)]
pub struct PositionSettledEvent {
    pub market_id: u32,
    pub user: Address,
    pub payout: i128,
    pub settled_at: u64,
}

} // verus!
