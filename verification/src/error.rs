//! The closed error taxonomy returned by every fallible operation.

use vstd::prelude::*;

verus! {

/// Error codes, grouped by category: market lifecycle, positions, oracle
/// attestation, input validation, authorization, token transfer, arithmetic.
#[derive(Clone, Copy, Debug, PartialEq, Eq, Structural)]
pub enum ContractError {
    /// The requested market does not exist in the registry.
    MarketNotFound,
    /// Attempted to resolve a market that has already been resolved.
    MarketAlreadyResolved,
    /// Attempted to settle positions before market resolution.
    MarketNotResolved,
    /// Market has passed its end time and is no longer active for trading.
    MarketExpired,
    /// Market is not in Active status (it is Resolved or Canceled).
    MarketNotActive,
    /// User does not have enough collateral locked for this operation.
    InsufficientCollateral,
    /// Attempted to settle a position that has already been settled.
    PositionAlreadySettled,
    /// No position exists for this user in this market.
    NoPositionFound,
    /// Share amount is invalid (negative where non-negative is required).
    InvalidShareAmount,
    /// Oracle signature verification failed.
    InvalidSignature,
    /// The presented key is not the authorized oracle for this market.
    UnauthorizedOracle,
    /// Resolution outcome value is invalid.
    InvalidOutcome,
    /// Price is out of the valid basis-point range.
    InvalidPrice,
    /// Quantity is invalid (must be positive and below the sanity ceiling).
    InvalidQuantity,
    /// Timestamp is invalid (end time in the past or too far in the future).
    InvalidTimestamp,
    /// Market question is invalid (empty or too long).
    InvalidQuestion,
    /// Caller is not authorized to perform this action.
    Unauthorized,
    /// Caller is not the admin for this operation.
    NotAdmin,
    /// Token transfer failed.
    TokenTransferFailed,
    /// Arithmetic operation overflowed.
    ArithmeticOverflow,
}

} // verus!
