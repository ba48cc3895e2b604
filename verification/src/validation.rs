//! Pure validation predicates over amounts, timestamps, question text,
//! share balances and outcome values.

use vstd::prelude::*;
use vstd::string::StrSliceExecFns;

use crate::error::ContractError;

verus! {

/// Upper bound on how far in the future a market may close: one year,
/// in seconds.
pub const ONE_YEAR_SECONDS: u64 = 31_536_000;

/// Sanity ceiling for a single collateral amount: half of `i128::MAX`,
/// far below the arithmetic type's maximum to leave headroom for later
/// additions.
pub const MAX_REASONABLE_AMOUNT: i128 = 85_070_591_730_234_615_865_843_651_857_942_052_863;

/// The exact acceptance rule for market-creation parameters.
pub open spec fn spec_validate_market_creation(
    question: Seq<char>,
    end_time: u64,
    current_time: u64,
) -> Result<(), ContractError> {
    if question.len() == 0 {
        Err(ContractError::InvalidQuestion)
    } else if question.len() >= 500 {
        Err(ContractError::InvalidQuestion)
    } else if end_time <= current_time {
        Err(ContractError::InvalidTimestamp)
    } else if end_time > current_time + ONE_YEAR_SECONDS {
        Err(ContractError::InvalidTimestamp)
    } else {
        Ok(())
    }
}

/// Validates market creation parameters: the question must be 1 to 499
/// characters, and the end time must lie strictly after the current time
/// but no more than one year ahead.
pub fn validate_market_creation(question: &String, end_time: u64, current_time: u64) -> (r: Result<
    (),
    ContractError,
>)
    ensures
        r == spec_validate_market_creation(question@, end_time, current_time),
{
    let len = question.as_str().unicode_len();
    if len == 0 {
        return Err(ContractError::InvalidQuestion);
    }
    if len >= 500 {
        return Err(ContractError::InvalidQuestion);
    }
    if end_time <= current_time {
        return Err(ContractError::InvalidTimestamp);
    }
    // Checked as a difference so the comparison cannot overflow.
    if end_time - current_time > ONE_YEAR_SECONDS {
        return Err(ContractError::InvalidTimestamp);
    }
    Ok(())
}

/// The exact acceptance rule for a single collateral amount.
pub open spec fn spec_validate_collateral_amount(amount: i128) -> Result<(), ContractError> {
    if amount <= 0 {
        Err(ContractError::InvalidQuantity)
    } else if amount > MAX_REASONABLE_AMOUNT {
        Err(ContractError::InvalidQuantity)
    } else {
        Ok(())
    }
}

/// Validates a collateral amount: it must be positive and at most the
/// sanity ceiling.
pub fn validate_collateral_amount(amount: i128) -> (r: Result<(), ContractError>)
    ensures
        r == spec_validate_collateral_amount(amount),
        r is Ok <==> 0 < amount <= MAX_REASONABLE_AMOUNT,
{
    if amount <= 0 {
        return Err(ContractError::InvalidQuantity);
    }
    if amount > MAX_REASONABLE_AMOUNT {
        return Err(ContractError::InvalidQuantity);
    }
    Ok(())
}

/// The exact acceptance rule for a pair of share balances.
pub open spec fn spec_validate_shares(yes_shares: i128, no_shares: i128) -> Result<
    (),
    ContractError,
> {
    if yes_shares < 0 || no_shares < 0 {
        Err(ContractError::InvalidShareAmount)
    } else if yes_shares == 0 && no_shares == 0 {
        Err(ContractError::InvalidShareAmount)
    } else {
        Ok(())
    }
}

/// Validates share balances: both must be non-negative and at least one
/// must be positive.
pub fn validate_shares(yes_shares: i128, no_shares: i128) -> (r: Result<(), ContractError>)
    ensures
        r == spec_validate_shares(yes_shares, no_shares),
        r is Ok <==> (yes_shares >= 0 && no_shares >= 0 && (yes_shares > 0 || no_shares > 0)),
{
    if yes_shares < 0 || no_shares < 0 {
        return Err(ContractError::InvalidShareAmount);
    }
    if yes_shares == 0 && no_shares == 0 {
        return Err(ContractError::InvalidShareAmount);
    }
    Ok(())
}

/// Validates an outcome value. A boolean is always a valid outcome; the
/// function is kept for interface consistency.
pub fn validate_outcome(outcome: bool) -> (r: Result<(), ContractError>)
    ensures
        r == Ok::<(), ContractError>(()),
{
    let _ = outcome;
    Ok(())
}

} // verus!
