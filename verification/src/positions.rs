//! Share positions and the locked-collateral formula: only the net
//! directional exposure of a position requires collateral.

use vstd::prelude::*;

use crate::error::ContractError;
use crate::types::{Address, Market, MarketStatus, Position};
use crate::MarketContract;

verus! {

/// Price unit: basis points, 0 to 10,000 representing probability 0% to
/// 100%.
pub const BASIS_POINTS: i128 = 10_000;

/// The locked-collateral formula. A fully hedged position locks
/// nothing; a net-YES position locks `floor(net * price / 10_000)`; a
/// net-NO position locks the same with the complementary price.
/// Division truncates, which under-collateralizes by at most one unit.
pub open spec fn spec_locked_collateral(yes_shares: int, no_shares: int, market_price: int) -> int {
    if yes_shares == no_shares {
        0
    } else if yes_shares > no_shares {
        (yes_shares - no_shares) * market_price / (BASIS_POINTS as int)
    } else {
        (no_shares - yes_shares) * (BASIS_POINTS as int - market_price) / (BASIS_POINTS as int)
    }
}

/// The multiplication in the locked-collateral formula stays within the
/// arithmetic type.
pub open spec fn spec_locked_fits(yes_shares: int, no_shares: int, market_price: int) -> bool {
    &&& yes_shares > no_shares ==> (yes_shares - no_shares) * market_price <= i128::MAX
    &&& no_shares > yes_shares ==> (no_shares - yes_shares) * (BASIS_POINTS as int - market_price)
        <= i128::MAX
}

/// Swapping the two sides of a position while complementing the price
/// leaves the locked collateral unchanged.
pub proof fn lemma_locked_collateral_symmetry(yes_shares: int, no_shares: int, market_price: int)
    ensures
        spec_locked_collateral(yes_shares, no_shares, market_price) == spec_locked_collateral(
            no_shares,
            yes_shares,
            (BASIS_POINTS as int) - market_price,
        ),
{
}

/// A fully hedged position locks no collateral, whatever the price.
pub proof fn lemma_locked_collateral_hedged(shares: int, market_price: int)
    ensures
        spec_locked_collateral(shares, shares, market_price) == 0,
{
}

/// Calculates the collateral a position must lock, from its share
/// balances and the market price in basis points.
pub fn calculate_locked_collateral(yes_shares: i128, no_shares: i128, market_price: i128) -> (r:
    i128)
    requires
        0 <= yes_shares,
        0 <= no_shares,
        0 <= market_price <= BASIS_POINTS,
        spec_locked_fits(yes_shares as int, no_shares as int, market_price as int),
    ensures
        r == spec_locked_collateral(yes_shares as int, no_shares as int, market_price as int),
        r >= 0,
{
    if yes_shares == no_shares {
        return 0;
    }
    if yes_shares > no_shares {
        let net_yes = yes_shares - no_shares;
        proof {
            vstd::arithmetic::mul::lemma_mul_nonnegative(net_yes as int, market_price as int);
        }
        net_yes * market_price / BASIS_POINTS
    } else {
        let net_no = no_shares - yes_shares;
        let inverse_price = BASIS_POINTS - market_price;
        proof {
            vstd::arithmetic::mul::lemma_mul_nonnegative(net_no as int, inverse_price as int);
        }
        net_no * inverse_price / BASIS_POINTS
    }
}

/// The exact acceptance rule for a proposed share change: both balances
/// must remain non-negative after applying the deltas.
pub open spec fn spec_validate_position_change(p: Position, yes_delta: int, no_delta: int) -> Result<
    (),
    ContractError,
> {
    if p.yes_shares + yes_delta < 0 || p.no_shares + no_delta < 0 {
        Err(ContractError::InvalidShareAmount)
    } else {
        Ok(())
    }
}

/// Validates whether a proposed position change is allowed.
pub fn validate_position_change(current_position: &Position, yes_delta: i128, no_delta: i128) -> (r:
    Result<(), ContractError>)
    requires
        current_position.yes_shares + yes_delta <= i128::MAX,
        current_position.no_shares + no_delta <= i128::MAX,
        i128::MIN <= current_position.yes_shares + yes_delta,
        i128::MIN <= current_position.no_shares + no_delta,
    ensures
        r == spec_validate_position_change(*current_position, yes_delta as int, no_delta as int),
{
    let new_yes = current_position.yes_shares + yes_delta;
    let new_no = current_position.no_shares + no_delta;
    if new_yes < 0 || new_no < 0 {
        return Err(ContractError::InvalidShareAmount);
    }
    Ok(())
}

/// A position after applying share deltas and recomputing the locked
/// collateral at the given price. The settlement latch is untouched.
pub open spec fn spec_updated_position(
    p: Position,
    yes_delta: int,
    no_delta: int,
    market_price: int,
) -> Position {
    Position {
        yes_shares: (p.yes_shares + yes_delta) as i128,
        no_shares: (p.no_shares + no_delta) as i128,
        locked_collateral: spec_locked_collateral(
            p.yes_shares + yes_delta,
            p.no_shares + no_delta,
            market_price,
        ) as i128,
        ..p
    }
}

/// The exact result of a position update: the share deltas are applied
/// to the stored position (or to a fresh all-zero one) unless a balance
/// would go negative.
pub open spec fn spec_update_position_result(
    s: MarketContract,
    market_id: u32,
    user: Address,
    yes_delta: int,
    no_delta: int,
    market_price: int,
) -> Result<Position, ContractError> {
    let p = s.spec_position_or_new(market_id, user);
    match spec_validate_position_change(p, yes_delta, no_delta) {
        Err(e) => Err(e),
        Ok(_) => Ok(spec_updated_position(p, yes_delta, no_delta, market_price)),
    }
}

/// The arithmetic in a position update stays within the arithmetic
/// type: the new balances fit, and so does the locked-collateral
/// product once both balances are known to be non-negative.
pub open spec fn spec_update_position_fits(
    s: MarketContract,
    market_id: u32,
    user: Address,
    yes_delta: int,
    no_delta: int,
    market_price: int,
) -> bool {
    let p = s.spec_position_or_new(market_id, user);
    &&& p.yes_shares + yes_delta <= i128::MAX
    &&& p.no_shares + no_delta <= i128::MAX
    &&& (p.yes_shares + yes_delta >= 0 && p.no_shares + no_delta >= 0) ==> spec_locked_fits(
        p.yes_shares + yes_delta,
        p.no_shares + no_delta,
        market_price,
    )
}

/// Updates a user's position with new share deltas: the single choke
/// point through which all share-balance changes flow. Loads or lazily
/// creates the position, validates the deltas, applies them, recomputes
/// the locked collateral at the given price, and persists the result.
pub fn update_position(
    state: &mut MarketContract,
    market_id: u32,
    user: Address,
    yes_delta: i128,
    no_delta: i128,
    market_price: i128,
) -> (r: Result<Position, ContractError>)
    requires
        old(state).wf(),
        0 <= market_price <= BASIS_POINTS,
        spec_update_position_fits(
            *old(state),
            market_id,
            user,
            yes_delta as int,
            no_delta as int,
            market_price as int,
        ),
    ensures
        final(state).wf(),
        r == spec_update_position_result(
            *old(state),
            market_id,
            user,
            yes_delta as int,
            no_delta as int,
            market_price as int,
        ),
        r matches Ok(p) ==> final(state).spec_has_position(market_id, user) && final(state).spec_position(market_id, user) == p,
        r is Err ==> *final(state) == *old(state),
        forall|m2: u32, u2: Address|
            !(m2 == market_id && u2 == user) ==> (final(state).spec_has_position(m2, u2) <==> old(state).spec_has_position(m2, u2)),
        forall|m2: u32, u2: Address|
            !(m2 == market_id && u2 == user) && old(state).spec_has_position(m2, u2) ==> final(state).spec_position(m2, u2) == old(state).spec_position(m2, u2),
        final(state).markets@ == old(state).markets@,
        final(state).admin == old(state).admin,
        final(state).next_market_id == old(state).next_market_id,
{
    let position = match state.get_position(market_id, user) {
        Some(p) => p,
        None => Position::new(market_id, user),
    };

    match validate_position_change(&position, yes_delta, no_delta) {
        Err(e) => {
            return Err(e);
        },
        Ok(_) => {},
    }

    let new_yes = position.yes_shares + yes_delta;
    let new_no = position.no_shares + no_delta;
    let new_locked = calculate_locked_collateral(new_yes, new_no, market_price);

    let updated = Position {
        market_id,
        user,
        yes_shares: new_yes,
        no_shares: new_no,
        locked_collateral: new_locked,
        is_settled: position.is_settled,
    };
    state.set_position(market_id, user, &updated);

    Ok(updated)
}

/// Net directional exposure: positive means net long YES, negative net
/// long NO, zero fully hedged.
pub fn calculate_net_position(yes_shares: i128, no_shares: i128) -> (r: i128)
    requires
        i128::MIN <= yes_shares - no_shares <= i128::MAX,
    ensures
        r == yes_shares - no_shares,
{
    yes_shares - no_shares
}

/// A position is eligible for settlement exactly when its market is
/// resolved and it has not been settled yet.
pub fn can_settle(position: &Position, market: &Market) -> (r: bool)
    ensures
        r == (market.status == MarketStatus::Resolved && !position.is_settled),
{
    matches!(market.status, MarketStatus::Resolved) && !position.is_settled
}

} // verus!
