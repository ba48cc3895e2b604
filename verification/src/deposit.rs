//! The deposit flow of the collateral engine. The host performs caller
//! authentication and the external token transfer first; this function
//! is the ledger commit that follows a successful transfer, and it
//! either applies the whole documented change or returns an error
//! having changed nothing, matching the host's atomic-commit semantics.

use vstd::prelude::*;

use crate::error::ContractError;
use crate::types::{Address, Market, MarketStatus, Position};
use crate::{locked_sum, position_contrib, MarketContract};

verus! {

/// Cap on a single deposit, far below `i128::MAX` to leave headroom for
/// subsequent additions.
pub const MAX_DEPOSIT_AMOUNT: i128 = 1_000_000_000_000_000_000;

/// The exact result of a deposit: the new locked-collateral total of
/// the depositor's position, or the error naming what was rejected.
pub open spec fn spec_deposit_result(
    s: MarketContract,
    user: Address,
    market_id: u32,
    amount: i128,
) -> Result<i128, ContractError> {
    if amount <= 0 || amount > MAX_DEPOSIT_AMOUNT {
        Err(ContractError::InvalidQuantity)
    } else if !s.spec_has_market(market_id) {
        Err(ContractError::MarketNotFound)
    } else if s.spec_market(market_id).status != MarketStatus::Active {
        Err(ContractError::MarketNotActive)
    } else if s.spec_position_or_new(market_id, user).locked_collateral + amount > i128::MAX {
        Err(ContractError::ArithmeticOverflow)
    } else if s.spec_market(market_id).total_collateral + amount > i128::MAX {
        Err(ContractError::ArithmeticOverflow)
    } else {
        Ok((s.spec_position_or_new(market_id, user).locked_collateral + amount) as i128)
    }
}

/// Deposits collateral into an active market for a user: adds the
/// amount to the user's locked collateral (lazily creating the
/// position) and to the market's running total, and reports the user's
/// new locked total.
///
/// The caller is the host adapter, which must have authenticated the
/// depositor and moved the amount of the collateral asset into custody
/// before this commit; any error here aborts the enclosing transaction,
/// and the state is returned unchanged.
pub fn deposit_collateral(
    state: &mut MarketContract,
    user: Address,
    market_id: u32,
    amount: i128,
) -> (r: Result<i128, ContractError>)
    requires
        old(state).wf(),
    ensures
        final(state).wf(),
        r == spec_deposit_result(*old(state), user, market_id, amount),
        // A valid deposit adds the amount, exactly once, to the
        // depositor's locked collateral and to the market's total.
        r is Ok ==> final(state).spec_has_position(market_id, user) && final(state).spec_position(
            market_id,
            user,
        ) == (Position {
            locked_collateral: (old(state).spec_position_or_new(market_id, user).locked_collateral
                + amount) as i128,
            ..old(state).spec_position_or_new(market_id, user)
        }),
        r is Ok ==> final(state).spec_has_market(market_id) && final(state).spec_market(market_id)
            == (Market {
            total_collateral: (old(state).spec_market(market_id).total_collateral + amount) as i128,
            ..old(state).spec_market(market_id)
        }),
        r is Err ==> *final(state) == *old(state),
        // No other record moves.
        forall|m2: u32, u2: Address|
            !(m2 == market_id && u2 == user) ==> (final(state).spec_has_position(m2, u2) <==> old(state).spec_has_position(m2, u2)),
        forall|m2: u32, u2: Address|
            !(m2 == market_id && u2 == user) && old(state).spec_has_position(m2, u2) ==> final(state).spec_position(m2, u2) == old(state).spec_position(m2, u2),
        forall|id2: u32|
            id2 != market_id ==> (final(state).spec_has_market(id2) <==> old(state).spec_has_market(id2)),
        forall|id2: u32|
            id2 != market_id && old(state).spec_has_market(id2) ==> final(state).spec_market(id2)
                == old(state).spec_market(id2),
        final(state).admin == old(state).admin,
        final(state).next_market_id == old(state).next_market_id,
        // Deposits preserve conservation of collateral.
        old(state).collateral_conserved() ==> final(state).collateral_conserved(),
{
    if amount <= 0 {
        return Err(ContractError::InvalidQuantity);
    }
    if amount > MAX_DEPOSIT_AMOUNT {
        return Err(ContractError::InvalidQuantity);
    }

    let market_index = match state.find_market_index(market_id) {
        Some(k) => k,
        None => {
            return Err(ContractError::MarketNotFound);
        },
    };
    proof {
        state.lemma_market_index_is(market_id, market_index as int);
    }

    if !matches!(state.markets[market_index].status, MarketStatus::Active) {
        return Err(ContractError::MarketNotActive);
    }

    let position = match state.get_position(market_id, user) {
        Some(p) => p,
        None => Position::new(market_id, user),
    };

    if position.locked_collateral > i128::MAX - amount {
        return Err(ContractError::ArithmeticOverflow);
    }
    let total_collateral = state.markets[market_index].total_collateral;
    if total_collateral > i128::MAX - amount {
        return Err(ContractError::ArithmeticOverflow);
    }

    let ghost pre = *state;
    let ghost had_position = state.spec_has_position(market_id, user);
    let ghost position_index = state.spec_position_index(market_id, user);

    let updated_position = Position {
        locked_collateral: position.locked_collateral + amount,
        ..position
    };
    state.set_position(market_id, user, &updated_position);

    let updated_market = state.markets[market_index].with_total_collateral(
        total_collateral + amount,
    );
    state.set_market(market_id, updated_market);

    proof {
        assert(state.spec_market(market_id) == updated_market);
        // Conservation: the deposited market's sum and total both grow
        // by the amount; every other market's sum and total are
        // untouched, because the changed position belongs to the
        // deposited market and market identifiers are distinct.
        if pre.collateral_conserved() {
            assert forall|i: int| 0 <= i < state.markets@.len() implies locked_sum(
                state.positions@,
                (#[trigger] state.markets@[i]).id,
            ) <= state.markets@[i].total_collateral by {
                let id2 = state.markets@[i].id;
                state.lemma_market_index_is(id2, i);
                // How the changed (or appended) position moves this
                // market's sum.
                if had_position {
                    crate::lemma_locked_sum_update(
                        pre.positions@,
                        position_index,
                        updated_position,
                        id2,
                    );
                } else {
                    crate::lemma_locked_sum_push(pre.positions@, updated_position, id2);
                }
                // Conservation held of this market before the deposit.
                let kp = pre.spec_market_index(id2);
                if id2 == market_id {
                    assert(pre.spec_has_market(id2));
                } else {
                    assert(pre.spec_has_market(id2));
                }
                assert(0 <= kp < pre.markets@.len() && pre.markets@[kp].id == id2);
                assert(locked_sum(pre.positions@, pre.markets@[kp].id)
                    <= pre.markets@[kp].total_collateral);
                pre.lemma_market_index_is(id2, kp);
                if id2 != market_id {
                    assert(state.spec_market(id2) == pre.spec_market(id2));
                    assert(position_contrib(updated_position, id2) == 0);
                }
            }
        }
    }

    Ok(updated_position.locked_collateral)
}

} // verus!
