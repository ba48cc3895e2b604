//! Settlement: the one-time conversion of a resolved position into a
//! payout, latched so it cannot be repeated.

use vstd::prelude::*;

use crate::error::ContractError;
use crate::types::{Address, Market, MarketStatus, Position};
use crate::{locked_sum, MarketContract};

verus! {

/// The payout of a position under an outcome: the winning side's share
/// count; losing shares pay zero.
pub open spec fn spec_payout(p: Position, outcome: bool) -> int {
    if outcome {
        p.yes_shares as int
    } else {
        p.no_shares as int
    }
}

/// Calculates the payout for a position given the market outcome
/// (`true` means YES won).
pub fn calculate_payout(position: &Position, outcome: bool) -> (r: i128)
    ensures
        r == spec_payout(*position, outcome),
{
    if outcome {
        position.yes_shares
    } else {
        position.no_shares
    }
}

/// The exact eligibility rule for settling a position: the market must
/// be resolved, and the position must not have been settled yet.
pub open spec fn spec_settlement_eligibility(p: Position, m: Market) -> Result<(), ContractError> {
    if m.status != MarketStatus::Resolved {
        Err(ContractError::MarketNotResolved)
    } else if p.is_settled {
        Err(ContractError::PositionAlreadySettled)
    } else {
        Ok(())
    }
}

/// Checks whether a position is eligible for settlement.
pub fn validate_settlement_eligibility(position: &Position, market: &Market) -> (r: Result<
    (),
    ContractError,
>)
    ensures
        r == spec_settlement_eligibility(*position, *market),
{
    if !matches!(market.status, MarketStatus::Resolved) {
        return Err(ContractError::MarketNotResolved);
    }
    if position.is_settled {
        return Err(ContractError::PositionAlreadySettled);
    }
    Ok(())
}

/// The exact result of settling a position against a market.
pub open spec fn spec_settlement_result(p: Position, m: Market) -> Result<i128, ContractError> {
    match spec_settlement_eligibility(p, m) {
        Err(e) => Err(e),
        Ok(_) => match m.result {
            None => Err(ContractError::MarketNotResolved),
            Some(outcome) => Ok(spec_payout(p, outcome) as i128),
        },
    }
}

/// Settles a single position against its resolved market: validates
/// eligibility, computes the payout, and sets the one-way settlement
/// latch. Share balances and locked collateral are untouched.
pub fn execute_settlement(position: &mut Position, market: &Market) -> (r: Result<
    i128,
    ContractError,
>)
    ensures
        r == spec_settlement_result(*old(position), *market),
        r is Ok ==> *final(position) == (Position { is_settled: true, ..*old(position) }),
        r is Err ==> *final(position) == *old(position),
{
    match validate_settlement_eligibility(position, market) {
        Err(e) => {
            return Err(e);
        },
        Ok(_) => {},
    }

    let outcome = match market.result {
        Some(o) => o,
        None => {
            return Err(ContractError::MarketNotResolved);
        },
    };
    let payout = calculate_payout(position, outcome);

    position.is_settled = true;

    Ok(payout)
}

/// Settlement is idempotent-guarded: once a settlement has succeeded,
/// settling the same position against the same market fails with
/// `PositionAlreadySettled`, and the payout the position would carry is
/// unaffected, because settlement changes nothing but the latch.
pub proof fn lemma_settlement_idempotent_guard(p: Position, m: Market)
    requires
        spec_settlement_result(p, m) is Ok,
    ensures
        spec_settlement_result(Position { is_settled: true, ..p }, m) == Err::<
            i128,
            ContractError,
        >(ContractError::PositionAlreadySettled),
        forall|outcome: bool|
            spec_payout(Position { is_settled: true, ..p }, outcome) == spec_payout(p, outcome),
{
}

/// What a user would receive if they settled now: `None` while the
/// market is unresolved.
pub fn calculate_potential_payout(position: &Position, market: &Market) -> (r: Option<i128>)
    ensures
        market.result matches Some(outcome) ==> r == Some(
            spec_payout(*position, outcome) as i128,
        ),
        market.result is None ==> r is None,
{
    match market.result {
        Some(outcome) => Some(calculate_payout(position, outcome)),
        None => None,
    }
}

/// Aggregate settlement statistics for a market outcome: the winning
/// side's shares, the losing side's shares, and the total payout (which
/// equals the winning side's shares).
pub fn calculate_market_settlement_stats(
    total_yes_shares: i128,
    total_no_shares: i128,
    outcome: bool,
) -> (r: (i128, i128, i128))
    ensures
        outcome ==> r == (total_yes_shares, total_no_shares, total_yes_shares),
        !outcome ==> r == (total_no_shares, total_yes_shares, total_no_shares),
{
    if outcome {
        (total_yes_shares, total_no_shares, total_yes_shares)
    } else {
        (total_no_shares, total_yes_shares, total_no_shares)
    }
}

impl MarketContract {
    /// The exact result of settling a user's position in a market at
    /// the ledger level.
    pub open spec fn spec_settle_result(self, market_id: u32, user: Address) -> Result<
        i128,
        ContractError,
    > {
        if !self.spec_has_market(market_id) {
            Err(ContractError::MarketNotFound)
        } else if !self.spec_has_position(market_id, user) {
            Err(ContractError::NoPositionFound)
        } else {
            spec_settlement_result(
                self.spec_position(market_id, user),
                self.spec_market(market_id),
            )
        }
    }

    /// Settles a user's position in a resolved market exactly once:
    /// computes the payout from the recorded outcome and sets the
    /// position's one-way settlement latch. The release of the payout
    /// to the user is the host's responsibility, in the same atomic
    /// transaction.
    pub fn settle(&mut self, market_id: u32, user: Address) -> (r: Result<i128, ContractError>)
        requires
            old(self).wf(),
        ensures
            final(self).wf(),
            r == old(self).spec_settle_result(market_id, user),
            r is Ok ==> final(self).spec_position(market_id, user) == (Position {
                is_settled: true,
                ..old(self).spec_position(market_id, user)
            }),
            r is Err ==> *final(self) == *old(self),
            forall|m2: u32, u2: Address|
                (final(self).spec_has_position(m2, u2) <==> old(self).spec_has_position(m2, u2)),
            forall|m2: u32, u2: Address|
                !(m2 == market_id && u2 == user) && old(self).spec_has_position(m2, u2) ==> final(self).spec_position(m2, u2) == old(self).spec_position(m2, u2),
            final(self).markets@ == old(self).markets@,
            final(self).admin == old(self).admin,
            final(self).next_market_id == old(self).next_market_id,
            old(self).collateral_conserved() ==> final(self).collateral_conserved(),
    {
        let market_index = match self.find_market_index(market_id) {
            Some(k) => k,
            None => {
                return Err(ContractError::MarketNotFound);
            },
        };
        proof {
            self.lemma_market_index_is(market_id, market_index as int);
        }

        let mut position = match self.get_position(market_id, user) {
            Some(p) => p,
            None => {
                return Err(ContractError::NoPositionFound);
            },
        };

        let payout = match execute_settlement(&mut position, &self.markets[market_index]) {
            Ok(v) => v,
            Err(e) => {
                return Err(e);
            },
        };

        let ghost pre = *self;
        self.set_position(market_id, user, &position);

        proof {
            let k = pre.spec_position_index(market_id, user);
            assert(self.positions@ == pre.positions@.update(k, position));
            assert forall|i: int| 0 <= i < self.markets@.len() implies locked_sum(
                self.positions@,
                (#[trigger] self.markets@[i]).id,
            ) == locked_sum(pre.positions@, self.markets@[i].id) by {
                crate::lemma_locked_sum_update(
                    pre.positions@,
                    k,
                    position,
                    self.markets@[i].id,
                );
            }
        }

        Ok(payout)
    }

    /// What a user would receive if they settled now: `None` while the
    /// market is unresolved or absent, the recorded-outcome payout of
    /// the user's position (or of the empty position) otherwise.
    pub fn potential_payout(&self, market_id: u32, user: Address) -> (r: Option<i128>)
        requires
            self.wf(),
        ensures
            !self.spec_has_market(market_id) ==> r is None,
            self.spec_has_market(market_id) ==> {
                let m = self.spec_market(market_id);
                match m.result {
                    None => r is None,
                    Some(outcome) => r == Some(
                        spec_payout(self.spec_position_or_new(market_id, user), outcome) as i128,
                    ),
                }
            },
    {
        let market = match self.get_market(market_id) {
            Some(m) => m,
            None => {
                return None;
            },
        };
        let position = match self.get_position(market_id, user) {
            Some(p) => p,
            None => Position::new(market_id, user),
        };
        calculate_potential_payout(&position, market)
    }
}

} // verus!
