//! Accounting and lifecycle core of a binary-outcome prediction market.
//!
//! The library tracks collateral deposits, converts them into share
//! positions, enforces the one-way market lifecycle (Active to Resolved
//! or Canceled), verifies oracle-attested outcomes, and computes
//! settlement payouts. All state lives in an explicit [`MarketContract`]
//! value; the surrounding host (persistence, caller authentication,
//! token transfer, event sink, clock) is an external collaborator that
//! hands the core plain values and commits or rolls back its state
//! atomically per call.

use vstd::prelude::*;

pub mod deposit;
pub mod error;
pub mod events;
pub mod oracle;
pub mod positions;
pub mod settlement;
pub mod storage;
pub mod types;
pub mod validation;

use crate::error::ContractError;
use crate::types::{Address, Market, MarketStatus, Position};
use crate::validation::spec_validate_market_creation;

verus! {

/// What one position contributes to a market's locked-collateral sum:
/// its locked collateral if it belongs to that market, zero otherwise.
pub open spec fn position_contrib(p: Position, market_id: u32) -> int {
    if p.market_id == market_id {
        p.locked_collateral as int
    } else {
        0
    }
}

/// The locked collateral of a market, summed over all positions.
pub open spec fn locked_sum(positions: Seq<Position>, market_id: u32) -> int
    decreases positions.len(),
{
    if positions.len() == 0 {
        0
    } else {
        locked_sum(positions.drop_last(), market_id) + position_contrib(
            positions.last(),
            market_id,
        )
    }
}

/// Replacing the position at one index changes a market's sum by
/// exactly the difference of the contributions at that index.
pub proof fn lemma_locked_sum_update(s: Seq<Position>, k: int, p: Position, market_id: u32)
    requires
        0 <= k < s.len(),
    ensures
        locked_sum(s.update(k, p), market_id) == locked_sum(s, market_id) - position_contrib(
            s[k],
            market_id,
        ) + position_contrib(p, market_id),
    decreases s.len(),
{
    let t = s.update(k, p);
    if k == s.len() - 1 {
        assert(t.drop_last() =~= s.drop_last());
    } else {
        assert(t.drop_last() =~= s.drop_last().update(k, p));
        lemma_locked_sum_update(s.drop_last(), k, p, market_id);
    }
}

/// Appending a position adds exactly its contribution to every
/// market's sum.
pub proof fn lemma_locked_sum_push(s: Seq<Position>, p: Position, market_id: u32)
    ensures
        locked_sum(s.push(p), market_id) == locked_sum(s, market_id) + position_contrib(
            p,
            market_id,
        ),
{
    assert(s.push(p).drop_last() =~= s);
}

/// The complete state of the prediction-market core: the market
/// registry, the position ledger, the configured administrator, and the
/// monotonic counter from which market identifiers are allocated.
///
/// Each public operation mutates this value atomically: it either
/// returns `Ok` having made exactly the documented change, or returns an
/// error having changed nothing.
pub struct MarketContract {
    pub markets: Vec<Market>,
    pub positions: Vec<Position>,
    pub admin: Option<Address>,
    pub next_market_id: u32,
}

impl MarketContract {
    /// An empty core: no markets, no positions, no administrator, and
    /// the identifier counter at zero.
    pub fn new() -> (s: MarketContract)
        ensures
            s.wf(),
            s.markets@.len() == 0,
            s.positions@.len() == 0,
            s.admin is None,
            s.next_market_id == 0,
    {
        MarketContract { markets: Vec::new(), positions: Vec::new(), admin: None, next_market_id: 0 }
    }

    /// There is a market with this identifier.
    pub open spec fn spec_has_market(self, market_id: u32) -> bool {
        exists|i: int| 0 <= i < self.markets@.len() && (#[trigger] self.markets@[i]).id == market_id
    }

    /// The index of the market with this identifier (meaningful when
    /// `spec_has_market` holds and identifiers are distinct).
    pub open spec fn spec_market_index(self, market_id: u32) -> int {
        choose|i: int| 0 <= i < self.markets@.len() && (#[trigger] self.markets@[i]).id == market_id
    }

    /// The market with this identifier.
    pub open spec fn spec_market(self, market_id: u32) -> Market {
        self.markets@[self.spec_market_index(market_id)]
    }

    /// There is a position for this (market, user) pair.
    pub open spec fn spec_has_position(self, market_id: u32, user: Address) -> bool {
        exists|i: int|
            0 <= i < self.positions@.len() && (#[trigger] self.positions@[i]).market_id == market_id
                && self.positions@[i].user == user
    }

    /// The index of the position for this (market, user) pair
    /// (meaningful when `spec_has_position` holds and keys are distinct).
    pub open spec fn spec_position_index(self, market_id: u32, user: Address) -> int {
        choose|i: int|
            0 <= i < self.positions@.len() && (#[trigger] self.positions@[i]).market_id == market_id
                && self.positions@[i].user == user
    }

    /// The position for this (market, user) pair.
    pub open spec fn spec_position(self, market_id: u32, user: Address) -> Position {
        self.positions@[self.spec_position_index(market_id, user)]
    }

    /// The stored position for this (market, user) pair, or a fresh
    /// all-zero position if none is stored. Records are created lazily
    /// on first use, so absence reads as "all balances zero".
    pub open spec fn spec_position_or_new(self, market_id: u32, user: Address) -> Position {
        if self.spec_has_position(market_id, user) {
            self.spec_position(market_id, user)
        } else {
            Position::spec_new(market_id, user)
        }
    }

    /// Market identifiers are distinct and position keys are distinct,
    /// so that lookups by key are unambiguous.
    pub open spec fn keys_distinct(self) -> bool {
        &&& forall|i: int, j: int|
            0 <= i < j < self.markets@.len() ==> (#[trigger] self.markets@[i]).id != (
            #[trigger] self.markets@[j]).id
        &&& forall|i: int, j: int|
            0 <= i < j < self.positions@.len() ==> !((#[trigger] self.positions@[i]).market_id == (
            #[trigger] self.positions@[j]).market_id && self.positions@[i].user
                == self.positions@[j].user)
    }

    /// Well-formedness of the whole state: keys are distinct, every
    /// stored record is well formed, and every market identifier was
    /// allocated from the counter (so the next allocation is fresh).
    pub open spec fn wf(self) -> bool {
        &&& self.keys_distinct()
        &&& forall|i: int|
            0 <= i < self.markets@.len() ==> (#[trigger] self.markets@[i]).wf() && 1
                <= self.markets@[i].id <= self.next_market_id
        &&& forall|i: int| 0 <= i < self.positions@.len() ==> (#[trigger] self.positions@[i]).wf()
    }

    /// Conservation of collateral: for every market, the locked
    /// collateral summed over all positions in that market never exceeds
    /// the market's recorded total collateral.
    pub open spec fn collateral_conserved(self) -> bool {
        forall|i: int|
            0 <= i < self.markets@.len() ==> locked_sum(
                self.positions@,
                (#[trigger] self.markets@[i]).id,
            ) <= self.markets@[i].total_collateral
    }

    /// Conservation holds of a state without markets, in particular of
    /// the empty core. Together with the preservation clauses on
    /// `initialize_market`, `deposit_collateral`, `resolve_market`,
    /// `transition_to_resolved` and `settle`, it holds of every state
    /// those operations reach.
    pub proof fn lemma_no_markets_conserved(self)
        requires
            self.markets@.len() == 0,
        ensures
            self.collateral_conserved(),
    {
    }

    /// When a market with this identifier exists, its spec index is the
    /// unique index carrying that identifier.
    pub proof fn lemma_market_index_is(self, market_id: u32, i: int)
        requires
            self.keys_distinct(),
            0 <= i < self.markets@.len(),
            self.markets@[i].id == market_id,
        ensures
            self.spec_has_market(market_id),
            self.spec_market_index(market_id) == i,
            self.spec_market(market_id) == self.markets@[i],
    {
        assert(self.spec_has_market(market_id));
        let j = self.spec_market_index(market_id);
        if i < j {
            assert(self.markets@[i].id != self.markets@[j].id);
        } else if j < i {
            assert(self.markets@[j].id != self.markets@[i].id);
        }
    }

    /// When a position with this key exists, its spec index is the
    /// unique index carrying that key.
    pub proof fn lemma_position_index_is(self, market_id: u32, user: Address, i: int)
        requires
            self.keys_distinct(),
            0 <= i < self.positions@.len(),
            self.positions@[i].market_id == market_id,
            self.positions@[i].user == user,
        ensures
            self.spec_has_position(market_id, user),
            self.spec_position_index(market_id, user) == i,
            self.spec_position(market_id, user) == self.positions@[i],
    {
        assert(self.spec_has_position(market_id, user));
        let j = self.spec_position_index(market_id, user);
        if i < j {
            assert(!(self.positions@[i].market_id == self.positions@[j].market_id
                && self.positions@[i].user == self.positions@[j].user));
        } else if j < i {
            assert(!(self.positions@[j].market_id == self.positions@[i].market_id
                && self.positions@[j].user == self.positions@[i].user));
        }
    }

    /// The exact result of a market initialization: the freshly
    /// allocated identifier, or the error naming what was rejected.
    pub open spec fn spec_initialize_market_result(
        self,
        creator: Address,
        question: Seq<char>,
        end_time: u64,
        current_time: u64,
    ) -> Result<u32, ContractError> {
        if self.admin != Some(creator) {
            Err(ContractError::Unauthorized)
        } else {
            match spec_validate_market_creation(question, end_time, current_time) {
                Err(e) => Err(e),
                Ok(_) => Ok((self.next_market_id + 1) as u32),
            }
        }
    }

    /// Initializes a new prediction market. Only the configured
    /// administrator may create markets; the question and the end time
    /// are validated; the identifier comes from the monotonic counter,
    /// so it is fresh; the market starts Active with no outcome and no
    /// collateral. The host adapter authenticates the creator and reads
    /// the clock before calling.
    pub fn initialize_market(
        &mut self,
        creator: Address,
        question: String,
        end_time: u64,
        oracle_pubkey: [u8; 32],
        collateral_token: Address,
        current_time: u64,
    ) -> (r: Result<u32, ContractError>)
        requires
            old(self).wf(),
            old(self).next_market_id < u32::MAX,
        ensures
            final(self).wf(),
            r == old(self).spec_initialize_market_result(creator, question@, end_time, current_time),
            r matches Ok(market_id) ==> {
                &&& market_id == old(self).next_market_id + 1
                &&& !old(self).spec_has_market(market_id)
                &&& final(self).next_market_id == market_id
                &&& final(self).spec_has_market(market_id)
                &&& final(self).spec_market(market_id) == (Market {
                    id: market_id,
                    question,
                    end_time,
                    oracle_pubkey,
                    status: MarketStatus::Active,
                    result: None,
                    creator,
                    created_at: current_time,
                    collateral_token,
                    total_collateral: 0,
                })
            },
            r matches Ok(market_id) ==> forall|id2: u32|
                id2 != market_id ==> (final(self).spec_has_market(id2) <==> old(self).spec_has_market(id2)) && (old(self).spec_has_market(id2) ==> final(self).spec_market(id2) == old(self).spec_market(id2)),
            final(self).positions@ == old(self).positions@,
            final(self).admin == old(self).admin,
            r is Err ==> *final(self) == *old(self),
            old(self).collateral_conserved() && locked_sum(
                old(self).positions@,
                (old(self).next_market_id + 1) as u32,
            ) == 0 ==> final(self).collateral_conserved(),
    {
        let admin = match self.get_admin() {
            Some(a) => a,
            None => {
                return Err(ContractError::Unauthorized);
            },
        };
        if creator.id != admin.id {
            return Err(ContractError::Unauthorized);
        }

        match crate::validation::validate_market_creation(&question, end_time, current_time) {
            Err(e) => {
                return Err(e);
            },
            Ok(_) => {},
        }

        let ghost pre = *self;
        let market_id = self.increment_market_id();
        proof {
            if pre.spec_has_market(market_id) {
                let i = pre.spec_market_index(market_id);
                assert(0 <= i < pre.markets@.len() && pre.markets@[i].id == market_id);
            }
        }

        let market = Market {
            id: market_id,
            question,
            end_time,
            oracle_pubkey,
            status: MarketStatus::Active,
            result: None,
            creator,
            created_at: current_time,
            collateral_token,
            total_collateral: 0,
        };
        self.set_market(market_id, market);

        proof {
            if pre.collateral_conserved() && locked_sum(pre.positions@, market_id) == 0 {
                assert forall|i: int| 0 <= i < self.markets@.len() implies locked_sum(
                    self.positions@,
                    (#[trigger] self.markets@[i]).id,
                ) <= self.markets@[i].total_collateral by {
                    let id2 = self.markets@[i].id;
                    self.lemma_market_index_is(id2, i);
                    if id2 != market_id {
                        let kp = pre.spec_market_index(id2);
                        assert(0 <= kp < pre.markets@.len() && pre.markets@[kp].id == id2);
                        assert(locked_sum(pre.positions@, pre.markets@[kp].id)
                            <= pre.markets@[kp].total_collateral);
                        pre.lemma_market_index_is(id2, kp);
                    }
                }
            }
        }

        Ok(market_id)
    }

    /// The exact result of asking a market to move to Resolved: only an
    /// existing, Active market may make the transition.
    pub open spec fn spec_transition_result(self, market_id: u32) -> Result<(), ContractError> {
        if !self.spec_has_market(market_id) {
            Err(ContractError::MarketNotFound)
        } else {
            match self.spec_market(market_id).status {
                MarketStatus::Active => Ok(()),
                MarketStatus::Resolved => Err(ContractError::MarketAlreadyResolved),
                MarketStatus::Canceled => Err(ContractError::MarketNotActive),
            }
        }
    }

    /// Moves an Active market to Resolved, recording the outcome. This
    /// is the central lifecycle guard: `Resolved` and `Canceled` are
    /// terminal, so the transition fails on them and the state is
    /// returned unchanged.
    pub fn transition_to_resolved(&mut self, market_id: u32, outcome: bool) -> (r: Result<
        (),
        ContractError,
    >)
        requires
            old(self).wf(),
        ensures
            final(self).wf(),
            r == old(self).spec_transition_result(market_id),
            r is Ok ==> final(self).spec_has_market(market_id) && final(self).spec_market(market_id)
                == (Market {
                status: MarketStatus::Resolved,
                result: Some(outcome),
                ..old(self).spec_market(market_id)
            }),
            forall|id2: u32|
                id2 != market_id ==> (final(self).spec_has_market(id2) <==> old(self).spec_has_market(id2)) && (old(self).spec_has_market(id2) ==> final(self).spec_market(id2) == old(self).spec_market(id2)),
            final(self).positions@ == old(self).positions@,
            final(self).admin == old(self).admin,
            final(self).next_market_id == old(self).next_market_id,
            r is Err ==> *final(self) == *old(self),
            old(self).collateral_conserved() ==> final(self).collateral_conserved(),
    {
        let market_index = match self.find_market_index(market_id) {
            Some(k) => k,
            None => {
                return Err(ContractError::MarketNotFound);
            },
        };
        proof {
            self.lemma_market_index_is(market_id, market_index as int);
        }

        match self.markets[market_index].status {
            MarketStatus::Resolved => {
                return Err(ContractError::MarketAlreadyResolved);
            },
            MarketStatus::Canceled => {
                return Err(ContractError::MarketNotActive);
            },
            MarketStatus::Active => {},
        }

        let ghost pre = *self;
        let updated = self.markets[market_index].with_resolution(outcome);
        self.set_market(market_id, updated);

        proof {
            if pre.collateral_conserved() {
                assert forall|i: int| 0 <= i < self.markets@.len() implies locked_sum(
                    self.positions@,
                    (#[trigger] self.markets@[i]).id,
                ) <= self.markets@[i].total_collateral by {
                    let id2 = self.markets@[i].id;
                    self.lemma_market_index_is(id2, i);
                    let kp = pre.spec_market_index(id2);
                    assert(pre.spec_has_market(id2));
                    assert(0 <= kp < pre.markets@.len() && pre.markets@[kp].id == id2);
                    assert(locked_sum(pre.positions@, pre.markets@[kp].id)
                        <= pre.markets@[kp].total_collateral);
                    pre.lemma_market_index_is(id2, kp);
                }
            }
        }

        Ok(())
    }

    /// Resolution is one-way: a resolved market refuses any further
    /// transition with `MarketAlreadyResolved`, and (by the transition's
    /// contract) an error leaves the state exactly as it was, so a
    /// market's status never reverts.
    pub proof fn lemma_resolution_one_way(self, market_id: u32)
        requires
            self.spec_has_market(market_id),
            self.spec_market(market_id).status == MarketStatus::Resolved,
        ensures
            self.spec_transition_result(market_id) == Err::<(), ContractError>(
                ContractError::MarketAlreadyResolved,
            ),
    {
    }
}

} // verus!
