//! Keyed access to the market registry and the position ledger, and the
//! administrator and identifier-counter configuration. This is the one
//! place that touches the underlying vectors; everything above works
//! through these operations and their contracts.

use vstd::prelude::*;

use crate::types::{Address, Market, Position};
use crate::MarketContract;

verus! {

impl MarketContract {
    /// Index of the market with this identifier, if any.
    pub(crate) fn find_market_index(&self, market_id: u32) -> (r: Option<usize>)
        ensures
            r is Some <==> self.spec_has_market(market_id),
            r matches Some(k) ==> k < self.markets@.len() && self.markets@[k as int].id
                == market_id,
    {
        let mut i: usize = 0;
        while i < self.markets.len()
            invariant
                i <= self.markets@.len(),
                forall|j: int| 0 <= j < i ==> (#[trigger] self.markets@[j]).id != market_id,
            decreases self.markets@.len() - i,
        {
            if self.markets[i].id == market_id {
                return Some(i);
            }
            i += 1;
        }
        None
    }

    /// Index of the position with this (market, user) key, if any.
    pub(crate) fn find_position_index(&self, market_id: u32, user: Address) -> (r: Option<usize>)
        ensures
            r is Some <==> self.spec_has_position(market_id, user),
            r matches Some(k) ==> k < self.positions@.len() && self.positions@[k as int].market_id
                == market_id && self.positions@[k as int].user == user,
    {
        let mut i: usize = 0;
        while i < self.positions.len()
            invariant
                i <= self.positions@.len(),
                forall|j: int|
                    0 <= j < i ==> !((#[trigger] self.positions@[j]).market_id == market_id
                        && self.positions@[j].user == user),
            decreases self.positions@.len() - i,
        {
            if self.positions[i].market_id == market_id && self.positions[i].user.id == user.id {
                return Some(i);
            }
            i += 1;
        }
        None
    }

    /// Looks up a market by identifier.
    pub fn get_market(&self, market_id: u32) -> (r: Option<&Market>)
        requires
            self.keys_distinct(),
        ensures
            r is Some <==> self.spec_has_market(market_id),
            r matches Some(m) ==> *m == self.spec_market(market_id),
    {
        match self.find_market_index(market_id) {
            Some(k) => {
                proof {
                    self.lemma_market_index_is(market_id, k as int);
                }
                Some(&self.markets[k])
            },
            None => None,
        }
    }

    /// Whether a market with this identifier exists.
    pub fn has_market(&self, market_id: u32) -> (r: bool)
        ensures
            r == self.spec_has_market(market_id),
    {
        self.find_market_index(market_id).is_some()
    }

    /// Stores a market under its identifier, replacing any market
    /// already stored under it and leaving every other record alone.
    pub fn set_market(&mut self, market_id: u32, market: Market)
        requires
            old(self).keys_distinct(),
            market.id == market_id,
        ensures
            final(self).keys_distinct(),
            final(self).spec_has_market(market_id),
            final(self).spec_market(market_id) == market,
            forall|id2: u32|
                id2 != market_id ==> (final(self).spec_has_market(id2) <==> old(self).spec_has_market(id2)),
            forall|id2: u32|
                id2 != market_id && old(self).spec_has_market(id2) ==> final(self).spec_market(id2)
                    == old(self).spec_market(id2),
            final(self).positions@ == old(self).positions@,
            final(self).admin == old(self).admin,
            final(self).next_market_id == old(self).next_market_id,
            old(self).wf() && market.wf() && 1 <= market.id <= old(self).next_market_id ==> final(self).wf(),
    {
        let ghost old_markets = self.markets@;
        match self.find_market_index(market_id) {
            Some(k) => {
                self.markets.set(k, market);
                proof {
                    assert forall|id2: u32| id2 != market_id implies (self.spec_has_market(id2)
                        <==> old(self).spec_has_market(id2)) && (old(self).spec_has_market(id2)
                        ==> self.spec_market(id2) == old(self).spec_market(id2)) by {
                        if old(self).spec_has_market(id2) {
                            let i = old(self).spec_market_index(id2);
                            assert(self.markets@[i].id == id2);
                            self.lemma_market_index_is(id2, i);
                        }
                        if self.spec_has_market(id2) {
                            let i = self.spec_market_index(id2);
                            assert(old_markets[i].id == id2);
                            old(self).lemma_market_index_is(id2, i);
                        }
                    }
                    self.lemma_market_index_is(market_id, k as int);
                }
            },
            None => {
                self.markets.push(market);
                proof {
                    assert forall|i: int, j: int|
                        0 <= i < j < self.markets@.len() implies (
                    #[trigger] self.markets@[i]).id != (#[trigger] self.markets@[j]).id by {
                        if j == self.markets@.len() - 1 {
                            assert(self.markets@[i] == old_markets[i]);
                        }
                    }
                    assert forall|id2: u32| id2 != market_id implies (self.spec_has_market(id2)
                        <==> old(self).spec_has_market(id2)) && (old(self).spec_has_market(id2)
                        ==> self.spec_market(id2) == old(self).spec_market(id2)) by {
                        if old(self).spec_has_market(id2) {
                            let i = old(self).spec_market_index(id2);
                            assert(self.markets@[i].id == id2);
                            self.lemma_market_index_is(id2, i);
                        }
                        if self.spec_has_market(id2) {
                            let i = self.spec_market_index(id2);
                            assert(old_markets[i].id == id2);
                            old(self).lemma_market_index_is(id2, i);
                        }
                    }
                    self.lemma_market_index_is(market_id, self.markets@.len() - 1);
                }
            },
        }
    }

    /// Looks up the position of a user in a market.
    pub fn get_position(&self, market_id: u32, user: Address) -> (r: Option<Position>)
        requires
            self.keys_distinct(),
        ensures
            r is Some <==> self.spec_has_position(market_id, user),
            r matches Some(p) ==> p == self.spec_position(market_id, user),
    {
        match self.find_position_index(market_id, user) {
            Some(k) => {
                proof {
                    self.lemma_position_index_is(market_id, user, k as int);
                }
                Some(self.positions[k])
            },
            None => None,
        }
    }

    /// Whether a position exists for this (market, user) pair.
    pub fn has_position(&self, market_id: u32, user: Address) -> (r: bool)
        ensures
            r == self.spec_has_position(market_id, user),
    {
        self.find_position_index(market_id, user).is_some()
    }

    /// Stores a position under its (market, user) key, replacing any
    /// position already stored under it and leaving every other record
    /// alone.
    pub fn set_position(&mut self, market_id: u32, user: Address, position: &Position)
        requires
            old(self).keys_distinct(),
            position.market_id == market_id,
            position.user == user,
        ensures
            final(self).keys_distinct(),
            final(self).spec_has_position(market_id, user),
            final(self).spec_position(market_id, user) == *position,
            forall|m2: u32, u2: Address|
                !(m2 == market_id && u2 == user) ==> (final(self).spec_has_position(m2, u2) <==> old(self).spec_has_position(m2, u2)),
            forall|m2: u32, u2: Address|
                !(m2 == market_id && u2 == user) && old(self).spec_has_position(m2, u2) ==> final(self).spec_position(m2, u2) == old(self).spec_position(m2, u2),
            final(self).markets@ == old(self).markets@,
            final(self).admin == old(self).admin,
            final(self).next_market_id == old(self).next_market_id,
            old(self).wf() && position.wf() ==> final(self).wf(),
            old(self).spec_has_position(market_id, user) ==> final(self).positions@ == old(self).positions@.update(
                old(self).spec_position_index(market_id, user),
                *position,
            ),
            !old(self).spec_has_position(market_id, user) ==> final(self).positions@ == old(self).positions@.push(*position),
    {
        let ghost old_positions = self.positions@;
        match self.find_position_index(market_id, user) {
            Some(k) => {
                proof {
                    old(self).lemma_position_index_is(market_id, user, k as int);
                }
                self.positions.set(k, *position);
                proof {
                    assert forall|m2: u32, u2: Address| !(m2 == market_id && u2 == user) implies (
                    self.spec_has_position(m2, u2) <==> old(self).spec_has_position(m2, u2)) && (old(self).spec_has_position(m2, u2) ==> self.spec_position(m2, u2) == old(self).spec_position(m2, u2)) by {
                        if old(self).spec_has_position(m2, u2) {
                            let i = old(self).spec_position_index(m2, u2);
                            assert(self.positions@[i].market_id == m2 && self.positions@[i].user
                                == u2);
                            self.lemma_position_index_is(m2, u2, i);
                        }
                        if self.spec_has_position(m2, u2) {
                            let i = self.spec_position_index(m2, u2);
                            assert(old_positions[i].market_id == m2 && old_positions[i].user == u2);
                            old(self).lemma_position_index_is(m2, u2, i);
                        }
                    }
                    self.lemma_position_index_is(market_id, user, k as int);
                }
            },
            None => {
                self.positions.push(*position);
                proof {
                    assert forall|i: int, j: int|
                        0 <= i < j < self.positions@.len() implies !((
                    #[trigger] self.positions@[i]).market_id == (
                    #[trigger] self.positions@[j]).market_id && self.positions@[i].user
                        == self.positions@[j].user) by {
                        if j == self.positions@.len() - 1 {
                            assert(self.positions@[i] == old_positions[i]);
                        }
                    }
                    assert forall|m2: u32, u2: Address| !(m2 == market_id && u2 == user) implies (
                    self.spec_has_position(m2, u2) <==> old(self).spec_has_position(m2, u2)) && (old(self).spec_has_position(m2, u2) ==> self.spec_position(m2, u2) == old(self).spec_position(m2, u2)) by {
                        if old(self).spec_has_position(m2, u2) {
                            let i = old(self).spec_position_index(m2, u2);
                            assert(self.positions@[i].market_id == m2 && self.positions@[i].user
                                == u2);
                            self.lemma_position_index_is(m2, u2, i);
                        }
                        if self.spec_has_position(m2, u2) {
                            let i = self.spec_position_index(m2, u2);
                            assert(old_positions[i].market_id == m2 && old_positions[i].user == u2);
                            old(self).lemma_position_index_is(m2, u2, i);
                        }
                    }
                    self.lemma_position_index_is(market_id, user, self.positions@.len() - 1);
                }
            },
        }
    }

    /// The configured administrator, if one has been set.
    pub fn get_admin(&self) -> (r: Option<Address>)
        ensures
            r == self.admin,
    {
        self.admin
    }

    /// Configures the administrator.
    pub fn set_admin(&mut self, admin: Address)
        ensures
            final(self).admin == Some(admin),
            final(self).markets@ == old(self).markets@,
            final(self).positions@ == old(self).positions@,
            final(self).next_market_id == old(self).next_market_id,
            old(self).wf() ==> final(self).wf(),
    {
        self.admin = Some(admin);
    }

    /// The value of the market-identifier counter: the identifier most
    /// recently allocated, or zero if none has been.
    pub fn get_next_market_id(&self) -> (r: u32)
        ensures
            r == self.next_market_id,
    {
        self.next_market_id
    }

    /// Advances the market-identifier counter and returns the freshly
    /// allocated identifier.
    pub fn increment_market_id(&mut self) -> (r: u32)
        requires
            old(self).next_market_id < u32::MAX,
        ensures
            r == old(self).next_market_id + 1,
            final(self).next_market_id == r,
            final(self).markets@ == old(self).markets@,
            final(self).positions@ == old(self).positions@,
            final(self).admin == old(self).admin,
            old(self).wf() ==> final(self).wf(),
    {
        self.next_market_id = self.next_market_id + 1;
        self.next_market_id
    }
}

} // verus!
