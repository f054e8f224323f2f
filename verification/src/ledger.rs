//! The position ledger: the records, the trader index, the custody balance,
//! and the operations that govern them.
//!
//! The ledger owns every position record. An open validates its inputs,
//! snapshots the reference price, assigns the next id and posts the margin
//! to the custody balance; a close settles the PnL once, pays out at least
//! the original margin, and freezes the record. Every operation either
//! applies all of its effects or rejects with one [`Error`] kind and leaves
//! the ledger exactly as it was.

use vstd::prelude::*;
use crate::errors::Error;
use crate::pnl::{calculate_pnl, pnl_fits, spec_pnl, Side};

verus! {

/// The least margin an open accepts: one whole unit of the base asset in
/// the ledger's fixed-point convention.
pub const MIN_MARGIN: i128 = 10_000_000;

/// The lifecycle of a position: it opens once, closes at most once, and a
/// closed position never changes again.
#[derive(Clone, Copy, Debug, PartialEq, Eq, Structural)]
pub enum PositionStatus {
    Open,
    Closed,
}

/// One leveraged exposure.
#[derive(Clone, Copy, Debug, PartialEq, Eq, Structural)]
pub struct Position {
    /// Unique and monotonically increasing; assigned at open, never reused.
    pub id: u64,
    /// The identity that opened the position; immutable after creation.
    pub trader: u64,
    /// Collateral posted, in smallest units.
    pub margin: i128,
    /// Integer multiplier, 1 to 10 inclusive.
    pub leverage: u32,
    /// Notional exposure; always `margin * leverage`.
    pub size: i128,
    /// Direction of the exposure.
    pub side: Side,
    /// Reference price snapshot taken at open.
    pub entry_price: i128,
    /// When the position was opened.
    pub open_time: u64,
    /// Where in its lifecycle the position stands.
    pub status: PositionStatus,
    /// The settlement price; zero while the position is open.
    pub close_price: i128,
    /// When the position was closed; zero while it is open.
    pub close_time: u64,
    /// The PnL realized at close; zero while the position is open.
    pub realized_pnl: i128,
}

impl Position {
    /// The record-level invariant: leverage and margin in range, the size
    /// derived from them, a positive entry price, the close fields blank
    /// exactly while open, and a closed record settled at the PnL formula.
    pub open spec fn wf(self) -> bool {
        &&& 1 <= self.leverage <= 10
        &&& self.margin >= MIN_MARGIN
        &&& self.size == self.margin * self.leverage
        &&& self.entry_price > 0
        &&& self.status is Open ==> self.close_price == 0 && self.close_time == 0
            && self.realized_pnl == 0
        &&& self.status is Closed ==> self.close_price > 0 && self.realized_pnl == spec_pnl(
            self.entry_price as int,
            self.close_price as int,
            self.size as int,
            self.side,
        )
    }
}

/// One trader's row in the index: every id the trader ever opened, in
/// opening order, append-only.
pub struct TraderPositions {
    pub trader: u64,
    pub position_ids: Vec<u64>,
}

/// The ids of the positions among `ps` that `trader` opened, in order.
pub open spec fn ids_of(ps: Seq<Position>, trader: u64) -> Seq<u64>
    decreases ps.len(),
{
    if ps.len() == 0 {
        Seq::empty()
    } else if ps.last().trader == trader {
        ids_of(ps.drop_last(), trader).push(ps.last().id)
    } else {
        ids_of(ps.drop_last(), trader)
    }
}

/// Appending a position extends exactly its own trader's id sequence.
pub proof fn lemma_ids_of_push(ps: Seq<Position>, p: Position, t: u64)
    ensures
        ids_of(ps.push(p), t) == if p.trader == t {
            ids_of(ps, t).push(p.id)
        } else {
            ids_of(ps, t)
        },
{
    assert(ps.push(p).drop_last() =~= ps);
    assert(ps.push(p).last() == p);
}

/// The id sequences depend only on the `trader` and `id` fields, so an
/// update that keeps both (a close does) leaves every trader's ids alone.
pub proof fn lemma_ids_of_same_traders(ps1: Seq<Position>, ps2: Seq<Position>, t: u64)
    requires
        ps1.len() == ps2.len(),
        forall|i: int|
            0 <= i < ps1.len() ==> (#[trigger] ps1[i]).trader == ps2[i].trader && ps1[i].id
                == ps2[i].id,
    ensures
        ids_of(ps1, t) == ids_of(ps2, t),
    decreases ps1.len(),
{
    if ps1.len() > 0 {
        assert(ps1.drop_last().len() == ps2.drop_last().len());
        lemma_ids_of_same_traders(ps1.drop_last(), ps2.drop_last(), t);
        assert(ps1.last().trader == ps2.last().trader && ps1.last().id == ps2.last().id);
    }
}

/// The payout a close transfers back: `margin + pnl` when that sum is
/// positive, floored at exactly the original margin otherwise.
pub open spec fn spec_payout(margin: int, pnl: int) -> int {
    if margin + pnl > 0 {
        margin + pnl
    } else {
        margin
    }
}

/// Payout floor law: whenever the PnL wipes out the margin or more, the
/// payout is exactly the original margin — a trader never receives less
/// than the posted margin back through a close.
pub proof fn lemma_payout_floor(margin: int, pnl: int)
    requires
        margin + pnl <= 0,
    ensures
        spec_payout(margin, pnl) == margin,
{
}

/// The position ledger. It holds the admin and oracle identities, the pause
/// flag, the id counter, the aggregate custody balance, the position
/// records keyed by id, and the trader index.
pub struct PerpetualTradingContract {
    /// Whether `initialize` has seeded the ledger.
    pub initialized: bool,
    /// The privileged identity set at initialization.
    pub admin: u64,
    /// The oracle identity set at initialization.
    pub price_oracle: u64,
    /// The id the next open receives; starts at 1, never reused.
    pub next_position_id: u64,
    /// Aggregate custody balance of all margin held, in smallest units.
    pub total_balance: i128,
    /// The circuit breaker: while false, opens and closes are rejected.
    pub is_active: bool,
    /// All positions ever opened; the record with id `i` sits at `i - 1`.
    pub positions: Vec<Position>,
    /// The trader index, one row per trader that ever opened a position.
    pub trader_index: Vec<TraderPositions>,
}

impl PerpetualTradingContract {
    /// Positions sit at their id's slot, every record is well formed, and
    /// the id counter points one past the last record.
    pub open spec fn wf_positions(self) -> bool {
        &&& self.next_position_id == self.positions@.len() + 1
        &&& forall|i: int|
            0 <= i < self.positions@.len() ==> (#[trigger] self.positions@[i]).wf()
                && self.positions@[i].id == i + 1
    }

    /// The index rows name distinct traders, each row carries exactly its
    /// trader's ids in opening order, and a trader without a row has no
    /// positions.
    pub open spec fn wf_index(self) -> bool {
        &&& forall|i: int, j: int|
            0 <= i < j < self.trader_index@.len() ==> (#[trigger] self.trader_index@[i]).trader
                != (#[trigger] self.trader_index@[j]).trader
        &&& forall|i: int|
            0 <= i < self.trader_index@.len() ==> (#[trigger] self.trader_index@[i]).position_ids@
                == ids_of(self.positions@, self.trader_index@[i].trader)
        &&& forall|t: u64|
            (forall|i: int|
                0 <= i < self.trader_index@.len() ==> (#[trigger] self.trader_index@[i]).trader
                    != t) ==> #[trigger] ids_of(self.positions@, t) == Seq::<u64>::empty()
    }

    /// The ledger invariant: constructors establish it and every operation
    /// preserves it.
    pub open spec fn wf(self) -> bool {
        &&& self.wf_positions()
        &&& self.wf_index()
    }

    /// The invariant does not depend on the scalar fields: two ledgers with
    /// the same records, the same index and the same id counter are equally
    /// well formed.
    pub proof fn lemma_wf_same_stores(c1: Self, c2: Self)
        requires
            c1.wf(),
            c2.positions@ == c1.positions@,
            c2.trader_index@ == c1.trader_index@,
            c2.next_position_id == c1.next_position_id,
        ensures
            c2.wf(),
    {
        assert forall|t: u64|
            (forall|j: int|
                0 <= j < c2.trader_index@.len() ==> (#[trigger] c2.trader_index@[j]).trader
                    != t) implies #[trigger] ids_of(c2.positions@, t) == Seq::<u64>::empty() by {
            assert(forall|j: int|
                0 <= j < c1.trader_index@.len() ==> (#[trigger] c1.trader_index@[j]).trader != t);
            assert(ids_of(c1.positions@, t) == Seq::<u64>::empty());
        }
    }

    /// A ledger before `initialize`: every mutating operation rejects with
    /// `Uninitialized`, and the getters answer with the defaults.
    pub fn new() -> (r: Self)
        ensures
            r.wf(),
            !r.initialized,
            r.admin == 0,
            r.price_oracle == 0,
            r.next_position_id == 1,
            r.total_balance == 0,
            !r.is_active,
            r.positions@ == Seq::<Position>::empty(),
            r.trader_index@ == Seq::<TraderPositions>::empty(),
    {
        PerpetualTradingContract {
            initialized: false,
            admin: 0,
            price_oracle: 0,
            next_position_id: 1,
            total_balance: 0,
            is_active: false,
            positions: Vec::new(),
            trader_index: Vec::new(),
        }
    }

    /// Seeds the ledger: stores the admin and oracle identities, starts the
    /// id counter at 1 and the balance at 0, and activates trading. Calling
    /// it again re-seeds the ledger from scratch, discarding earlier state;
    /// ids are never reused within one seeded ledger's life.
    pub fn initialize(&mut self, admin: u64, price_oracle: u64)
        ensures
            final(self).wf(),
            final(self).initialized,
            final(self).admin == admin,
            final(self).price_oracle == price_oracle,
            final(self).next_position_id == 1,
            final(self).total_balance == 0,
            final(self).is_active,
            final(self).positions@ == Seq::<Position>::empty(),
            final(self).trader_index@ == Seq::<TraderPositions>::empty(),
    {
        self.initialized = true;
        self.admin = admin;
        self.price_oracle = price_oracle;
        self.next_position_id = 1;
        self.total_balance = 0;
        self.is_active = true;
        self.positions = Vec::new();
        self.trader_index = Vec::new();
    }

    /// The constant reference price of the stub oracle: one whole unit of
    /// the base asset in smallest units.
    pub fn get_mock_price() -> (r: i128)
        ensures
            r == 10_000_000,
    {
        10_000_000
    }

    /// The rejection an open gets, if any: the first failing check in the
    /// order the ledger applies them. `None` means the open is owed
    /// success.
    pub open spec fn open_error(
        self,
        margin_amount: i128,
        leverage: u32,
        price: Option<i128>,
    ) -> Option<Error> {
        if !self.initialized {
            Some(Error::Uninitialized)
        } else if !self.is_active {
            Some(Error::Paused)
        } else if leverage < 1 || leverage > 10 {
            Some(Error::InvalidInput)
        } else if margin_amount < MIN_MARGIN {
            Some(Error::InvalidInput)
        } else if price is None {
            Some(Error::OracleUnavailable)
        } else if price->Some_0 <= 0 {
            Some(Error::InvalidInput)
        } else if margin_amount * leverage > i128::MAX {
            Some(Error::InvalidInput)
        } else if self.total_balance + margin_amount > i128::MAX {
            Some(Error::InvalidInput)
        } else if self.next_position_id == u64::MAX {
            Some(Error::InvalidInput)
        } else {
            None
        }
    }

    /// The record an accepted open appends.
    pub open spec fn spec_opened_position(
        self,
        trader: u64,
        margin_amount: i128,
        leverage: u32,
        is_long: bool,
        price: i128,
        now: u64,
    ) -> Position {
        Position {
            id: self.next_position_id,
            trader,
            margin: margin_amount,
            leverage,
            size: (margin_amount * leverage) as i128,
            side: if is_long {
                Side::Long
            } else {
                Side::Short
            },
            entry_price: price,
            open_time: now,
            status: PositionStatus::Open,
            close_price: 0,
            close_time: 0,
            realized_pnl: 0,
        }
    }

    /// What an open does: on any rejection it returns the first failing
    /// check's error and leaves the ledger exactly as it was; on success
    /// the new record gets the next id, the margin joins the custody
    /// balance, and everything else stands still.
    pub open spec fn open_post(
        pre: Self,
        post: Self,
        trader: u64,
        margin_amount: i128,
        leverage: u32,
        is_long: bool,
        price: Option<i128>,
        now: u64,
        r: Result<u64, Error>,
    ) -> bool {
        match r {
            Err(e) => pre.open_error(margin_amount, leverage, price) == Some(e) && post == pre,
            Ok(id) => {
                &&& pre.open_error(margin_amount, leverage, price) is None
                &&& id == pre.next_position_id
                &&& post.positions@ == pre.positions@.push(
                    pre.spec_opened_position(
                        trader,
                        margin_amount,
                        leverage,
                        is_long,
                        price->Some_0,
                        now,
                    ),
                )
                &&& post.next_position_id == pre.next_position_id + 1
                &&& post.total_balance == pre.total_balance + margin_amount
                &&& post.admin == pre.admin
                &&& post.price_oracle == pre.price_oracle
                &&& post.is_active == pre.is_active
                &&& post.initialized == pre.initialized
            },
        }
    }

    /// Opens a leveraged position for `trader` against the reference price
    /// `price` the caller fetched from the oracle (`None` when the fetch
    /// returned nothing), at ledger time `now`.
    ///
    /// On success the new record gets the next id, the margin is added to
    /// the custody balance, and the id is appended to the trader's index
    /// row; the returned id starts at 1 and is never reused. On any
    /// rejection the ledger is left exactly as it was.
    pub fn open_position(
        &mut self,
        trader: u64,
        margin_amount: i128,
        leverage: u32,
        is_long: bool,
        price: Option<i128>,
        now: u64,
    ) -> (r: Result<u64, Error>)
        requires
            old(self).wf(),
        ensures
            final(self).wf(),
            Self::open_post(
                *old(self),
                *final(self),
                trader,
                margin_amount,
                leverage,
                is_long,
                price,
                now,
                r,
            ),
    {
        if !self.initialized {
            return Err(Error::Uninitialized);
        }
        if !self.is_active {
            return Err(Error::Paused);
        }
        if leverage < 1 || leverage > 10 {
            return Err(Error::InvalidInput);
        }
        if margin_amount < MIN_MARGIN {
            return Err(Error::InvalidInput);
        }
        let price_value = match price {
            None => {
                return Err(Error::OracleUnavailable);
            },
            Some(p) => p,
        };
        if price_value <= 0 {
            return Err(Error::InvalidInput);
        }
        proof {
            assert(margin_amount * (leverage as i128) >= margin_amount && margin_amount * (
            leverage as i128) >= 0) by (nonlinear_arith)
                requires
                    margin_amount > 0,
                    1 <= leverage as i128,
            ;
        }
        let size = match margin_amount.checked_mul(leverage as i128) {
            None => {
                return Err(Error::InvalidInput);
            },
            Some(s) => s,
        };
        let new_balance = match self.total_balance.checked_add(margin_amount) {
            None => {
                return Err(Error::InvalidInput);
            },
            Some(b) => b,
        };
        if self.next_position_id == u64::MAX {
            return Err(Error::InvalidInput);
        }

        let position_id = self.next_position_id;
        let position = Position {
            id: position_id,
            trader,
            margin: margin_amount,
            leverage,
            size,
            side: if is_long {
                Side::Long
            } else {
                Side::Short
            },
            entry_price: price_value,
            open_time: now,
            status: PositionStatus::Open,
            close_price: 0,
            close_time: 0,
            realized_pnl: 0,
        };
        let ghost ps0 = self.positions@;
        self.positions.push(position);
        self.next_position_id = position_id + 1;
        self.total_balance = new_balance;
        proof {
            assert forall|t: u64| #[trigger]
                ids_of(self.positions@, t) == if t == trader {
                    ids_of(ps0, t).push(position_id)
                } else {
                    ids_of(ps0, t)
                } by {
                lemma_ids_of_push(ps0, position, t);
            }
        }
        let ghost ix0 = self.trader_index@;
        match Self::find_index_entry(&self.trader_index, trader) {
            Some(i) => {
                let mut entry = self.trader_index.remove(i);
                entry.position_ids.push(position_id);
                self.trader_index.insert(i, entry);
                proof {
                    assert(self.trader_index@ =~= ix0.update(
                        i as int,
                        self.trader_index@[i as int],
                    ));
                    assert((#[trigger] self.trader_index@[i as int]).trader == trader);
                }
            },
            None => {
                let mut ids: Vec<u64> = Vec::new();
                ids.push(position_id);
                self.trader_index.push(TraderPositions { trader, position_ids: ids });
                proof {
                    assert((#[trigger] self.trader_index@[ix0.len() as int]).trader == trader);
                }
            },
        }
        proof {
            // Row by row the index still names the traders it named before,
            // and the opener now has a row; so a trader without a row had
            // none before either, and still has no positions.
            assert(exists|k: int|
                0 <= k < self.trader_index@.len() && (#[trigger] self.trader_index@[k]).trader
                    == trader);
            assert forall|t: u64|
                (forall|j: int|
                    0 <= j < self.trader_index@.len() ==> (#[trigger] self.trader_index@[j]).trader
                        != t) implies #[trigger] ids_of(self.positions@, t) == Seq::<u64>::empty()
            by {
                let k = choose|k: int|
                    0 <= k < self.trader_index@.len() && (#[trigger] self.trader_index@[k]).trader
                        == trader;
                assert(self.trader_index@[k].trader != t);
                assert forall|j: int| 0 <= j < ix0.len() implies (#[trigger] ix0[j]).trader != t by {
                    assert(self.trader_index@[j].trader == ix0[j].trader);
                }
                assert(ids_of(ps0, t) == Seq::<u64>::empty());
                assert(ids_of(self.positions@, t) == ids_of(ps0, t));
            }
        }
        Ok(position_id)
    }

    /// Opens a long position: an open with the side fixed.
    pub fn open_long_position(
        &mut self,
        trader: u64,
        margin_amount: i128,
        leverage: u32,
        price: Option<i128>,
        now: u64,
    ) -> (r: Result<u64, Error>)
        requires
            old(self).wf(),
        ensures
            final(self).wf(),
            Self::open_post(
                *old(self),
                *final(self),
                trader,
                margin_amount,
                leverage,
                true,
                price,
                now,
                r,
            ),
    {
        self.open_position(trader, margin_amount, leverage, true, price, now)
    }

    /// Opens a short position: an open with the side fixed.
    pub fn open_short_position(
        &mut self,
        trader: u64,
        margin_amount: i128,
        leverage: u32,
        price: Option<i128>,
        now: u64,
    ) -> (r: Result<u64, Error>)
        requires
            old(self).wf(),
        ensures
            final(self).wf(),
            Self::open_post(
                *old(self),
                *final(self),
                trader,
                margin_amount,
                leverage,
                false,
                price,
                now,
                r,
            ),
    {
        self.open_position(trader, margin_amount, leverage, false, price, now)
    }

    /// The position of `trader`'s row in the index, if the trader has one.
    fn find_index_entry(index: &Vec<TraderPositions>, trader: u64) -> (r: Option<usize>)
        ensures
            match r {
                Some(i) => i < index@.len() && index@[i as int].trader == trader,
                None => forall|j: int| 0 <= j < index@.len() ==> index@[j].trader != trader,
            },
    {
        let mut i: usize = 0;
        while i < index.len()
            invariant
                i <= index@.len(),
                forall|j: int| 0 <= j < i ==> index@[j].trader != trader,
            decreases index@.len() - i,
        {
            if index[i].trader == trader {
                return Some(i);
            }
            i = i + 1;
        }
        None
    }

    /// The rejection a close gets, if any: the first failing check in the
    /// order the ledger applies them. `None` means the close is owed
    /// success.
    pub open spec fn close_error(self, trader: u64, position_id: u64, price: Option<i128>) -> Option<
        Error,
    > {
        if !self.initialized {
            Some(Error::Uninitialized)
        } else if !self.is_active {
            Some(Error::Paused)
        } else if position_id < 1 || position_id >= self.next_position_id {
            Some(Error::NotFound)
        } else {
            let p = self.positions@[position_id - 1];
            if p.status is Closed {
                Some(Error::AlreadyClosed)
            } else if p.trader != trader {
                Some(Error::Unauthorized)
            } else if price is None {
                Some(Error::OracleUnavailable)
            } else if price->Some_0 <= 0 {
                Some(Error::InvalidInput)
            } else if !pnl_fits(
                p.entry_price as int,
                price->Some_0 as int,
                p.size as int,
                p.side,
            ) {
                Some(Error::InvalidInput)
            } else {
                let pnl = spec_pnl(p.entry_price as int, price->Some_0 as int, p.size as int, p.side);
                if p.margin + pnl > i128::MAX {
                    Some(Error::InvalidInput)
                } else if self.total_balance - spec_payout(p.margin as int, pnl) < i128::MIN {
                    Some(Error::InvalidInput)
                } else {
                    None
                }
            }
        }
    }

    /// The frozen record a settled close leaves behind.
    pub open spec fn spec_closed_position(p: Position, price: i128, now: u64) -> Position {
        Position {
            status: PositionStatus::Closed,
            close_price: price,
            close_time: now,
            realized_pnl: spec_pnl(
                p.entry_price as int,
                price as int,
                p.size as int,
                p.side,
            ) as i128,
            ..p
        }
    }

    /// Closes the position `position_id` for its owner `trader`, settling
    /// at the reference price `price` the caller fetched from the oracle,
    /// at ledger time `now`.
    ///
    /// On success the record is frozen with the settlement price, time and
    /// realized PnL, and the payout — `margin + pnl`, floored at exactly
    /// `margin` when that sum is not positive — leaves the custody balance.
    /// The signed PnL is returned and may be negative even though the
    /// payout was floored. On any rejection the ledger is left exactly as
    /// it was.
    pub fn close_position(
        &mut self,
        trader: u64,
        position_id: u64,
        price: Option<i128>,
        now: u64,
    ) -> (r: Result<i128, Error>)
        requires
            old(self).wf(),
        ensures
            final(self).wf(),
            match r {
                Err(e) => old(self).close_error(trader, position_id, price) == Some(e)
                    && *final(self) == *old(self),
                Ok(pnl) => {
                    let p = old(self).positions@[position_id - 1];
                    &&& old(self).close_error(trader, position_id, price) is None
                    &&& pnl == spec_pnl(
                        p.entry_price as int,
                        price->Some_0 as int,
                        p.size as int,
                        p.side,
                    )
                    &&& final(self).positions@ == old(self).positions@.update(
                        position_id - 1,
                        Self::spec_closed_position(p, price->Some_0, now),
                    )
                    &&& final(self).total_balance == old(self).total_balance - spec_payout(
                        p.margin as int,
                        pnl as int,
                    )
                    &&& final(self).trader_index@ == old(self).trader_index@
                    &&& final(self).next_position_id == old(self).next_position_id
                    &&& final(self).admin == old(self).admin
                    &&& final(self).price_oracle == old(self).price_oracle
                    &&& final(self).is_active == old(self).is_active
                    &&& final(self).initialized == old(self).initialized
                },
            },
    {
        if !self.initialized {
            return Err(Error::Uninitialized);
        }
        if !self.is_active {
            return Err(Error::Paused);
        }
        if position_id < 1 || position_id >= self.next_position_id {
            return Err(Error::NotFound);
        }
        let n = self.positions.len();
        proof {
            assert(position_id - 1 < n);
        }
        let idx = (position_id - 1) as usize;
        let p = self.positions[idx];
        match p.status {
            PositionStatus::Closed => {
                return Err(Error::AlreadyClosed);
            },
            PositionStatus::Open => {},
        }
        if p.trader != trader {
            return Err(Error::Unauthorized);
        }
        let price_value = match price {
            None => {
                return Err(Error::OracleUnavailable);
            },
            Some(v) => v,
        };
        if price_value <= 0 {
            return Err(Error::InvalidInput);
        }
        let pnl = match calculate_pnl(p.entry_price, price_value, p.size, p.side) {
            None => {
                return Err(Error::InvalidInput);
            },
            Some(v) => v,
        };
        let total_payout = match p.margin.checked_add(pnl) {
            None => {
                return Err(Error::InvalidInput);
            },
            Some(v) => v,
        };
        let payout_amount = if total_payout > 0 {
            total_payout
        } else {
            p.margin
        };
        let new_balance = match self.total_balance.checked_sub(payout_amount) {
            None => {
                return Err(Error::InvalidInput);
            },
            Some(v) => v,
        };

        let closed = Position {
            status: PositionStatus::Closed,
            close_price: price_value,
            close_time: now,
            realized_pnl: pnl,
            ..p
        };
        let ghost ps0 = self.positions@;
        self.positions[idx] = closed;
        self.total_balance = new_balance;
        proof {
            assert forall|t: u64| #[trigger] ids_of(self.positions@, t) == ids_of(ps0, t) by {
                lemma_ids_of_same_traders(self.positions@, ps0, t);
            }
        }
        Ok(pnl)
    }

    /// The rejection a withdrawal gets, if any.
    pub open spec fn withdraw_error(self, admin: u64, amount: i128) -> Option<Error> {
        if !self.initialized {
            Some(Error::Uninitialized)
        } else if admin != self.admin {
            Some(Error::Unauthorized)
        } else if amount < 0 {
            Some(Error::InvalidInput)
        } else if amount > self.total_balance {
            Some(Error::InsufficientBalance)
        } else {
            None
        }
    }

    /// Withdraws `amount` from the custody balance; admin only. Never
    /// succeeds when `amount` exceeds the balance, so a withdrawal can
    /// never drive the balance negative; on success the balance decreases
    /// by exactly `amount`.
    pub fn withdraw_contract_balance(&mut self, admin: u64, amount: i128) -> (r: Result<
        bool,
        Error,
    >)
        requires
            old(self).wf(),
        ensures
            final(self).wf(),
            match r {
                Err(e) => old(self).withdraw_error(admin, amount) == Some(e) && *final(self)
                    == *old(self),
                Ok(flag) => {
                    &&& flag
                    &&& old(self).withdraw_error(admin, amount) is None
                    &&& final(self).total_balance == old(self).total_balance - amount
                    &&& final(self).positions@ == old(self).positions@
                    &&& final(self).trader_index@ == old(self).trader_index@
                    &&& final(self).next_position_id == old(self).next_position_id
                    &&& final(self).admin == old(self).admin
                    &&& final(self).price_oracle == old(self).price_oracle
                    &&& final(self).is_active == old(self).is_active
                    &&& final(self).initialized == old(self).initialized
                },
            },
    {
        if !self.initialized {
            return Err(Error::Uninitialized);
        }
        if admin != self.admin {
            return Err(Error::Unauthorized);
        }
        if amount < 0 {
            return Err(Error::InvalidInput);
        }
        if amount > self.total_balance {
            return Err(Error::InsufficientBalance);
        }
        self.total_balance = self.total_balance - amount;
        Ok(true)
    }

    /// The rejection an admin-only toggle gets, if any.
    pub open spec fn admin_error(self, caller: u64) -> Option<Error> {
        if !self.initialized {
            Some(Error::Uninitialized)
        } else if caller != self.admin {
            Some(Error::Unauthorized)
        } else {
            None
        }
    }

    /// Pauses the ledger: until `resume_contract`, opens and closes are
    /// rejected with `Paused`. Admin only.
    pub fn pause_contract(&mut self, admin: u64) -> (r: Result<(), Error>)
        requires
            old(self).wf(),
        ensures
            final(self).wf(),
            match r {
                Err(e) => old(self).admin_error(admin) == Some(e) && *final(self) == *old(self),
                Ok(_) => old(self).admin_error(admin) is None && *final(self) == (
                PerpetualTradingContract { is_active: false, ..*old(self) }),
            },
    {
        if !self.initialized {
            return Err(Error::Uninitialized);
        }
        if admin != self.admin {
            return Err(Error::Unauthorized);
        }
        self.is_active = false;
        proof {
            Self::lemma_wf_same_stores(*old(self), *self);
        }
        Ok(())
    }

    /// Lifts a pause. Admin only.
    pub fn resume_contract(&mut self, admin: u64) -> (r: Result<(), Error>)
        requires
            old(self).wf(),
        ensures
            final(self).wf(),
            match r {
                Err(e) => old(self).admin_error(admin) == Some(e) && *final(self) == *old(self),
                Ok(_) => old(self).admin_error(admin) is None && *final(self) == (
                PerpetualTradingContract { is_active: true, ..*old(self) }),
            },
    {
        if !self.initialized {
            return Err(Error::Uninitialized);
        }
        if admin != self.admin {
            return Err(Error::Unauthorized);
        }
        self.is_active = true;
        proof {
            Self::lemma_wf_same_stores(*old(self), *self);
        }
        Ok(())
    }

    /// The aggregate custody balance.
    pub fn get_contract_balance(&self) -> (r: i128)
        ensures
            r == self.total_balance,
    {
        self.total_balance
    }

    /// The ledger's vital signs: balance, next id, and whether trading is
    /// active.
    pub fn get_contract_stats(&self) -> (r: (i128, u64, bool))
        ensures
            r == (self.total_balance, self.next_position_id, self.is_active),
    {
        (self.total_balance, self.next_position_id, self.is_active)
    }

    /// The record stored under `position_id`, or `None` when that id was
    /// never allocated.
    pub fn get_position(&self, position_id: u64) -> (r: Option<Position>)
        requires
            self.wf(),
        ensures
            r == if 1 <= position_id < self.next_position_id {
                Some(self.positions@[position_id - 1])
            } else {
                None::<Position>
            },
    {
        if 1 <= position_id && position_id < self.next_position_id {
            let n = self.positions.len();
            proof {
                assert(position_id - 1 < n);
            }
            let idx = (position_id - 1) as usize;
            Some(self.positions[idx])
        } else {
            None
        }
    }

    /// The most recently opened position — what a single-slot view of the
    /// ledger would show — or `None` before the first open.
    pub fn get_current_position(&self) -> (r: Option<Position>)
        requires
            self.wf(),
        ensures
            r == if self.positions@.len() > 0 {
                Some(self.positions@.last())
            } else {
                None::<Position>
            },
    {
        let n = self.positions.len();
        if n > 0 {
            Some(self.positions[n - 1])
        } else {
            None
        }
    }

    /// Every id `trader` ever opened, in opening order; empty for a trader
    /// that never opened a position.
    pub fn get_trader_positions(&self, trader: u64) -> (r: Vec<u64>)
        requires
            self.wf(),
        ensures
            r@ == ids_of(self.positions@, trader),
    {
        match Self::find_index_entry(&self.trader_index, trader) {
            Some(i) => {
                let entry = &self.trader_index[i];
                let n = entry.position_ids.len();
                let mut out: Vec<u64> = Vec::new();
                let mut k: usize = 0;
                while k < n
                    invariant
                        k <= n,
                        n == entry.position_ids@.len(),
                        out@ == entry.position_ids@.take(k as int),
                    decreases n - k,
                {
                    let id = entry.position_ids[k];
                    out.push(id);
                    proof {
                        assert(out@ =~= entry.position_ids@.take(k as int + 1));
                    }
                    k = k + 1;
                }
                proof {
                    assert(out@ =~= entry.position_ids@);
                }
                out
            },
            None => {
                let out: Vec<u64> = Vec::new();
                proof {
                    assert(ids_of(self.positions@, trader) == Seq::<u64>::empty());
                }
                out
            },
        }
    }
}

/// Size law: every stored position of a well-formed ledger satisfies
/// `size == margin * leverage`.
pub proof fn lemma_position_size_invariant(c: PerpetualTradingContract, i: int)
    requires
        c.wf(),
        0 <= i < c.positions@.len(),
    ensures
        c.positions@[i].size == c.positions@[i].margin * c.positions@[i].leverage,
{
}

} // verus!
