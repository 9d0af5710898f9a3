//! Reading the state: single records, listings and aggregates.
use vstd::prelude::*;
use crate::app_state::AppState;
use crate::errors::ErrorCode;
use crate::ledger::{counting_weight, sum_over, Ledger};
use crate::state::position::{Position, PositionStatus};
use crate::state::user::{texts, User};
use crate::state::user_account::UserAccount;
use crate::tiers::LeverageTier;

verus! {

/// The identities of the positions of `owner`, in the order of the positions.
pub open spec fn owned_ids(positions: Seq<Position>, owner: Seq<char>) -> Seq<Seq<char>>
    decreases positions.len(),
{
    if positions.len() == 0 {
        Seq::empty()
    } else if positions.last().owner@ == owner {
        owned_ids(positions.drop_last(), owner).push(positions.last().id@)
    } else {
        owned_ids(positions.drop_last(), owner)
    }
}

/// `user` reports the account at `slot` and the positions of its owner.
pub open spec fn describes(user: User, ledger: Ledger, slot: int) -> bool {
    &&& user.address@ == ledger.users[slot].owner@
    &&& user.collateral == ledger.users[slot].total_collateral
    &&& user.locked_collateral == ledger.users[slot].locked_collateral
    &&& user.total_pnl == ledger.users[slot].total_pnl
    &&& user.created_at == ledger.users[slot].created_at
    &&& user.position_ids() == owned_ids(ledger.positions, ledger.users[slot].owner@)
}

/// Weighs a position by one if it stands in `status`, else by zero.
pub open spec fn status_weight(status: PositionStatus) -> spec_fn(Position) -> int {
    |p: Position|
        if p.status == status {
            1
        } else {
            0
        }
}

/// The number of positions that stand in `status`.
pub open spec fn status_total(positions: Seq<Position>, status: PositionStatus) -> int {
    sum_over(positions, status_weight(status))
}

/// All positions, with how many there are and how many of them are open and
/// closed.
#[derive(Debug)]
pub struct PositionList {
    /// The number of positions.
    pub total: usize,
    /// The number of open positions.
    pub open_positions: usize,
    /// The number of closed positions; liquidated ones are not among them.
    pub closed_positions: usize,
    /// The positions, in the order in which they were opened.
    pub positions: Vec<Position>,
}

/// A prefix grown by one position.
proof fn lemma_take_step(positions: Seq<Position>, i: int)
    requires
        0 <= i < positions.len(),
    ensures
        positions.take(i + 1) == positions.take(i).push(positions[i]),
        positions.take(i + 1).drop_last() == positions.take(i),
        positions.take(i + 1).last() == positions[i],
{
    assert(positions.take(i + 1) =~= positions.take(i).push(positions[i]));
    assert(positions.take(i + 1).drop_last() =~= positions.take(i));
}

impl AppState {
    /// The position with the given id.
    pub fn get_position(&self, id: &String) -> (found: Option<Position>)
        ensures
            found == (if self@.has_position(id@) {
                Some(self@.positions[self@.position_index(id@)])
            } else {
                None
            }),
    {
        match self.find_position(id) {
            Some(index) => Some(self.position(index).clone()),
            None => None,
        }
    }

    /// The account of the given owner.
    pub fn get_account(&self, owner: &String) -> (found: Option<UserAccount>)
        ensures
            found == (if self@.has_user(owner@) {
                Some(self@.users[self@.user_index(owner@)])
            } else {
                None
            }),
    {
        match self.find_user(owner) {
            Some(slot) => Some(self.account(slot).clone()),
            None => None,
        }
    }

    /// The identities of the positions of `owner`, open or not, in the order
    /// in which they were opened.
    pub fn position_ids_of(&self, owner: &String) -> (ids: Vec<String>)
        ensures
            texts(ids@) == owned_ids(self@.positions, owner@),
    {
        let mut ids: Vec<String> = Vec::new();
        let count = self.position_count();
        let mut i: usize = 0;
        assert(texts(ids@) =~= owned_ids(self@.positions.take(0), owner@));
        while i < count
            invariant
                count == self@.positions.len(),
                0 <= i <= count,
                texts(ids@) == owned_ids(self@.positions.take(i as int), owner@),
            decreases count - i,
        {
            let position = self.position(i);
            proof {
                lemma_take_step(self@.positions, i as int);
            }
            if position.owner == *owner {
                let ghost before = ids@;
                ids.push(position.id.clone());
                assert(texts(ids@) =~= texts(before).push(position.id@));
            }
            i += 1;
        }
        assert(self@.positions.take(count as int) =~= self@.positions);
        ids
    }

    /// What the engine reports of the account at `slot`.
    fn describe(&self, slot: usize) -> (user: User)
        requires
            slot < self@.users.len(),
        ensures
            describes(user, self@, slot as int),
    {
        let account = self.account(slot);
        User {
            address: account.owner.clone(),
            collateral: account.total_collateral,
            locked_collateral: account.locked_collateral,
            positions: self.position_ids_of(&account.owner),
            total_pnl: account.total_pnl,
            created_at: account.created_at,
        }
    }

    /// The user with the given address: the account and the identities of the
    /// owner's positions.
    pub fn get_user(&self, address: &String) -> (found: Option<User>)
        ensures
            found is Some <==> self@.has_user(address@),
            found matches Some(user) ==> describes(user, self@, self@.user_index(address@)),
    {
        match self.find_user(address) {
            Some(slot) => Some(self.describe(slot)),
            None => None,
        }
    }

    /// All users, in the order in which their accounts were created.
    pub fn list_users(&self) -> (users: Vec<User>)
        ensures
            users@.len() == self@.users.len(),
            forall|j: int| 0 <= j < users@.len() ==> describes(#[trigger] users@[j], self@, j),
    {
        let mut users: Vec<User> = Vec::new();
        let count = self.user_count();
        let mut j: usize = 0;
        while j < count
            invariant
                count == self@.users.len(),
                0 <= j <= count,
                users@.len() == j,
                forall|k: int| 0 <= k < j ==> describes(#[trigger] users@[k], self@, k),
            decreases count - j,
        {
            users.push(self.describe(j));
            j += 1;
        }
        users
    }

    /// The number of positions that stand in `status`.
    pub fn count_status(&self, status: PositionStatus) -> (count: usize)
        ensures
            count == status_total(self@.positions, status),
    {
        let total = self.position_count();
        let mut count: usize = 0;
        let mut i: usize = 0;
        while i < total
            invariant
                total == self@.positions.len(),
                0 <= i <= total,
                count <= i,
                count == status_total(self@.positions.take(i as int), status),
            decreases total - i,
        {
            proof {
                lemma_take_step(self@.positions, i as int);
            }
            if self.position(i).status == status {
                count += 1;
            }
            i += 1;
        }
        assert(self@.positions.take(total as int) =~= self@.positions);
        count
    }

    /// All positions, in the order in which they were opened, with their
    /// number and the numbers of open and of closed positions.
    pub fn list_positions(&self) -> (list: PositionList)
        ensures
            list.positions@ == self@.positions,
            list.total == self@.positions.len(),
            list.open_positions == status_total(self@.positions, PositionStatus::Open),
            list.closed_positions == status_total(self@.positions, PositionStatus::Closed),
    {
        let mut positions: Vec<Position> = Vec::new();
        let total = self.position_count();
        let mut i: usize = 0;
        while i < total
            invariant
                total == self@.positions.len(),
                0 <= i <= total,
                positions@ == self@.positions.take(i as int),
            decreases total - i,
        {
            proof {
                lemma_take_step(self@.positions, i as int);
            }
            positions.push(self.position(i).clone());
            i += 1;
        }
        assert(self@.positions.take(total as int) =~= self@.positions);
        PositionList {
            total,
            open_positions: self.count_status(PositionStatus::Open),
            closed_positions: self.count_status(PositionStatus::Closed),
            positions,
        }
    }
}

/// Weighs a position by its unrealized profit and loss if `owner` owns it
/// and it is open, else by zero.
pub open spec fn unrealized_weight(owner: Seq<char>) -> spec_fn(Position) -> int {
    |p: Position|
        if p.owner@ == owner && p.is_open() {
            p.unrealized_pnl as int
        } else {
            0
        }
}

/// Weighs a position by its realized profit and loss if `owner` owns it and
/// it was closed or liquidated, else by zero.
pub open spec fn realized_weight(owner: Seq<char>) -> spec_fn(Position) -> int {
    |p: Position|
        if p.owner@ == owner && !p.is_open() {
            p.realized_pnl as int
        } else {
            0
        }
}

/// Whether a total fits a signed 64-bit integer.
pub open spec fn fits_i64(total: int) -> bool {
    i64::MIN <= total <= i64::MAX
}

/// The profit and loss of one owner, over the owner's positions.
#[derive(Debug)]
pub struct UserPnl {
    /// The identity of the owner.
    pub address: String,
    /// The number of the owner's open positions.
    pub open_positions: usize,
    /// The number of the owner's closed positions; liquidated ones are not
    /// among them.
    pub closed_positions: usize,
    /// The unrealized profit and loss of the owner's open positions.
    pub total_unrealized_pnl: i64,
    /// The realized profit and loss of the owner's closed and liquidated
    /// positions.
    pub total_realized_pnl: i64,
    /// The sum of the two.
    pub total_pnl: i64,
}

/// `report` states the profit and loss of `owner` over `positions`.
pub open spec fn reports_pnl(report: UserPnl, positions: Seq<Position>, owner: Seq<char>) -> bool {
    &&& report.address@ == owner
    &&& report.open_positions == sum_over(
        positions,
        counting_weight(owner, PositionStatus::Open),
    )
    &&& report.closed_positions == sum_over(
        positions,
        counting_weight(owner, PositionStatus::Closed),
    )
    &&& report.total_unrealized_pnl == sum_over(positions, unrealized_weight(owner))
    &&& report.total_realized_pnl == sum_over(positions, realized_weight(owner))
    &&& report.total_pnl == report.total_unrealized_pnl + report.total_realized_pnl
}

/// Weighs a position by its notional value: entry price times size.
pub open spec fn notional_weight() -> spec_fn(Position) -> int {
    |p: Position| p.entry_price * p.size
}

/// Weighs a position by the profit and loss it stands at: unrealized while it
/// is open, realized once it was closed or liquidated.
pub open spec fn pnl_weight() -> spec_fn(Position) -> int {
    |p: Position|
        if p.is_open() {
            p.unrealized_pnl as int
        } else {
            p.realized_pnl as int
        }
}

/// Aggregates over the whole state.
#[derive(Debug)]
pub struct Metrics {
    /// The number of accounts.
    pub user_count: usize,
    /// The number of positions.
    pub position_count: usize,
    /// The number of open positions.
    pub open_positions: usize,
    /// The number of closed positions; liquidated ones are not among them.
    pub closed_positions: usize,
    /// The sum of the notional values of all positions.
    pub total_volume: u128,
    /// The sum of the profit and loss all positions stand at.
    pub total_pnl: i64,
    /// The leverage tiers, in table order.
    pub leverage_tiers: Vec<LeverageTier>,
}

/// `metrics` states the aggregates of `ledger`.
pub open spec fn measures(metrics: Metrics, ledger: Ledger) -> bool {
    &&& metrics.user_count == ledger.users.len()
    &&& metrics.position_count == ledger.positions.len()
    &&& metrics.open_positions == status_total(ledger.positions, PositionStatus::Open)
    &&& metrics.closed_positions == status_total(ledger.positions, PositionStatus::Closed)
    &&& metrics.total_volume == sum_over(ledger.positions, notional_weight())
    &&& metrics.total_pnl == sum_over(ledger.positions, pnl_weight())
    &&& metrics.leverage_tiers@ == ledger.tiers
}

/// Where no weight is negative, the sum over a prefix does not exceed the
/// sum over the whole.
proof fn lemma_sum_prefix(positions: Seq<Position>, i: int, weight: spec_fn(Position) -> int)
    requires
        0 <= i <= positions.len(),
        forall|k: int| 0 <= k < positions.len() ==> weight(#[trigger] positions[k]) >= 0,
    ensures
        sum_over(positions.take(i), weight) <= sum_over(positions, weight),
    decreases positions.len() - i,
{
    if i < positions.len() {
        lemma_take_step(positions, i);
        assert(weight(positions[i]) >= 0);
        lemma_sum_prefix(positions, i + 1, weight);
    } else {
        assert(positions.take(i) =~= positions);
    }
}

impl AppState {
    /// The sum of a signed 64-bit quantity over the positions, exact.
    fn signed_total(&self, owner: &String, realized: bool) -> (total: i128)
        ensures
            total == sum_over(
                self@.positions,
                if realized {
                    realized_weight(owner@)
                } else {
                    unrealized_weight(owner@)
                },
            ),
    {
        let ghost weight = if realized {
            realized_weight(owner@)
        } else {
            unrealized_weight(owner@)
        };
        let count = self.position_count();
        let mut total: i128 = 0;
        let mut i: usize = 0;
        while i < count
            invariant
                count == self@.positions.len(),
                0 <= i <= count,
                total == sum_over(self@.positions.take(i as int), weight),
                -(i * 0x8000_0000_0000_0000) <= total <= i * 0x8000_0000_0000_0000,
                weight == (if realized {
                    realized_weight(owner@)
                } else {
                    unrealized_weight(owner@)
                }),
            decreases count - i,
        {
            proof {
                lemma_take_step(self@.positions, i as int);
            }
            let position = self.position(i);
            if position.owner == *owner {
                if realized && position.status.is_terminal() {
                    total = total + position.realized_pnl as i128;
                } else if !realized && !position.status.is_terminal() {
                    total = total + position.unrealized_pnl as i128;
                }
            }
            i += 1;
        }
        assert(self@.positions.take(count as int) =~= self@.positions);
        total
    }

    /// The number of positions of `owner` that stand in `status`.
    pub fn count_owned(&self, owner: &String, status: PositionStatus) -> (count: usize)
        ensures
            count == sum_over(self@.positions, counting_weight(owner@, status)),
    {
        let total = self.position_count();
        let mut count: usize = 0;
        let mut i: usize = 0;
        while i < total
            invariant
                total == self@.positions.len(),
                0 <= i <= total,
                count <= i,
                count == sum_over(self@.positions.take(i as int), counting_weight(owner@, status)),
            decreases total - i,
        {
            proof {
                lemma_take_step(self@.positions, i as int);
            }
            let position = self.position(i);
            if position.owner == *owner && position.status == status {
                count += 1;
            }
            i += 1;
        }
        assert(self@.positions.take(total as int) =~= self@.positions);
        count
    }

    /// The profit and loss of `address` over the owner's positions; for an
    /// owner without positions, zeros. A total beyond the signed 64-bit range
    /// is refused.
    pub fn user_pnl(&self, address: &String) -> (result: Result<UserPnl, ErrorCode>)
        ensures
            result is Ok <==> {
                &&& fits_i64(sum_over(self@.positions, unrealized_weight(address@)))
                &&& fits_i64(sum_over(self@.positions, realized_weight(address@)))
                &&& fits_i64(
                    sum_over(self@.positions, unrealized_weight(address@)) + sum_over(
                        self@.positions,
                        realized_weight(address@),
                    ),
                )
            },
            result matches Ok(report) ==> reports_pnl(report, self@.positions, address@),
            result matches Err(e) ==> e == ErrorCode::CalculationOverflow,
    {
        let unrealized = self.signed_total(address, false);
        let realized = self.signed_total(address, true);
        if unrealized < i64::MIN as i128 || unrealized > i64::MAX as i128 {
            return Err(ErrorCode::CalculationOverflow);
        }
        if realized < i64::MIN as i128 || realized > i64::MAX as i128 {
            return Err(ErrorCode::CalculationOverflow);
        }
        let total = unrealized + realized;
        if total < i64::MIN as i128 || total > i64::MAX as i128 {
            return Err(ErrorCode::CalculationOverflow);
        }
        Ok(
            UserPnl {
                address: address.clone(),
                open_positions: self.count_owned(address, PositionStatus::Open),
                closed_positions: self.count_owned(address, PositionStatus::Closed),
                total_unrealized_pnl: unrealized as i64,
                total_realized_pnl: realized as i64,
                total_pnl: total as i64,
            },
        )
    }

    /// The aggregates of the state. A total volume beyond 128 bits, or a
    /// total profit and loss beyond the signed 64-bit range, is refused.
    pub fn metrics(&self) -> (result: Result<Metrics, ErrorCode>)
        ensures
            result is Ok <==> {
                &&& sum_over(self@.positions, notional_weight()) <= u128::MAX
                &&& fits_i64(sum_over(self@.positions, pnl_weight()))
            },
            result matches Ok(metrics) ==> measures(metrics, self@),
            result matches Err(e) ==> e == ErrorCode::CalculationOverflow,
    {
        let count = self.position_count();
        let mut volume: u128 = 0;
        let mut pnl: i128 = 0;
        let mut i: usize = 0;
        proof {
            assert forall|k: int| 0 <= k < self@.positions.len() implies notional_weight()(
                #[trigger] self@.positions[k],
            ) >= 0 by {
                assert(self@.positions[k].entry_price * self@.positions[k].size >= 0)
                    by (nonlinear_arith);
            }
        }
        while i < count
            invariant
                count == self@.positions.len(),
                0 <= i <= count,
                volume == sum_over(self@.positions.take(i as int), notional_weight()),
                pnl == sum_over(self@.positions.take(i as int), pnl_weight()),
                -(i * 0x8000_0000_0000_0000) <= pnl <= i * 0x8000_0000_0000_0000,
                forall|k: int|
                    0 <= k < self@.positions.len() ==> notional_weight()(
                        #[trigger] self@.positions[k],
                    ) >= 0,
            decreases count - i,
        {
            proof {
                lemma_take_step(self@.positions, i as int);
            }
            let position = self.position(i);
            let value = crate::margin::notional(position.entry_price, position.size);
            volume = match volume.checked_add(value) {
                Some(volume) => volume,
                None => {
                    proof {
                        lemma_sum_prefix(self@.positions, i + 1, notional_weight());
                    }
                    return Err(ErrorCode::CalculationOverflow);
                },
            };
            if position.status.is_terminal() {
                pnl = pnl + position.realized_pnl as i128;
            } else {
                pnl = pnl + position.unrealized_pnl as i128;
            }
            i += 1;
        }
        assert(self@.positions.take(count as int) =~= self@.positions);
        if pnl < i64::MIN as i128 || pnl > i64::MAX as i128 {
            return Err(ErrorCode::CalculationOverflow);
        }
        Ok(
            Metrics {
                user_count: self.user_count(),
                position_count: count,
                open_positions: self.count_status(PositionStatus::Open),
                closed_positions: self.count_status(PositionStatus::Closed),
                total_volume: volume,
                total_pnl: pnl as i64,
                leverage_tiers: self.tiers().to_vec(),
            },
        )
    }
}

} // verus!
