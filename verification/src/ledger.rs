//! The ledger as a mathematical value: tiers, accounts and positions, the
//! invariant that ties them together, and what each operation makes of them.
//!
//! The executable state refines this model: every operation on it is stated
//! as one of the functions below, and the lemmas show that each of them keeps
//! the invariant.
use vstd::prelude::*;
use crate::errors::ErrorCode;
use crate::instructions::close_position::{close_spec, ClosePosition};
use crate::instructions::liquidate_position::{liquidate_spec, LiquidatePosition};
use crate::instructions::modify_position::{modify_spec, ModifyPosition};
use crate::instructions::open_position::{open_spec, OpenPosition};
use crate::state::position::{Position, PositionSide, PositionStatus};
use crate::state::user_account::UserAccount;
use crate::tiers::{table_valid, LeverageTier};

verus! {

/// The sum of `weight` over the positions.
pub open spec fn sum_over(positions: Seq<Position>, weight: spec_fn(Position) -> int) -> int
    decreases positions.len(),
{
    if positions.len() == 0 {
        0
    } else {
        sum_over(positions.drop_last(), weight) + weight(positions.last())
    }
}

/// Weighs a position by the margin it keeps locked for `owner`: its margin
/// if `owner` owns it and it is open, else nothing.
pub open spec fn locked_weight(owner: Seq<char>) -> spec_fn(Position) -> int {
    |p: Position|
        if p.owner@ == owner {
            p.locked_margin()
        } else {
            0
        }
}

/// Weighs a position by one if `owner` owns it and it stands in `status`,
/// else by zero.
pub open spec fn counting_weight(owner: Seq<char>, status: PositionStatus) -> spec_fn(
    Position,
) -> int {
    |p: Position|
        if p.owner@ == owner && p.status == status {
            1
        } else {
            0
        }
}

/// Weighs a position by one if `owner` owns it and it is open, else by zero.
pub open spec fn open_weight(owner: Seq<char>) -> spec_fn(Position) -> int {
    counting_weight(owner, PositionStatus::Open)
}

/// The margin locked by the open positions of `owner`.
pub open spec fn locked_total(positions: Seq<Position>, owner: Seq<char>) -> int {
    sum_over(positions, locked_weight(owner))
}

/// The number of open positions of `owner`.
pub open spec fn open_total(positions: Seq<Position>, owner: Seq<char>) -> int {
    sum_over(positions, open_weight(owner))
}

/// Appending a position adds its weight to the sum.
pub proof fn lemma_sum_push(positions: Seq<Position>, p: Position, weight: spec_fn(Position) -> int)
    ensures
        sum_over(positions.push(p), weight) == sum_over(positions, weight) + weight(p),
{
    assert(positions.push(p).drop_last() =~= positions);
}

/// Replacing a position replaces its weight in the sum.
pub proof fn lemma_sum_update(
    positions: Seq<Position>,
    index: int,
    p: Position,
    weight: spec_fn(Position) -> int,
)
    requires
        0 <= index < positions.len(),
    ensures
        sum_over(positions.update(index, p), weight) == sum_over(positions, weight) - weight(
            positions[index],
        ) + weight(p),
    decreases positions.len(),
{
    let updated = positions.update(index, p);
    if index == positions.len() - 1 {
        assert(updated.drop_last() =~= positions.drop_last());
    } else {
        assert(updated.drop_last() =~= positions.drop_last().update(index, p));
        lemma_sum_update(positions.drop_last(), index, p, weight);
    }
}

/// A sum of weights that are all zero is zero.
pub proof fn lemma_sum_zero(positions: Seq<Position>, weight: spec_fn(Position) -> int)
    requires
        forall|i: int| 0 <= i < positions.len() ==> weight(#[trigger] positions[i]) == 0,
    ensures
        sum_over(positions, weight) == 0,
    decreases positions.len(),
{
    if positions.len() > 0 {
        assert(weight(positions[positions.len() - 1]) == 0);
        lemma_sum_zero(positions.drop_last(), weight);
    }
}

/// Where no weight is negative, no single weight exceeds the sum, and the
/// sum is not negative.
pub proof fn lemma_sum_bounds(
    positions: Seq<Position>,
    index: int,
    weight: spec_fn(Position) -> int,
)
    requires
        forall|i: int| 0 <= i < positions.len() ==> weight(#[trigger] positions[i]) >= 0,
    ensures
        sum_over(positions, weight) >= 0,
        0 <= index < positions.len() ==> weight(positions[index]) <= sum_over(positions, weight),
    decreases positions.len(),
{
    if positions.len() > 0 {
        assert(weight(positions[positions.len() - 1]) >= 0);
        lemma_sum_bounds(positions.drop_last(), index, weight);
    }
}

/// The ledger: the tier table, the accounts and the positions, each in the
/// order in which it was added.
#[verifier::ext_equal]
pub struct Ledger {
    /// The leverage tiers against which positions are opened.
    pub tiers: Seq<LeverageTier>,
    /// The accounts, one per owner.
    pub users: Seq<UserAccount>,
    /// The positions; none is ever removed.
    pub positions: Seq<Position>,
}

impl Ledger {
    /// The account at `index` belongs to `owner`.
    pub open spec fn user_at(self, owner: Seq<char>, index: int) -> bool {
        0 <= index < self.users.len() && self.users[index].owner@ == owner
    }

    /// `owner` has an account.
    pub open spec fn has_user(self, owner: Seq<char>) -> bool {
        exists|i: int| self.user_at(owner, i)
    }

    /// Where the account of `owner` stands.
    pub open spec fn user_index(self, owner: Seq<char>) -> int {
        choose|i: int| self.user_at(owner, i)
    }

    /// The position at `index` carries `id`.
    pub open spec fn position_at(self, id: Seq<char>, index: int) -> bool {
        0 <= index < self.positions.len() && self.positions[index].id@ == id
    }

    /// A position carries `id`.
    pub open spec fn has_position(self, id: Seq<char>) -> bool {
        exists|i: int| self.position_at(id, i)
    }

    /// Where the position with `id` stands.
    pub open spec fn position_index(self, id: Seq<char>) -> int {
        choose|i: int| self.position_at(id, i)
    }

    /// No two accounts belong to one owner.
    pub open spec fn owners_distinct(self) -> bool {
        forall|i: int, j: int|
            0 <= i < j < self.users.len() ==> (#[trigger] self.users[i]).owner@ != (
            #[trigger] self.users[j]).owner@
    }

    /// No two positions carry one id.
    pub open spec fn ids_distinct(self) -> bool {
        forall|i: int, j: int|
            0 <= i < j < self.positions.len() ==> (#[trigger] self.positions[i]).id@ != (
            #[trigger] self.positions[j]).id@
    }

    /// Every position is well formed and its owner has an account.
    pub open spec fn positions_owned(self) -> bool {
        forall|i: int|
            0 <= i < self.positions.len() ==> (#[trigger] self.positions[i]).wf() && self.has_user(
                self.positions[i].owner@,
            )
    }

    /// For every account, the locked collateral is the sum of the margins of
    /// the owner's open positions, and the position count is their number.
    pub open spec fn balanced(self) -> bool {
        forall|j: int|
            0 <= j < self.users.len() ==> {
                &&& (#[trigger] self.users[j]).locked_collateral == locked_total(
                    self.positions,
                    self.users[j].owner@,
                )
                &&& self.users[j].position_count == open_total(self.positions, self.users[j].owner@)
            }
    }

    /// The accounts and positions are consistent: owners and ids are
    /// distinct, every position is well formed and owned, and the books
    /// balance.
    pub open spec fn consistent(self) -> bool {
        &&& self.owners_distinct()
        &&& self.ids_distinct()
        &&& self.positions_owned()
        &&& self.balanced()
    }

    /// The invariant of the ledger: a valid tier table over consistent
    /// accounts and positions.
    pub open spec fn wf(self) -> bool {
        &&& table_valid(self.tiers)
        &&& self.consistent()
    }

    /// `later` is this ledger at a later time: the tiers are the same, every
    /// account is still there for the same owner, and every position is still
    /// there, continued as `Position::continued_by` says.
    pub open spec fn continued_by(self, later: Ledger) -> bool {
        &&& later.tiers == self.tiers
        &&& self.users.len() <= later.users.len()
        &&& forall|j: int|
            0 <= j < self.users.len() ==> {
                &&& (#[trigger] later.users[j]).owner == self.users[j].owner
                &&& later.users[j].created_at == self.users[j].created_at
                &&& later.users[j].total_collateral == self.users[j].total_collateral
            }
        &&& self.positions.len() <= later.positions.len()
        &&& forall|i: int|
            0 <= i < self.positions.len() ==> self.positions[i].continued_by(
                #[trigger] later.positions[i],
            )
    }

    /// The ledger after `initialize_user`: an account for `owner` is added
    /// unless one exists, in which case nothing changes.
    pub open spec fn initialize_user(self, owner: String, now: i64) -> Ledger {
        if self.has_user(owner@) {
            self
        } else {
            Ledger { users: self.users.push(UserAccount::fresh(owner, now)), ..self }
        }
    }

    /// The ledger after `open_position`, or the first check that fails: the
    /// owner has an account, the id is free, and what the instruction itself
    /// checks.
    pub open spec fn open_position(
        self,
        id: String,
        owner: String,
        symbol: String,
        side: PositionSide,
        size: u64,
        leverage: u16,
        entry_price: u64,
        now: i64,
    ) -> Result<Ledger, ErrorCode> {
        if !self.has_user(owner@) {
            Err(ErrorCode::UserNotFound)
        } else if self.has_position(id@) {
            Err(ErrorCode::PositionIdTaken)
        } else {
            match open_spec(
                OpenPosition { owner, user_account: self.users[self.user_index(owner@)] },
                self.tiers,
                id,
                symbol,
                side,
                size,
                leverage,
                entry_price,
                now,
            ) {
                Err(e) => Err(e),
                Ok((ctx, position, _)) => Ok(
                    Ledger {
                        users: self.users.update(self.user_index(owner@), ctx.user_account),
                        positions: self.positions.push(position),
                        ..self
                    },
                ),
            }
        }
    }

    /// The ledger in which the position at `index` and the account of its
    /// owner are replaced.
    pub open spec fn with_transition(
        self,
        index: int,
        position: Position,
        account: UserAccount,
    ) -> Ledger {
        Ledger {
            users: self.users.update(self.user_index(self.positions[index].owner@), account),
            positions: self.positions.update(index, position),
            ..self
        }
    }

    /// The position with `id` and the account of its owner, or why the two
    /// are not to be had.
    pub open spec fn lookup(self, id: Seq<char>) -> Result<(Position, UserAccount), ErrorCode> {
        if !self.has_position(id) {
            Err(ErrorCode::PositionNotFound)
        } else if !self.has_user(self.positions[self.position_index(id)].owner@) {
            Err(ErrorCode::UserNotFound)
        } else {
            Ok(
                (
                    self.positions[self.position_index(id)],
                    self.users[self.user_index(self.positions[self.position_index(id)].owner@)],
                ),
            )
        }
    }

    /// The ledger after `modify_position`, or the first check that fails:
    /// the position and its owner's account are there, and what the
    /// instruction itself checks, asked for by the owner.
    pub open spec fn modify_position(self, id: Seq<char>, size_delta: i64, margin_delta: i64) -> Result<
        Ledger,
        ErrorCode,
    > {
        match self.lookup(id) {
            Err(e) => Err(e),
            Ok((position, account)) => match modify_spec(
                ModifyPosition { owner: position.owner, user_account: account, position },
                size_delta,
                margin_delta,
            ) {
                Err(e) => Err(e),
                Ok(ctx) => Ok(
                    self.with_transition(self.position_index(id), ctx.position, ctx.user_account),
                ),
            },
        }
    }

    /// The ledger after `close_position`, or the first check that fails: the
    /// position and its owner's account are there, and what the instruction
    /// itself checks, asked for by the owner.
    pub open spec fn close_position(self, id: Seq<char>, exit_price: u64, now: i64) -> Result<
        Ledger,
        ErrorCode,
    > {
        match self.lookup(id) {
            Err(e) => Err(e),
            Ok((position, account)) => match close_spec(
                ClosePosition { owner: position.owner, user_account: account, position },
                exit_price,
                now,
            ) {
                Err(e) => Err(e),
                Ok((ctx, _)) => Ok(
                    self.with_transition(self.position_index(id), ctx.position, ctx.user_account),
                ),
            },
        }
    }

    /// The ledger after `liquidate_position`, or the first check that fails:
    /// the position and its owner's account are there, and what the
    /// instruction itself checks.
    pub open spec fn liquidate_position(self, id: Seq<char>, now: i64) -> Result<Ledger, ErrorCode> {
        match self.lookup(id) {
            Err(e) => Err(e),
            Ok((position, account)) => match liquidate_spec(
                LiquidatePosition { position, user_account: account },
                now,
            ) {
                Err(e) => Err(e),
                Ok((ctx, _)) => Ok(
                    self.with_transition(self.position_index(id), ctx.position, ctx.user_account),
                ),
            },
        }
    }
}

/// Whether accounts and positions are consistent does not depend on the
/// tier table.
pub proof fn lemma_consistent_whatever_tiers(first: Ledger, second: Ledger)
    requires
        first.users == second.users,
        first.positions == second.positions,
        first.consistent(),
    ensures
        second.consistent(),
{
    assert forall|i: int| 0 <= i < second.positions.len() implies (
    #[trigger] second.positions[i]).wf() && second.has_user(second.positions[i].owner@) by {
        assert(first.positions[i].wf());
        let held = first.user_index(first.positions[i].owner@);
        assert(first.user_at(first.positions[i].owner@, held));
        assert(second.user_at(second.positions[i].owner@, held));
    }
    assert forall|j: int| 0 <= j < second.users.len() implies {
        &&& (#[trigger] second.users[j]).locked_collateral == locked_total(
            second.positions,
            second.users[j].owner@,
        )
        &&& second.users[j].position_count == open_total(second.positions, second.users[j].owner@)
    } by {
        assert(first.users[j].locked_collateral == locked_total(
            first.positions,
            first.users[j].owner@,
        ));
    }
}

/// In a well-formed ledger an owner has one account: whichever index holds
/// it is the index of the owner.
pub proof fn lemma_user_unique(ledger: Ledger, owner: Seq<char>, index: int)
    requires
        ledger.owners_distinct(),
        ledger.user_at(owner, index),
    ensures
        ledger.has_user(owner),
        ledger.user_index(owner) == index,
{
    let chosen = ledger.user_index(owner);
    assert(ledger.user_at(owner, chosen));
    if chosen < index {
        assert(ledger.users[chosen].owner@ != ledger.users[index].owner@);
    }
    if index < chosen {
        assert(ledger.users[index].owner@ != ledger.users[chosen].owner@);
    }
}

/// In a well-formed ledger an id names one position: whichever index holds
/// it is the index of the id.
pub proof fn lemma_position_unique(ledger: Ledger, id: Seq<char>, index: int)
    requires
        ledger.ids_distinct(),
        ledger.position_at(id, index),
    ensures
        ledger.has_position(id),
        ledger.position_index(id) == index,
{
    let chosen = ledger.position_index(id);
    assert(ledger.position_at(id, chosen));
    if chosen < index {
        assert(ledger.positions[chosen].id@ != ledger.positions[index].id@);
    }
    if index < chosen {
        assert(ledger.positions[index].id@ != ledger.positions[chosen].id@);
    }
}

/// An owner without an account owns no position, so nothing is locked and
/// nothing is open for that owner.
pub proof fn lemma_stranger_owns_nothing(ledger: Ledger, owner: Seq<char>)
    requires
        ledger.positions_owned(),
        !ledger.has_user(owner),
    ensures
        locked_total(ledger.positions, owner) == 0,
        open_total(ledger.positions, owner) == 0,
{
    assert forall|i: int| 0 <= i < ledger.positions.len() implies (#[trigger] ledger.positions[i]).owner@
        != owner by {
        assert(ledger.has_user(ledger.positions[i].owner@));
    }
    assert forall|i: int| 0 <= i < ledger.positions.len() implies locked_weight(owner)(
        #[trigger] ledger.positions[i],
    ) == 0 by {
        assert(ledger.positions[i].owner@ != owner);
    }
    assert forall|i: int| 0 <= i < ledger.positions.len() implies open_weight(owner)(
        #[trigger] ledger.positions[i],
    ) == 0 by {
        assert(ledger.positions[i].owner@ != owner);
    }
    lemma_sum_zero(ledger.positions, locked_weight(owner));
    lemma_sum_zero(ledger.positions, open_weight(owner));
}

/// The margin of an open position is part of what is locked for its owner,
/// and the position is one of the owner's open positions.
pub proof fn lemma_open_position_counted(ledger: Ledger, index: int)
    requires
        0 <= index < ledger.positions.len(),
    ensures
        ledger.positions[index].locked_margin() <= locked_total(
            ledger.positions,
            ledger.positions[index].owner@,
        ),
        ledger.positions[index].is_open() ==> open_total(
            ledger.positions,
            ledger.positions[index].owner@,
        ) >= 1,
{
    let owner = ledger.positions[index].owner@;
    lemma_sum_bounds(ledger.positions, index, locked_weight(owner));
    lemma_sum_bounds(ledger.positions, index, open_weight(owner));
}

/// `initialize_user` keeps the invariant of the ledger.
pub proof fn lemma_initialize_user_keeps_wf(ledger: Ledger, owner: String, now: i64)
    requires
        ledger.wf(),
    ensures
        ledger.initialize_user(owner, now).wf(),
        ledger.initialize_user(owner, now).has_user(owner@),
{
    let next = ledger.initialize_user(owner, now);
    if !ledger.has_user(owner@) {
        let last = ledger.users.len() as int;
        assert(next.user_at(owner@, last));
        assert forall|i: int, j: int| 0 <= i < j < next.users.len() implies (
        #[trigger] next.users[i]).owner@ != (#[trigger] next.users[j]).owner@ by {
            if j == last {
                assert(!ledger.user_at(owner@, i));
            }
        }
        assert forall|i: int| 0 <= i < next.positions.len() implies (
        #[trigger] next.positions[i]).wf() && next.has_user(next.positions[i].owner@) by {
            let held = ledger.user_index(ledger.positions[i].owner@);
            assert(ledger.user_at(ledger.positions[i].owner@, held));
            assert(next.user_at(next.positions[i].owner@, held));
        }
        lemma_stranger_owns_nothing(ledger, owner@);
    }
}

/// Replacing one position and the account of its owner keeps the invariant
/// of the ledger, provided that identity and owner stay, the new position is
/// well formed, and the account's books move by what the position's locked
/// margin and open state moved.
pub proof fn lemma_transition_keeps_wf(
    ledger: Ledger,
    index: int,
    position: Position,
    account: UserAccount,
)
    requires
        ledger.wf(),
        0 <= index < ledger.positions.len(),
        position.id@ == ledger.positions[index].id@,
        position.owner@ == ledger.positions[index].owner@,
        position.wf(),
        account.owner@ == ledger.positions[index].owner@,
        account.locked_collateral == ledger.users[ledger.user_index(
            ledger.positions[index].owner@,
        )].locked_collateral - ledger.positions[index].locked_margin() + position.locked_margin(),
        account.position_count == ledger.users[ledger.user_index(
            ledger.positions[index].owner@,
        )].position_count - open_weight(position.owner@)(ledger.positions[index]) + open_weight(
            position.owner@,
        )(position),
    ensures
        ledger.with_transition(index, position, account).wf(),
{
    let next = ledger.with_transition(index, position, account);
    let before = ledger.positions[index];
    let owner = before.owner@;
    assert(ledger.has_user(owner));
    let slot = ledger.user_index(owner);
    assert(ledger.user_at(owner, slot));
    assert forall|i: int, j: int| 0 <= i < j < next.users.len() implies (
    #[trigger] next.users[i]).owner@ != (#[trigger] next.users[j]).owner@ by {
        assert(ledger.users[i].owner@ != ledger.users[j].owner@);
    }
    assert forall|i: int, j: int| 0 <= i < j < next.positions.len() implies (
    #[trigger] next.positions[i]).id@ != (#[trigger] next.positions[j]).id@ by {
        assert(ledger.positions[i].id@ != ledger.positions[j].id@);
    }
    assert forall|i: int| 0 <= i < next.positions.len() implies (#[trigger] next.positions[i]).wf()
        && next.has_user(next.positions[i].owner@) by {
        assert(ledger.positions[i].wf());
        let held = ledger.user_index(ledger.positions[i].owner@);
        assert(ledger.user_at(ledger.positions[i].owner@, held));
        assert(next.user_at(next.positions[i].owner@, held));
    }
    assert forall|j: int| 0 <= j < next.users.len() implies {
        &&& (#[trigger] next.users[j]).locked_collateral == locked_total(
            next.positions,
            next.users[j].owner@,
        )
        &&& next.users[j].position_count == open_total(next.positions, next.users[j].owner@)
    } by {
        let who = next.users[j].owner@;
        assert(who == ledger.users[j].owner@);
        lemma_sum_update(ledger.positions, index, position, locked_weight(who));
        lemma_sum_update(ledger.positions, index, position, open_weight(who));
        assert(ledger.users[j].locked_collateral == locked_total(ledger.positions, who));
        if j != slot {
            if j < slot {
                assert(ledger.users[j].owner@ != ledger.users[slot].owner@);
            } else {
                assert(ledger.users[slot].owner@ != ledger.users[j].owner@);
            }
            assert(who != owner);
        }
    }
}

/// `open_position` keeps the invariant of the ledger, appends the new
/// position and leaves every earlier position as it was.
pub proof fn lemma_open_keeps_wf(
    ledger: Ledger,
    id: String,
    owner: String,
    symbol: String,
    side: PositionSide,
    size: u64,
    leverage: u16,
    entry_price: u64,
    now: i64,
)
    requires
        ledger.wf(),
        ledger.open_position(id, owner, symbol, side, size, leverage, entry_price, now) is Ok,
    ensures
        ledger.open_position(
            id,
            owner,
            symbol,
            side,
            size,
            leverage,
            entry_price,
            now,
        )->Ok_0.wf(),
{
    let next = ledger.open_position(
        id,
        owner,
        symbol,
        side,
        size,
        leverage,
        entry_price,
        now,
    )->Ok_0;
    let slot = ledger.user_index(owner@);
    assert(ledger.user_at(owner@, slot));
    let last = ledger.positions.len() as int;
    let position = next.positions[last];
    assert(position.owner@ == owner@ && position.id@ == id@ && position.is_open());
    assert forall|i: int, j: int| 0 <= i < j < next.users.len() implies (
    #[trigger] next.users[i]).owner@ != (#[trigger] next.users[j]).owner@ by {
        assert(ledger.users[i].owner@ != ledger.users[j].owner@);
    }
    assert forall|i: int, j: int| 0 <= i < j < next.positions.len() implies (
    #[trigger] next.positions[i]).id@ != (#[trigger] next.positions[j]).id@ by {
        if j == last {
            assert(!ledger.position_at(id@, i));
        } else {
            assert(ledger.positions[i].id@ != ledger.positions[j].id@);
        }
    }
    assert forall|i: int| 0 <= i < next.positions.len() implies (#[trigger] next.positions[i]).wf()
        && next.has_user(next.positions[i].owner@) by {
        if i == last {
            assert(next.user_at(owner@, slot));
        } else {
            assert(ledger.positions[i].wf());
            let held = ledger.user_index(ledger.positions[i].owner@);
            assert(ledger.user_at(ledger.positions[i].owner@, held));
            assert(next.user_at(next.positions[i].owner@, held));
        }
    }
    assert forall|j: int| 0 <= j < next.users.len() implies {
        &&& (#[trigger] next.users[j]).locked_collateral == locked_total(
            next.positions,
            next.users[j].owner@,
        )
        &&& next.users[j].position_count == open_total(next.positions, next.users[j].owner@)
    } by {
        let who = next.users[j].owner@;
        assert(who == ledger.users[j].owner@);
        lemma_sum_push(ledger.positions, position, locked_weight(who));
        lemma_sum_push(ledger.positions, position, open_weight(who));
        assert(ledger.users[j].locked_collateral == locked_total(ledger.positions, who));
        if j != slot {
            if j < slot {
                assert(ledger.users[j].owner@ != ledger.users[slot].owner@);
            } else {
                assert(ledger.users[slot].owner@ != ledger.users[j].owner@);
            }
            assert(who != owner@);
        }
    }
}

/// `modify_position` keeps the invariant of the ledger.
pub proof fn lemma_modify_keeps_wf(ledger: Ledger, id: Seq<char>, size_delta: i64, margin_delta: i64)
    requires
        ledger.wf(),
        ledger.modify_position(id, size_delta, margin_delta) is Ok,
    ensures
        ledger.modify_position(id, size_delta, margin_delta)->Ok_0.wf(),
{
    let index = ledger.position_index(id);
    assert(ledger.position_at(id, index));
    let position = ledger.positions[index];
    assert(position.wf());
    let modified = position.modify_spec(size_delta, margin_delta)->Ok_0;
    let account = ledger.users[ledger.user_index(position.owner@)].adjusted_spec(
        position.margin,
        modified.margin,
    )->Ok_0;
    assert(ledger.user_at(position.owner@, ledger.user_index(position.owner@)));
    lemma_transition_keeps_wf(ledger, index, modified, account);
}

/// `close_position` keeps the invariant of the ledger.
pub proof fn lemma_close_keeps_wf(ledger: Ledger, id: Seq<char>, exit_price: u64, now: i64)
    requires
        ledger.wf(),
        ledger.close_position(id, exit_price, now) is Ok,
    ensures
        ledger.close_position(id, exit_price, now)->Ok_0.wf(),
{
    let index = ledger.position_index(id);
    assert(ledger.position_at(id, index));
    let position = ledger.positions[index];
    assert(position.wf());
    let (closed, realized) = position.close_spec(exit_price, now)->Ok_0;
    let account = ledger.users[ledger.user_index(position.owner@)].settled_spec(
        position.margin,
        realized,
    )->Ok_0;
    assert(ledger.user_at(position.owner@, ledger.user_index(position.owner@)));
    lemma_transition_keeps_wf(ledger, index, closed, account.touched(now));
}

/// `liquidate_position` keeps the invariant of the ledger.
pub proof fn lemma_liquidate_keeps_wf(ledger: Ledger, id: Seq<char>, now: i64)
    requires
        ledger.wf(),
        ledger.liquidate_position(id, now) is Ok,
    ensures
        ledger.liquidate_position(id, now)->Ok_0.wf(),
{
    let index = ledger.position_index(id);
    assert(ledger.position_at(id, index));
    let position = ledger.positions[index];
    assert(position.wf());
    let (liquidated, realized) = position.liquidate_spec(now)->Ok_0;
    let account = ledger.users[ledger.user_index(position.owner@)].settled_spec(
        position.margin,
        realized,
    )->Ok_0;
    assert(ledger.user_at(position.owner@, ledger.user_index(position.owner@)));
    lemma_transition_keeps_wf(ledger, index, liquidated, account);
}

} // verus!
