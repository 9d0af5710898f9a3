//! What holds across calls: terminal states stay terminal, a position opened
//! and closed at one price leaves the books as they were, a margin cannot be
//! reduced below zero, settlement fails only on overflow, and nothing that
//! was fixed when a position was opened ever changes.
use vstd::prelude::*;
use crate::errors::ErrorCode;
use crate::instructions::close_position::{close_spec, ClosePosition};
use crate::instructions::liquidate_position::{liquidate_spec, LiquidatePosition};
use crate::instructions::modify_position::{modify_spec, ModifyPosition};
use crate::ledger::{
    lemma_close_keeps_wf, lemma_liquidate_keeps_wf, lemma_open_keeps_wf,
    lemma_open_position_counted, lemma_position_unique, lemma_user_unique, Ledger,
};
use crate::margin::{
    lemma_rate_within_one_not_clamped, liquidation_price_spec, pnl_spec, required_margin_spec,
    LiquidationPrice,
};
use crate::state::position::{shifted, Position, PositionSide, PositionStatus};
use crate::state::user_account::UserAccount;
use crate::tiers::{first_admitting, lemma_resolve_first, resolve_spec, LeverageTier};

verus! {

/// In a well-formed ledger every position comes with the account of its
/// owner: the lookup of a position that is there never fails.
pub proof fn lemma_owner_at_hand(ledger: Ledger, id: Seq<char>)
    requires
        ledger.wf(),
        ledger.has_position(id),
    ensures
        ledger.lookup(id) matches Ok((position, account)) && {
            &&& position == ledger.positions[ledger.position_index(id)]
            &&& position.wf()
            &&& account.owner@ == position.owner@
            &&& account.locked_collateral >= position.locked_margin()
            &&& position.is_open() ==> account.position_count >= 1
        },
{
    let index = ledger.position_index(id);
    assert(ledger.position_at(id, index));
    let position = ledger.positions[index];
    assert(position.wf() && ledger.has_user(position.owner@));
    let slot = ledger.user_index(position.owner@);
    assert(ledger.user_at(position.owner@, slot));
    lemma_open_position_counted(ledger, index);
}

/// A position that was closed or liquidated refuses every further
/// transition with `PositionAlreadyClosed`, whatever the arguments.
pub proof fn lemma_terminal_refuses(
    ledger: Ledger,
    id: Seq<char>,
    exit_price: u64,
    size_delta: i64,
    margin_delta: i64,
    now: i64,
)
    requires
        ledger.wf(),
        ledger.has_position(id),
        !ledger.positions[ledger.position_index(id)].is_open(),
    ensures
        ledger.close_position(id, exit_price, now) == Err::<Ledger, ErrorCode>(
            ErrorCode::PositionAlreadyClosed,
        ),
        ledger.liquidate_position(id, now) == Err::<Ledger, ErrorCode>(
            ErrorCode::PositionAlreadyClosed,
        ),
        ledger.modify_position(id, size_delta, margin_delta) == Err::<Ledger, ErrorCode>(
            ErrorCode::PositionAlreadyClosed,
        ),
{
    lemma_owner_at_hand(ledger, id);
}

/// After a successful close the position is closed, and a second close or a
/// liquidation of it is refused with `PositionAlreadyClosed`.
pub proof fn lemma_close_is_final(
    ledger: Ledger,
    id: Seq<char>,
    exit_price: u64,
    now: i64,
    later_price: u64,
    later: i64,
)
    requires
        ledger.wf(),
        ledger.close_position(id, exit_price, now) is Ok,
    ensures
        ({
            let next = ledger.close_position(id, exit_price, now)->Ok_0;
            &&& next.has_position(id)
            &&& next.positions[next.position_index(id)].status == PositionStatus::Closed
            &&& next.close_position(id, later_price, later) == Err::<Ledger, ErrorCode>(
                ErrorCode::PositionAlreadyClosed,
            )
            &&& next.liquidate_position(id, later) == Err::<Ledger, ErrorCode>(
                ErrorCode::PositionAlreadyClosed,
            )
        }),
{
    let next = ledger.close_position(id, exit_price, now)->Ok_0;
    let index = ledger.position_index(id);
    assert(ledger.position_at(id, index));
    lemma_close_keeps_wf(ledger, id, exit_price, now);
    assert(next.position_at(id, index));
    lemma_position_unique(next, id, index);
}

/// After a successful liquidation the position is liquidated, and a second
/// liquidation or a close of it is refused with `PositionAlreadyClosed`.
pub proof fn lemma_liquidation_is_final(
    ledger: Ledger,
    id: Seq<char>,
    now: i64,
    later_price: u64,
    later: i64,
)
    requires
        ledger.wf(),
        ledger.liquidate_position(id, now) is Ok,
    ensures
        ({
            let next = ledger.liquidate_position(id, now)->Ok_0;
            &&& next.has_position(id)
            &&& next.positions[next.position_index(id)].status == PositionStatus::Liquidated
            &&& next.close_position(id, later_price, later) == Err::<Ledger, ErrorCode>(
                ErrorCode::PositionAlreadyClosed,
            )
            &&& next.liquidate_position(id, later) == Err::<Ledger, ErrorCode>(
                ErrorCode::PositionAlreadyClosed,
            )
        }),
{
    let next = ledger.liquidate_position(id, now)->Ok_0;
    let index = ledger.position_index(id);
    assert(ledger.position_at(id, index));
    lemma_liquidate_keeps_wf(ledger, id, now);
    assert(next.position_at(id, index));
    lemma_position_unique(next, id, index);
}

/// A margin decrease larger than the margin of an open position is refused
/// with `CannotReduceMargin`, whatever the change of size.
pub proof fn lemma_margin_reduction_refused(
    ledger: Ledger,
    id: Seq<char>,
    size_delta: i64,
    margin_delta: i64,
)
    requires
        ledger.wf(),
        ledger.has_position(id),
        ledger.positions[ledger.position_index(id)].is_open(),
        shifted(ledger.positions[ledger.position_index(id)].margin, margin_delta) < 0,
    ensures
        ledger.modify_position(id, size_delta, margin_delta) == Err::<Ledger, ErrorCode>(
            ErrorCode::CannotReduceMargin,
        ),
{
    lemma_owner_at_hand(ledger, id);
}

/// In a well-formed ledger the books never stand in the way of a close: an
/// open position closes at every price above zero, unless its profit and
/// loss, or the owner's total with it, leaves the signed 64-bit range.
pub proof fn lemma_close_succeeds(ledger: Ledger, id: Seq<char>, exit_price: u64, now: i64)
    requires
        ledger.wf(),
        ledger.has_position(id),
        ledger.positions[ledger.position_index(id)].is_open(),
        exit_price > 0,
    ensures
        ({
            let position = ledger.positions[ledger.position_index(id)];
            let account = ledger.users[ledger.user_index(position.owner@)];
            let realized = pnl_spec(position.side, position.entry_price, exit_price, position.size);
            &&& realized is Err ==> ledger.close_position(id, exit_price, now) == Err::<
                Ledger,
                ErrorCode,
            >(ErrorCode::CalculationOverflow)
            &&& realized matches Ok(value) ==> {
                if i64::MIN <= account.total_pnl + value <= i64::MAX {
                    ledger.close_position(id, exit_price, now) is Ok
                } else {
                    ledger.close_position(id, exit_price, now) == Err::<Ledger, ErrorCode>(
                        ErrorCode::CalculationOverflow,
                    )
                }
            }
        }),
{
    let index = ledger.position_index(id);
    assert(ledger.position_at(id, index));
    let position = ledger.positions[index];
    assert(position.wf() && ledger.has_user(position.owner@));
    let slot = ledger.user_index(position.owner@);
    assert(ledger.user_at(position.owner@, slot));
    lemma_open_position_counted(ledger, index);
    assert(ledger.users[slot].locked_collateral >= position.margin);
    assert(ledger.users[slot].position_count >= 1);
}

/// In a well-formed ledger the books never stand in the way of a
/// liquidation: an open position is liquidated unless its profit and loss at
/// the liquidation price, or the owner's total with it, leaves the signed
/// 64-bit range.
pub proof fn lemma_liquidate_succeeds(ledger: Ledger, id: Seq<char>, now: i64)
    requires
        ledger.wf(),
        ledger.has_position(id),
        ledger.positions[ledger.position_index(id)].is_open(),
    ensures
        ({
            let position = ledger.positions[ledger.position_index(id)];
            let account = ledger.users[ledger.user_index(position.owner@)];
            let realized = pnl_spec(
                position.side,
                position.entry_price,
                position.liquidation_price,
                position.size,
            );
            &&& realized is Err ==> ledger.liquidate_position(id, now) == Err::<Ledger, ErrorCode>(
                ErrorCode::CalculationOverflow,
            )
            &&& realized matches Ok(value) ==> {
                if i64::MIN <= account.total_pnl + value <= i64::MAX {
                    ledger.liquidate_position(id, now) is Ok
                } else {
                    ledger.liquidate_position(id, now) == Err::<Ledger, ErrorCode>(
                        ErrorCode::CalculationOverflow,
                    )
                }
            }
        }),
{
    let index = ledger.position_index(id);
    assert(ledger.position_at(id, index));
    let position = ledger.positions[index];
    assert(position.wf() && ledger.has_user(position.owner@));
    let slot = ledger.user_index(position.owner@);
    assert(ledger.user_at(position.owner@, slot));
    lemma_open_position_counted(ledger, index);
    assert(ledger.users[slot].locked_collateral >= position.margin);
    assert(ledger.users[slot].position_count >= 1);
}

/// In a well-formed ledger the books never stand in the way of a margin
/// decrease: a change that leaves an open position a size above zero and a
/// margin not below zero, both within 64 bits, succeeds unless a margin
/// increase carries the owner's locked collateral beyond 64 bits.
pub proof fn lemma_modify_succeeds(
    ledger: Ledger,
    id: Seq<char>,
    size_delta: i64,
    margin_delta: i64,
)
    requires
        ledger.wf(),
        ledger.has_position(id),
        ledger.positions[ledger.position_index(id)].is_open(),
        0 < shifted(ledger.positions[ledger.position_index(id)].size, size_delta) <= u64::MAX,
        0 <= shifted(ledger.positions[ledger.position_index(id)].margin, margin_delta) <= u64::MAX,
    ensures
        ({
            let position = ledger.positions[ledger.position_index(id)];
            let account = ledger.users[ledger.user_index(position.owner@)];
            if account.locked_collateral + margin_delta <= u64::MAX {
                ledger.modify_position(id, size_delta, margin_delta) is Ok
            } else {
                ledger.modify_position(id, size_delta, margin_delta) == Err::<Ledger, ErrorCode>(
                    ErrorCode::CalculationOverflow,
                )
            }
        }),
{
    let index = ledger.position_index(id);
    assert(ledger.position_at(id, index));
    let position = ledger.positions[index];
    assert(position.wf() && ledger.has_user(position.owner@));
    let slot = ledger.user_index(position.owner@);
    assert(ledger.user_at(position.owner@, slot));
    lemma_open_position_counted(ledger, index);
    assert(ledger.users[slot].locked_collateral >= position.margin);
}

/// A position that the ledger opens is open, carries the margin that the
/// margin formula gives and the liquidation price that the formula gives for
/// the maintenance rate of the resolved tier, and that price is never a
/// clamped one.
pub proof fn lemma_opened_as_computed(
    ledger: Ledger,
    id: String,
    owner: String,
    symbol: String,
    side: PositionSide,
    size: u64,
    leverage: u16,
    entry_price: u64,
    now: i64,
)
    requires
        ledger.wf(),
        ledger.open_position(id, owner, symbol, side, size, leverage, entry_price, now) is Ok,
    ensures
        ({
            let opened = ledger.open_position(
                id,
                owner,
                symbol,
                side,
                size,
                leverage,
                entry_price,
                now,
            )->Ok_0;
            let position = opened.positions.last();
            &&& opened.positions == ledger.positions.push(position)
            &&& position.is_open()
            &&& position.wf()
            &&& position.id == id
            &&& position.owner == owner
            &&& resolve_spec(ledger.tiers, leverage, size) matches Ok(tier) && {
                &&& required_margin_spec(entry_price, size, leverage) == Ok::<u64, ErrorCode>(
                    position.margin,
                )
                &&& liquidation_price_spec(
                    entry_price,
                    leverage,
                    tier.maintenance_margin_rate,
                    side,
                ) == Ok::<LiquidationPrice, ErrorCode>(
                    LiquidationPrice { price: position.liquidation_price, clamped: false },
                )
            }
        }),
{
    lemma_resolve_first(ledger.tiers, leverage, size, 0);
    let tier = resolve_spec(ledger.tiers, leverage, size)->Ok_0;
    let index = choose|i: int|
        first_admitting(ledger.tiers, leverage, size, i) && resolve_spec(
            ledger.tiers,
            leverage,
            size,
        ) == Ok::<LeverageTier, ErrorCode>(ledger.tiers[i]);
    assert(ledger.tiers[index].valid());
    lemma_rate_within_one_not_clamped(entry_price, leverage, tier.maintenance_margin_rate, side);
}

/// Opening a position and closing it at its entry price always succeeds,
/// realizes a profit and loss of zero, and leaves the owner's locked
/// collateral, position count and total profit and loss as they were before
/// the position was opened.
pub proof fn lemma_open_close_round_trip(
    ledger: Ledger,
    id: String,
    owner: String,
    symbol: String,
    side: PositionSide,
    size: u64,
    leverage: u16,
    entry_price: u64,
    opened_at: i64,
    closed_at: i64,
)
    requires
        ledger.wf(),
        ledger.open_position(id, owner, symbol, side, size, leverage, entry_price, opened_at) is Ok,
    ensures
        ({
            let opened = ledger.open_position(
                id,
                owner,
                symbol,
                side,
                size,
                leverage,
                entry_price,
                opened_at,
            )->Ok_0;
            let before = ledger.users[ledger.user_index(owner@)];
            &&& opened.users[opened.user_index(owner@)].locked_collateral
                == before.locked_collateral + opened.positions.last().margin
            &&& opened.close_position(id@, entry_price, closed_at) matches Ok(closed) && {
                let position = closed.positions[closed.position_index(id@)];
                let after = closed.users[closed.user_index(owner@)];
                &&& position.status == PositionStatus::Closed
                &&& position.realized_pnl == 0
                &&& after.locked_collateral == before.locked_collateral
                &&& after.position_count == before.position_count
                &&& after.total_pnl == before.total_pnl
            }
        }),
{
    let opened = ledger.open_position(
        id,
        owner,
        symbol,
        side,
        size,
        leverage,
        entry_price,
        opened_at,
    )->Ok_0;
    lemma_open_keeps_wf(ledger, id, owner, symbol, side, size, leverage, entry_price, opened_at);
    let slot = ledger.user_index(owner@);
    assert(ledger.user_at(owner@, slot));
    assert(opened.user_at(owner@, slot));
    lemma_user_unique(opened, owner@, slot);
    let last = ledger.positions.len() as int;
    let position = opened.positions[last];
    assert(opened.position_at(id@, last));
    lemma_position_unique(opened, id@, last);
    assert(position.is_open() && position.owner@ == owner@ && position.entry_price
        == entry_price);
    assert((entry_price - entry_price) * size == 0);
    assert(pnl_spec(side, entry_price, entry_price, size) == Ok::<i64, ErrorCode>(0i64));
    let closed = opened.close_position(id@, entry_price, closed_at)->Ok_0;
    assert(opened.close_position(id@, entry_price, closed_at) is Ok);
    lemma_close_keeps_wf(opened, id@, entry_price, closed_at);
    assert(closed.position_at(id@, last));
    lemma_position_unique(closed, id@, last);
    assert(closed.user_at(owner@, slot));
    lemma_user_unique(closed, owner@, slot);
}

/// Continuation is reflexive and transitive, so what holds of one step holds
/// of every sequence of steps.
pub proof fn lemma_continuation_composes(first: Ledger, second: Ledger, third: Ledger)
    ensures
        first.continued_by(first),
        first.continued_by(second) && second.continued_by(third) ==> first.continued_by(third),
{
    if first.continued_by(second) && second.continued_by(third) {
        assert forall|i: int| 0 <= i < first.positions.len() implies first.positions[i].continued_by(
            #[trigger] third.positions[i],
        ) by {
            assert(first.positions[i].continued_by(second.positions[i]));
            assert(second.positions[i].continued_by(third.positions[i]));
        }
        assert forall|j: int| 0 <= j < first.users.len() implies {
            &&& (#[trigger] third.users[j]).owner == first.users[j].owner
            &&& third.users[j].created_at == first.users[j].created_at
            &&& third.users[j].total_collateral == first.users[j].total_collateral
        } by {
            assert(second.users[j].owner == first.users[j].owner);
            assert(third.users[j].owner == second.users[j].owner);
        }
    }
}

/// No operation removes an account or a position, changes an owner or what
/// was fixed when a position was opened, or touches a position that was
/// closed or liquidated: whatever an operation returns, the ledger it leaves
/// continues the ledger it found.
pub proof fn lemma_operations_continue(
    ledger: Ledger,
    id: String,
    owner: String,
    symbol: String,
    side: PositionSide,
    size: u64,
    leverage: u16,
    entry_price: u64,
    size_delta: i64,
    margin_delta: i64,
    exit_price: u64,
    now: i64,
)
    requires
        ledger.wf(),
    ensures
        ledger.continued_by(ledger.initialize_user(owner, now)),
        ledger.open_position(id, owner, symbol, side, size, leverage, entry_price, now) matches Ok(
            next,
        ) ==> ledger.continued_by(next),
        ledger.modify_position(id@, size_delta, margin_delta) matches Ok(next)
            ==> ledger.continued_by(next),
        ledger.close_position(id@, exit_price, now) matches Ok(next) ==> ledger.continued_by(next),
        ledger.liquidate_position(id@, now) matches Ok(next) ==> ledger.continued_by(next),
{
    if ledger.has_user(owner@) {
        assert(ledger.user_at(owner@, ledger.user_index(owner@)));
    }
    if ledger.has_position(id@) {
        let index = ledger.position_index(id@);
        assert(ledger.position_at(id@, index));
        let position = ledger.positions[index];
        assert(position.wf() && ledger.has_user(position.owner@));
        assert(ledger.user_at(position.owner@, ledger.user_index(position.owner@)));
    }
}

/// The same holds of the instructions themselves, whoever holds the records:
/// once a close or a liquidation has succeeded, a further close, liquidation
/// or modification of the position it left is refused with
/// `PositionAlreadyClosed`, when asked for by the owner on the owner's
/// account.
pub proof fn lemma_instructions_are_final(
    position: Position,
    account: UserAccount,
    exit_price: u64,
    size_delta: i64,
    margin_delta: i64,
    now: i64,
)
    requires
        !position.is_open(),
        account.owner@ == position.owner@,
    ensures
        close_spec(
            ClosePosition { owner: position.owner, user_account: account, position },
            exit_price,
            now,
        ) == Err::<(ClosePosition, i64), ErrorCode>(ErrorCode::PositionAlreadyClosed),
        liquidate_spec(LiquidatePosition { position, user_account: account }, now) == Err::<
            (LiquidatePosition, i64),
            ErrorCode,
        >(ErrorCode::PositionAlreadyClosed),
        modify_spec(
            ModifyPosition { owner: position.owner, user_account: account, position },
            size_delta,
            margin_delta,
        ) == Err::<ModifyPosition, ErrorCode>(ErrorCode::PositionAlreadyClosed),
{
}

/// What a successful close or liquidation leaves is a position that is no
/// longer open, on the account of the same owner.
pub proof fn lemma_settlement_ends_position(
    position: Position,
    account: UserAccount,
    owner: String,
    exit_price: u64,
    now: i64,
)
    ensures
        close_spec(ClosePosition { owner, user_account: account, position }, exit_price, now)
            matches Ok((left, _)) ==> {
            &&& left.position.status == PositionStatus::Closed
            &&& left.position.owner == position.owner
            &&& left.user_account.owner == account.owner
            &&& left.user_account.owner@ == left.position.owner@
        },
        liquidate_spec(LiquidatePosition { position, user_account: account }, now) matches Ok(
            (left, _),
        ) ==> {
            &&& left.position.status == PositionStatus::Liquidated
            &&& left.position.owner == position.owner
            &&& left.user_account.owner == account.owner
            &&& left.user_account.owner@ == left.position.owner@
        },
{
}

/// An instruction asked for by anyone but the owner of the position, or on
/// an account that is not the owner's, is refused with `Unauthorized`.
pub proof fn lemma_strangers_are_refused(
    position: Position,
    account: UserAccount,
    owner: String,
    exit_price: u64,
    size_delta: i64,
    margin_delta: i64,
    now: i64,
)
    requires
        owner@ != position.owner@ || account.owner@ != position.owner@,
    ensures
        close_spec(ClosePosition { owner, user_account: account, position }, exit_price, now)
            == Err::<(ClosePosition, i64), ErrorCode>(ErrorCode::Unauthorized),
        modify_spec(
            ModifyPosition { owner, user_account: account, position },
            size_delta,
            margin_delta,
        ) == Err::<ModifyPosition, ErrorCode>(ErrorCode::Unauthorized),
        account.owner@ != position.owner@ ==> liquidate_spec(
            LiquidatePosition { position, user_account: account },
            now,
        ) == Err::<(LiquidatePosition, i64), ErrorCode>(ErrorCode::Unauthorized),
{
}

} // verus!
