//! Margin and position lifecycle engine for leveraged trading.
//!
//! The crate resolves leverage tiers, computes margin, liquidation prices and
//! profit and loss in exact integer arithmetic, and drives positions through
//! their lifecycle while keeping every owner's locked collateral equal to the
//! margin of that owner's open positions.
//!
//! The functions of this module are the entry points of a running service:
//! they read the clock, draw an identity where one is needed, and hand over
//! to the operation on the state, which is proved for every time and every
//! identity.
use vstd::prelude::*;
pub use crate::app_state::AppState;
pub use crate::errors::ErrorCode;
pub use crate::instructions::close_position::ClosePosition;
pub use crate::instructions::initialize_user::InitializeUser;
pub use crate::instructions::liquidate_position::LiquidatePosition;
pub use crate::instructions::modify_position::ModifyPosition;
pub use crate::instructions::open_position::OpenPosition;
use crate::operations::{opened, transitioned};
pub use crate::state::position::{Position, PositionSide, PositionStatus};
pub use crate::state::user::User;
pub use crate::state::user_account::UserAccount;
use crate::system::{current_timestamp, fresh_position_id};
pub use crate::tiers::{get_leverage_tier, LeverageTier, LeverageTierTable};

pub mod app_state;
pub mod errors;
pub mod instructions;
pub mod laws;
pub mod ledger;
pub mod margin;
pub mod operations;
pub mod state;
pub mod queries;
mod system;
pub mod tiers;

verus! {

/// Creates the account of `owner` at the present time, unless the owner has
/// one already, and returns the account as it then stands.
pub fn initialize_user(state: &mut AppState, owner: String) -> (account: UserAccount)
    ensures
        final(state).wf(),
        exists|now: i64| #[trigger] old(state)@.initialize_user(owner, now) == final(state)@,
        final(state)@.has_user(owner@),
        account == final(state)@.users[final(state)@.user_index(owner@)],
{
    let now = current_timestamp();
    state.initialize_user(owner, now)
}

/// Opens a position at the present time, under an identity drawn for it.
/// Returns the new position and the tier it was opened under; on an error
/// nothing changes.
pub fn open_position(
    state: &mut AppState,
    owner: String,
    symbol: String,
    side: PositionSide,
    size: u64,
    leverage: u16,
    entry_price: u64,
) -> (result: Result<(Position, LeverageTier), ErrorCode>)
    ensures
        final(state).wf(),
        exists|id: String, now: i64| #[trigger]
            opened(
                old(state)@,
                final(state)@,
                id,
                owner,
                symbol,
                side,
                size,
                leverage,
                entry_price,
                now,
                result,
            ),
{
    let now = current_timestamp();
    let id = fresh_position_id(&owner);
    state.open_position(id, owner, symbol, side, size, leverage, entry_price, now)
}

/// Changes the size and the margin of an open position. Returns the position
/// as it then stands; on an error nothing changes.
pub fn modify_position(
    state: &mut AppState,
    position_id: String,
    size_delta: i64,
    margin_delta: i64,
) -> (result: Result<Position, ErrorCode>)
    ensures
        final(state).wf(),
        transitioned(
            old(state)@,
            final(state)@,
            position_id@,
            old(state)@.modify_position(position_id@, size_delta, margin_delta),
            result,
        ),
{
    state.modify_position(&position_id, size_delta, margin_delta)
}

/// Closes an open position at `exit_price`, at the present time. Returns the
/// position as it then stands; on an error nothing changes.
pub fn close_position(state: &mut AppState, position_id: String, exit_price: u64) -> (result:
    Result<Position, ErrorCode>)
    ensures
        final(state).wf(),
        exists|now: i64|
            transitioned(
                old(state)@,
                final(state)@,
                position_id@,
                #[trigger] old(state)@.close_position(position_id@, exit_price, now),
                result,
            ),
{
    let now = current_timestamp();
    state.close_position(&position_id, exit_price, now)
}

/// Liquidates an open position at the present time. Returns the position as
/// it then stands; on an error nothing changes.
pub fn liquidate_position(state: &mut AppState, position_id: String) -> (result: Result<
    Position,
    ErrorCode,
>)
    ensures
        final(state).wf(),
        exists|now: i64|
            transitioned(
                old(state)@,
                final(state)@,
                position_id@,
                #[trigger] old(state)@.liquidate_position(position_id@, now),
                result,
            ),
{
    let now = current_timestamp();
    state.liquidate_position(&position_id, now)
}

} // verus!
