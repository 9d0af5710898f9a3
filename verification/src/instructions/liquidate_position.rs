//! Liquidating an open position.
use vstd::prelude::*;
use crate::errors::ErrorCode;
use crate::state::position::Position;
use crate::state::user_account::UserAccount;

verus! {

/// What a liquidation works on: the position and the account of its owner.
/// Whether the position is due for liquidation, and who may trigger it, is
/// for the caller to decide.
#[derive(Debug)]
pub struct LiquidatePosition {
    /// The position.
    pub position: Position,
    /// The account of the position's owner.
    pub user_account: UserAccount,
}

/// What `handler` makes of the accounts, with the realized profit and loss,
/// or the first check that fails: the account is the owner's, the position's
/// own checks, and the account's books.
pub open spec fn liquidate_spec(ctx: LiquidatePosition, now: i64) -> Result<
    (LiquidatePosition, i64),
    ErrorCode,
> {
    if ctx.user_account.owner@ != ctx.position.owner@ {
        Err(ErrorCode::Unauthorized)
    } else {
        match ctx.position.liquidate_spec(now) {
            Err(e) => Err(e),
            Ok((liquidated, realized)) => match ctx.user_account.settled_spec(
                ctx.position.margin,
                realized,
            ) {
                Err(e) => Err(e),
                Ok(account) => Ok(
                    (LiquidatePosition { position: liquidated, user_account: account }, realized),
                ),
            },
        }
    }
}

/// Liquidates the position: settles the realized profit and loss at the
/// position's liquidation price, releases the margin from the owner's locked
/// collateral, adds the profit and loss to the owner's total and counts one
/// position fewer. Returns the realized profit and loss.
pub fn handler(ctx: &mut LiquidatePosition, now: i64) -> (result: Result<i64, ErrorCode>)
    ensures
        match result {
            Ok(realized) => liquidate_spec(*old(ctx), now) == Ok::<
                (LiquidatePosition, i64),
                ErrorCode,
            >((*final(ctx), realized)),
            Err(e) => liquidate_spec(*old(ctx), now) == Err::<(LiquidatePosition, i64), ErrorCode>(
                e,
            ) && *final(ctx) == *old(ctx),
        },
{
    if ctx.user_account.owner != ctx.position.owner {
        return Err(ErrorCode::Unauthorized);
    }
    let mut position = ctx.position.clone();
    let realized = match position.liquidate(now) {
        Ok(realized) => realized,
        Err(e) => {
            return Err(e);
        },
    };
    match ctx.user_account.record_settle(position.margin, realized) {
        Ok(_) => {},
        Err(e) => {
            return Err(e);
        },
    }
    ctx.position = position;
    Ok(realized)
}

} // verus!
