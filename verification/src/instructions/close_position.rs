//! Closing an open position.
use vstd::prelude::*;
use crate::errors::ErrorCode;
use crate::state::position::Position;
use crate::state::user_account::UserAccount;

verus! {

/// What a close works on: whoever asks for it, the position, and the account
/// of its owner.
#[derive(Debug)]
pub struct ClosePosition {
    /// The identity of whoever asks, already verified.
    pub owner: String,
    /// The account of the position's owner.
    pub user_account: UserAccount,
    /// The position.
    pub position: Position,
}

/// What `handler` makes of the accounts, with the realized profit and loss,
/// or the first check that fails: the position and the account are the
/// asker's, the position's own checks, and the account's books.
pub open spec fn close_spec(ctx: ClosePosition, exit_price: u64, now: i64) -> Result<
    (ClosePosition, i64),
    ErrorCode,
> {
    if ctx.position.owner@ != ctx.owner@ || ctx.user_account.owner@ != ctx.owner@ {
        Err(ErrorCode::Unauthorized)
    } else {
        match ctx.position.close_spec(exit_price, now) {
            Err(e) => Err(e),
            Ok((closed, realized)) => match ctx.user_account.settled_spec(
                ctx.position.margin,
                realized,
            ) {
                Err(e) => Err(e),
                Ok(account) => Ok(
                    (
                        ClosePosition {
                            position: closed,
                            user_account: account.touched(now),
                            ..ctx
                        },
                        realized,
                    ),
                ),
            },
        }
    }
}

/// Closes the position at the exit price: settles the realized profit and
/// loss, releases the margin from the owner's locked collateral, adds the
/// profit and loss to the owner's total and counts one position fewer.
/// Returns the realized profit and loss.
pub fn handler(ctx: &mut ClosePosition, exit_price: u64, now: i64) -> (result: Result<
    i64,
    ErrorCode,
>)
    ensures
        match result {
            Ok(realized) => close_spec(*old(ctx), exit_price, now) == Ok::<
                (ClosePosition, i64),
                ErrorCode,
            >((*final(ctx), realized)),
            Err(e) => close_spec(*old(ctx), exit_price, now) == Err::<
                (ClosePosition, i64),
                ErrorCode,
            >(e) && *final(ctx) == *old(ctx),
        },
{
    if ctx.position.owner != ctx.owner || ctx.user_account.owner != ctx.owner {
        return Err(ErrorCode::Unauthorized);
    }
    let mut position = ctx.position.clone();
    let realized = match position.close(exit_price, now) {
        Ok(realized) => realized,
        Err(e) => {
            return Err(e);
        },
    };
    match ctx.user_account.record_settle(position.margin, realized) {
        Ok(_) => {},
        Err(e) => {
            return Err(e);
        },
    }
    ctx.user_account.last_activity = now;
    ctx.position = position;
    Ok(realized)
}

} // verus!
