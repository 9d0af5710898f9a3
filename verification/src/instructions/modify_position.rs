//! Changing the size and the margin of an open position.
use vstd::prelude::*;
use crate::errors::ErrorCode;
use crate::state::position::Position;
use crate::state::user_account::UserAccount;

verus! {

/// What a modification works on: whoever asks for it, the position, and the
/// account of its owner.
#[derive(Debug)]
pub struct ModifyPosition {
    /// The identity of whoever asks, already verified.
    pub owner: String,
    /// The account of the position's owner.
    pub user_account: UserAccount,
    /// The position.
    pub position: Position,
}

/// What `handler` makes of the accounts, or the first check that fails: the
/// position and the account are the asker's, the position's own checks, and
/// the account's books.
pub open spec fn modify_spec(ctx: ModifyPosition, size_delta: i64, margin_delta: i64) -> Result<
    ModifyPosition,
    ErrorCode,
> {
    if ctx.position.owner@ != ctx.owner@ || ctx.user_account.owner@ != ctx.owner@ {
        Err(ErrorCode::Unauthorized)
    } else {
        match ctx.position.modify_spec(size_delta, margin_delta) {
            Err(e) => Err(e),
            Ok(modified) => match ctx.user_account.adjusted_spec(
                ctx.position.margin,
                modified.margin,
            ) {
                Err(e) => Err(e),
                Ok(account) => Ok(
                    ModifyPosition { position: modified, user_account: account, ..ctx },
                ),
            },
        }
    }
}

/// Applies the change of size and of margin to the position and moves the
/// owner's locked collateral by the change of the margin.
pub fn handler(ctx: &mut ModifyPosition, size_delta: i64, margin_delta: i64) -> (result: Result<
    (),
    ErrorCode,
>)
    ensures
        match result {
            Ok(_) => modify_spec(*old(ctx), size_delta, margin_delta) == Ok::<
                ModifyPosition,
                ErrorCode,
            >(*final(ctx)),
            Err(e) => modify_spec(*old(ctx), size_delta, margin_delta) == Err::<
                ModifyPosition,
                ErrorCode,
            >(e) && *final(ctx) == *old(ctx),
        },
{
    if ctx.position.owner != ctx.owner || ctx.user_account.owner != ctx.owner {
        return Err(ErrorCode::Unauthorized);
    }
    let mut position = ctx.position.clone();
    match position.modify(size_delta, margin_delta) {
        Ok(_) => {},
        Err(e) => {
            return Err(e);
        },
    }
    match ctx.user_account.record_adjust(ctx.position.margin, position.margin) {
        Ok(_) => {},
        Err(e) => {
            return Err(e);
        },
    }
    ctx.position = position;
    Ok(())
}

} // verus!
