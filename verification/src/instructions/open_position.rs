//! Opening a position.
use vstd::prelude::*;
use crate::errors::ErrorCode;
use crate::state::position::{Position, PositionSide};
use crate::state::user_account::UserAccount;
use crate::tiers::{resolve_spec, LeverageTier, LeverageTierTable};

verus! {

/// What the opening of a position works on: the owner and the owner's
/// account.
#[derive(Debug)]
pub struct OpenPosition {
    /// The identity of whoever opens the position, already verified.
    pub owner: String,
    /// The account on which the margin is locked.
    pub user_account: UserAccount,
}

/// What `handler` makes of the accounts, with the position it opens and the
/// tier it resolves, or the first check that fails: the account is the
/// owner's, the size, the entry price, the leverage, the tier, the margin,
/// the liquidation price, and the account's books.
pub open spec fn open_spec(
    ctx: OpenPosition,
    tiers: Seq<LeverageTier>,
    id: String,
    symbol: String,
    side: PositionSide,
    size: u64,
    leverage: u16,
    entry_price: u64,
    now: i64,
) -> Result<(OpenPosition, Position, LeverageTier), ErrorCode> {
    if ctx.user_account.owner@ != ctx.owner@ {
        Err(ErrorCode::Unauthorized)
    } else if size == 0 {
        Err(ErrorCode::InvalidPositionSize)
    } else if entry_price == 0 {
        Err(ErrorCode::InvalidPrice)
    } else if leverage == 0 {
        Err(ErrorCode::InvalidLeverage)
    } else {
        match resolve_spec(tiers, leverage, size) {
            Err(e) => Err(e),
            Ok(tier) => match Position::open_spec(
                id,
                ctx.owner,
                symbol,
                side,
                size,
                entry_price,
                leverage,
                tier.maintenance_margin_rate,
                now,
            ) {
                Err(e) => Err(e),
                Ok(position) => match ctx.user_account.opened_spec(position.margin, now) {
                    Err(e) => Err(e),
                    Ok(account) => Ok((OpenPosition { user_account: account, ..ctx }, position, tier)),
                },
            },
        }
    }
}

/// Opens a position under the identity `id`: resolves the tier, computes the
/// margin and the liquidation price from the maintenance rate of that tier,
/// locks the margin on the owner's account and counts the position. Returns
/// the new position, open, and the tier it was opened under.
pub fn handler(
    ctx: &mut OpenPosition,
    tiers: &LeverageTierTable,
    id: String,
    symbol: String,
    side: PositionSide,
    size: u64,
    leverage: u16,
    entry_price: u64,
    now: i64,
) -> (result: Result<(Position, LeverageTier), ErrorCode>)
    ensures
        match result {
            Ok((position, tier)) => open_spec(
                *old(ctx),
                tiers@,
                id,
                symbol,
                side,
                size,
                leverage,
                entry_price,
                now,
            ) == Ok::<_, ErrorCode>((*final(ctx), position, tier)),
            Err(e) => open_spec(
                *old(ctx),
                tiers@,
                id,
                symbol,
                side,
                size,
                leverage,
                entry_price,
                now,
            ) == Err::<(OpenPosition, Position, LeverageTier), ErrorCode>(e)
                && *final(ctx) == *old(ctx),
        },
{
    if ctx.user_account.owner != ctx.owner {
        return Err(ErrorCode::Unauthorized);
    }
    if size == 0 {
        return Err(ErrorCode::InvalidPositionSize);
    }
    if entry_price == 0 {
        return Err(ErrorCode::InvalidPrice);
    }
    if leverage == 0 {
        return Err(ErrorCode::InvalidLeverage);
    }
    let tier = match tiers.resolve(leverage, size) {
        Ok(tier) => tier,
        Err(e) => {
            return Err(e);
        },
    };
    let position = match Position::open(
        id,
        ctx.owner.clone(),
        symbol,
        side,
        size,
        entry_price,
        leverage,
        tier.maintenance_margin_rate,
        now,
    ) {
        Ok(position) => position,
        Err(e) => {
            return Err(e);
        },
    };
    match ctx.user_account.record_open(position.margin, now) {
        Ok(_) => Ok((position, tier)),
        Err(e) => Err(e),
    }
}

} // verus!
