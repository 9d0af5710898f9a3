//! Margin, liquidation price and profit-and-loss arithmetic.
//!
//! Every formula is stated over mathematical integers and computed in a
//! 128-bit intermediate, so that no step wraps and every result that does not
//! fit its type is reported as an error.
use vstd::prelude::*;
use crate::errors::ErrorCode;
use crate::state::position::PositionSide;

verus! {

/// Rates are expressed in basis points: ten thousand to the unit.
pub const RATE_SCALE: u64 = 10_000;

/// Entry price times size, divided by leverage and rounded down.
pub open spec fn margin_value(entry_price: int, size: int, leverage: int) -> int {
    (entry_price * size) / leverage
}

/// What `required_margin` returns on each input.
pub open spec fn required_margin_spec(entry_price: u64, size: u64, leverage: u16) -> Result<
    u64,
    ErrorCode,
> {
    if leverage == 0 {
        Err(ErrorCode::InvalidLeverage)
    } else if margin_value(entry_price as int, size as int, leverage as int) > u64::MAX {
        Err(ErrorCode::CalculationOverflow)
    } else {
        Ok(margin_value(entry_price as int, size as int, leverage as int) as u64)
    }
}

proof fn lemma_product_bound(a: int, b: int, a_max: int, b_max: int)
    by (nonlinear_arith)
    requires
        0 <= a <= a_max,
        0 <= b <= b_max,
    ensures
        0 <= a * b <= a_max * b_max,
{
}

/// The notional value of a position: entry price times size.
pub fn notional(entry_price: u64, size: u64) -> (value: u128)
    ensures
        value == entry_price * size,
{
    proof {
        lemma_product_bound(
            entry_price as int,
            size as int,
            u64::MAX as int,
            u64::MAX as int,
        );
    }
    (entry_price as u128) * (size as u128)
}

/// The margin a position must lock: `entry_price * size / leverage`, rounded
/// down. A zero leverage is refused, and so is a margin beyond 64 bits.
pub fn required_margin(entry_price: u64, size: u64, leverage: u16) -> (result: Result<
    u64,
    ErrorCode,
>)
    ensures
        result == required_margin_spec(entry_price, size, leverage),
{
    if leverage == 0 {
        return Err(ErrorCode::InvalidLeverage);
    }
    let margin: u128 = notional(entry_price, size) / (leverage as u128);
    if margin > u64::MAX as u128 {
        Err(ErrorCode::CalculationOverflow)
    } else {
        Ok(margin as u64)
    }
}

/// A liquidation price, with a mark that tells whether the formula went
/// below zero and the price was raised to zero.
#[derive(Clone, Copy, Debug, PartialEq, Eq, Structural)]
pub struct LiquidationPrice {
    /// The price, in price units, rounded down.
    pub price: u64,
    /// True when the formula gave a negative price and zero stands in its place.
    pub clamped: bool,
}

/// The numerator of the liquidation factor over `RATE_SCALE * leverage`:
/// `1 - 1/leverage + rate` for a long position, `1 + 1/leverage - rate` for a
/// short one, with `rate` in basis points.
pub open spec fn liquidation_factor(side: PositionSide, leverage: int, rate: int) -> int {
    match side {
        PositionSide::Long => RATE_SCALE * leverage - RATE_SCALE + rate * leverage,
        PositionSide::Short => RATE_SCALE * leverage + RATE_SCALE - rate * leverage,
    }
}

/// The liquidation price before clamping and range checks: the entry price
/// scaled by the liquidation factor, rounded down.
pub open spec fn liquidation_value(side: PositionSide, entry_price: int, leverage: int, rate: int) -> int {
    (entry_price * liquidation_factor(side, leverage, rate)) / (RATE_SCALE * leverage)
}

/// What `liquidation_price` returns on each input.
pub open spec fn liquidation_price_spec(
    entry_price: u64,
    leverage: u16,
    maintenance_rate: u32,
    side: PositionSide,
) -> Result<LiquidationPrice, ErrorCode> {
    let value = liquidation_value(
        side,
        entry_price as int,
        leverage as int,
        maintenance_rate as int,
    );
    if leverage == 0 {
        Err(ErrorCode::InvalidLeverage)
    } else if value < 0 {
        Ok(LiquidationPrice { price: 0, clamped: true })
    } else if value > u64::MAX {
        Err(ErrorCode::CalculationOverflow)
    } else {
        Ok(LiquidationPrice { price: value as u64, clamped: false })
    }
}

proof fn lemma_negative_quotient(n: int, d: int)
    by (nonlinear_arith)
    requires
        n < 0,
        d > 0,
    ensures
        n / d < 0,
{
}

proof fn lemma_negative_product(a: int, b: int)
    by (nonlinear_arith)
    requires
        a > 0,
        b < 0,
    ensures
        a * b < 0,
{
}

proof fn lemma_scale_positive(leverage: int)
    by (nonlinear_arith)
    requires
        1 <= leverage <= u16::MAX,
    ensures
        RATE_SCALE <= RATE_SCALE * leverage <= RATE_SCALE * u16::MAX,
{
}

/// Only a maintenance rate above one can drive the formula below zero: with
/// a rate of at most one, no liquidation price is clamped, on either side.
pub proof fn lemma_rate_within_one_not_clamped(
    entry_price: u64,
    leverage: u16,
    maintenance_rate: u32,
    side: PositionSide,
)
    requires
        leverage >= 1,
        maintenance_rate <= RATE_SCALE,
    ensures
        liquidation_value(side, entry_price as int, leverage as int, maintenance_rate as int) >= 0,
        liquidation_price_spec(entry_price, leverage, maintenance_rate, side) matches Ok(found)
            ==> !found.clamped,
{
    let factor = liquidation_factor(side, leverage as int, maintenance_rate as int);
    assert(factor >= 0) by (nonlinear_arith)
        requires
            leverage >= 1,
            0 <= maintenance_rate <= RATE_SCALE,
            factor == (match side {
                PositionSide::Long => RATE_SCALE * leverage - RATE_SCALE + maintenance_rate
                    * leverage,
                PositionSide::Short => RATE_SCALE * leverage + RATE_SCALE - maintenance_rate
                    * leverage,
            }),
    ;
    assert((entry_price * factor) / (RATE_SCALE * leverage) >= 0) by (nonlinear_arith)
        requires
            entry_price >= 0,
            factor >= 0,
            leverage >= 1,
    ;
}

/// Scales `entry_price` by `factor / divisor` and fits the result in 64 bits.
fn scale_price(entry_price: u64, factor: u128, divisor: u128) -> (result: Result<
    LiquidationPrice,
    ErrorCode,
>)
    requires
        factor <= 0x1_0000_0000_0000,
        divisor > 0,
    ensures
        result == (if (entry_price * factor) / (divisor as int) > u64::MAX {
            Err::<LiquidationPrice, ErrorCode>(ErrorCode::CalculationOverflow)
        } else {
            Ok(
                LiquidationPrice {
                    price: ((entry_price * factor) / (divisor as int)) as u64,
                    clamped: false,
                },
            )
        }),
        (entry_price * factor) / (divisor as int) >= 0,
{
    proof {
        lemma_product_bound(
            entry_price as int,
            factor as int,
            u64::MAX as int,
            0x1_0000_0000_0000,
        );
    }
    let scaled: u128 = (entry_price as u128) * factor;
    let value: u128 = scaled / divisor;
    if value > u64::MAX as u128 {
        Err(ErrorCode::CalculationOverflow)
    } else {
        Ok(LiquidationPrice { price: value as u64, clamped: false })
    }
}

/// The liquidation price of a long position:
/// `entry_price * (1 - 1/leverage + maintenance_rate)`, rounded down, with the
/// rate in basis points.
pub fn calculate_liquidation_price_long(
    entry_price: u64,
    leverage: u16,
    maintenance_rate: u32,
) -> (result: Result<LiquidationPrice, ErrorCode>)
    ensures
        result == liquidation_price_spec(
            entry_price,
            leverage,
            maintenance_rate,
            PositionSide::Long,
        ),
{
    if leverage == 0 {
        return Err(ErrorCode::InvalidLeverage);
    }
    proof {
        lemma_scale_positive(leverage as int);
        lemma_product_bound(
            maintenance_rate as int,
            leverage as int,
            u32::MAX as int,
            u16::MAX as int,
        );
    }
    let divisor: u128 = (RATE_SCALE as u128) * (leverage as u128);
    let factor: u128 = divisor - (RATE_SCALE as u128) + (maintenance_rate as u128) * (
    leverage as u128);
    scale_price(entry_price, factor, divisor)
}

/// The liquidation price of a short position:
/// `entry_price * (1 + 1/leverage - maintenance_rate)`, rounded down, with the
/// rate in basis points. A rate so large that the formula turns negative
/// yields the price zero, marked as clamped.
pub fn calculate_liquidation_price_short(
    entry_price: u64,
    leverage: u16,
    maintenance_rate: u32,
) -> (result: Result<LiquidationPrice, ErrorCode>)
    ensures
        result == liquidation_price_spec(
            entry_price,
            leverage,
            maintenance_rate,
            PositionSide::Short,
        ),
{
    if leverage == 0 {
        return Err(ErrorCode::InvalidLeverage);
    }
    proof {
        lemma_scale_positive(leverage as int);
        lemma_product_bound(
            maintenance_rate as int,
            leverage as int,
            u32::MAX as int,
            u16::MAX as int,
        );
    }
    let divisor: u128 = (RATE_SCALE as u128) * (leverage as u128);
    let raised: u128 = divisor + (RATE_SCALE as u128);
    let lowered: u128 = (maintenance_rate as u128) * (leverage as u128);
    if lowered > raised {
        if entry_price == 0 {
            Ok(LiquidationPrice { price: 0, clamped: false })
        } else {
            proof {
                lemma_negative_product(entry_price as int, raised - lowered);
                lemma_negative_quotient(entry_price * (raised - lowered), divisor as int);
            }
            Ok(LiquidationPrice { price: 0, clamped: true })
        }
    } else {
        scale_price(entry_price, raised - lowered, divisor)
    }
}

/// The price at which a position becomes subject to liquidation, from its
/// side, entry price, leverage and the maintenance rate of its tier (in basis
/// points). A zero leverage is refused, and so is a price beyond 64 bits; a
/// negative price is raised to zero and marked.
pub fn liquidation_price(
    entry_price: u64,
    leverage: u16,
    maintenance_rate: u32,
    side: PositionSide,
) -> (result: Result<LiquidationPrice, ErrorCode>)
    ensures
        result == liquidation_price_spec(entry_price, leverage, maintenance_rate, side),
{
    match side {
        PositionSide::Long => calculate_liquidation_price_long(
            entry_price,
            leverage,
            maintenance_rate,
        ),
        PositionSide::Short => calculate_liquidation_price_short(
            entry_price,
            leverage,
            maintenance_rate,
        ),
    }
}

/// Profit and loss over mathematical integers: the price move in the
/// position's favour, times its size.
pub open spec fn pnl_value(
    side: PositionSide,
    entry_price: int,
    reference_price: int,
    size: int,
) -> int {
    match side {
        PositionSide::Long => (reference_price - entry_price) * size,
        PositionSide::Short => (entry_price - reference_price) * size,
    }
}

/// What `pnl` returns on each input.
pub open spec fn pnl_spec(
    side: PositionSide,
    entry_price: u64,
    reference_price: u64,
    size: u64,
) -> Result<i64, ErrorCode> {
    let value = pnl_value(side, entry_price as int, reference_price as int, size as int);
    if i64::MIN <= value <= i64::MAX {
        Ok(value as i64)
    } else {
        Err(ErrorCode::CalculationOverflow)
    }
}

proof fn lemma_negated_product(a: int, b: int)
    by (nonlinear_arith)
    ensures
        (-a) * b == -(a * b),
{
}

/// Profit and loss of a position against a reference price: the mark price
/// for unrealized, the settlement price for realized profit and loss. A
/// result outside the signed 64-bit range is refused.
pub fn pnl(side: PositionSide, entry_price: u64, reference_price: u64, size: u64) -> (result:
    Result<i64, ErrorCode>)
    ensures
        result == pnl_spec(side, entry_price, reference_price, size),
{
    let rises = reference_price >= entry_price;
    let distance: u64 = if rises {
        reference_price - entry_price
    } else {
        entry_price - reference_price
    };
    let gains = match side {
        PositionSide::Long => rises,
        PositionSide::Short => !rises,
    };
    proof {
        lemma_product_bound(distance as int, size as int, u64::MAX as int, u64::MAX as int);
        lemma_negated_product(distance as int, size as int);
    }
    let magnitude: u128 = (distance as u128) * (size as u128);
    assert(pnl_value(side, entry_price as int, reference_price as int, size as int) == (if gains
        || distance == 0 {
        magnitude as int
    } else {
        -(magnitude as int)
    }));
    if gains {
        if magnitude > i64::MAX as u128 {
            Err(ErrorCode::CalculationOverflow)
        } else {
            Ok(magnitude as i64)
        }
    } else if magnitude > (i64::MAX as u128) + 1 {
        Err(ErrorCode::CalculationOverflow)
    } else if magnitude == (i64::MAX as u128) + 1 {
        Ok(i64::MIN)
    } else {
        Ok(-(magnitude as i64))
    }
}

} // verus!
