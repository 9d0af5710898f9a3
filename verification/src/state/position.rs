//! A leveraged position, its lifecycle, and the two enumerations it is built on.
//!
//! A position is created open and ends either closed or liquidated. Both ends
//! are terminal: every transition out of them is refused.
use vstd::prelude::*;
use crate::errors::ErrorCode;
use crate::margin::{
    liquidation_price, liquidation_price_spec, pnl, pnl_spec, required_margin,
    required_margin_spec,
};

verus! {

/// The direction of a position.
#[derive(Clone, Copy, Debug, PartialEq, Eq, Structural)]
pub enum PositionSide {
    /// Gains when the price rises.
    Long,
    /// Gains when the price falls.
    Short,
}

impl PositionSide {
    /// Reads a side from its wire code: 1 is long, every other code short.
    pub fn from_code(code: u8) -> (side: PositionSide)
        ensures
            side == (if code == 1 {
                PositionSide::Long
            } else {
                PositionSide::Short
            }),
    {
        if code == 1 {
            PositionSide::Long
        } else {
            PositionSide::Short
        }
    }

    /// The wire code of a side: 1 for long, 2 for short.
    pub fn code(&self) -> (code: u8)
        ensures
            code == (if *self == PositionSide::Long {
                1u8
            } else {
                2u8
            }),
    {
        match self {
            PositionSide::Long => 1,
            PositionSide::Short => 2,
        }
    }
}

/// Where a position stands in its lifecycle.
#[derive(Clone, Copy, Debug, PartialEq, Eq, Structural)]
pub enum PositionStatus {
    /// The position is live and its margin is locked.
    Open,
    /// The owner closed the position.
    Closed,
    /// The position was liquidated.
    Liquidated,
}

impl PositionStatus {
    /// The wire code of a status: 1 open, 2 closed, 3 liquidated.
    pub fn code(&self) -> (code: u8)
        ensures
            code == match *self {
                PositionStatus::Open => 1u8,
                PositionStatus::Closed => 2u8,
                PositionStatus::Liquidated => 3u8,
            },
    {
        match self {
            PositionStatus::Open => 1,
            PositionStatus::Closed => 2,
            PositionStatus::Liquidated => 3,
        }
    }

    /// Closed and liquidated are terminal.
    pub fn is_terminal(&self) -> (terminal: bool)
        ensures
            terminal == (*self != PositionStatus::Open),
    {
        match self {
            PositionStatus::Open => false,
            _ => true,
        }
    }
}

/// A leveraged position. Its owner never changes; neither do its id, symbol,
/// side, entry price, leverage and liquidation price.
#[derive(Debug)]
pub struct Position {
    /// The identity of the position.
    pub id: String,
    /// The identity of the owner.
    pub owner: String,
    /// The instrument traded.
    pub symbol: String,
    /// Long or short.
    pub side: PositionSide,
    /// The size, in base units.
    pub size: u64,
    /// The entry price, in price units.
    pub entry_price: u64,
    /// The leverage.
    pub leverage: u16,
    /// Open, closed or liquidated.
    pub status: PositionStatus,
    /// The collateral locked for the position.
    pub margin: u64,
    /// Profit and loss against the mark price; it has a meaning only while
    /// the position is open.
    pub unrealized_pnl: i64,
    /// Profit and loss settled when the position was closed or liquidated.
    pub realized_pnl: i64,
    /// The price at which the position becomes subject to liquidation.
    pub liquidation_price: u64,
    /// When the position was opened.
    pub opened_at: i64,
    /// When the position was closed or liquidated; zero while it is open.
    pub closed_at: i64,
}

impl Clone for Position {
    fn clone(&self) -> (copy: Position)
        ensures
            copy == *self,
    {
        Position {
            id: self.id.clone(),
            owner: self.owner.clone(),
            symbol: self.symbol.clone(),
            side: self.side,
            size: self.size,
            entry_price: self.entry_price,
            leverage: self.leverage,
            status: self.status,
            margin: self.margin,
            unrealized_pnl: self.unrealized_pnl,
            realized_pnl: self.realized_pnl,
            liquidation_price: self.liquidation_price,
            opened_at: self.opened_at,
            closed_at: self.closed_at,
        }
    }
}

/// The size or margin that a signed change leaves, over mathematical integers.
pub open spec fn shifted(amount: u64, delta: i64) -> int {
    amount + delta
}

impl Position {
    /// What every stored position satisfies: a positive size, entry price and
    /// leverage.
    pub open spec fn wf(self) -> bool {
        &&& self.size > 0
        &&& self.entry_price > 0
        &&& self.leverage > 0
    }

    /// The position is open.
    pub open spec fn is_open(self) -> bool {
        self.status == PositionStatus::Open
    }

    /// The margin the position keeps locked: its margin while it is open,
    /// nothing once it has reached a terminal state.
    pub open spec fn locked_margin(self) -> int {
        if self.is_open() {
            self.margin as int
        } else {
            0
        }
    }

    /// `later` is this position at a later time: what identifies a position
    /// and what was fixed when it was opened is the same, and a position that
    /// was closed or liquidated is the same in every field.
    pub open spec fn continued_by(self, later: Position) -> bool {
        &&& later.id == self.id
        &&& later.owner == self.owner
        &&& later.symbol == self.symbol
        &&& later.side == self.side
        &&& later.entry_price == self.entry_price
        &&& later.leverage == self.leverage
        &&& later.liquidation_price == self.liquidation_price
        &&& later.opened_at == self.opened_at
        &&& !self.is_open() ==> later == self
    }

    /// The position that a successful `open` creates.
    pub open spec fn opened(
        id: String,
        owner: String,
        symbol: String,
        side: PositionSide,
        size: u64,
        entry_price: u64,
        leverage: u16,
        margin: u64,
        liquidation_price: u64,
        now: i64,
    ) -> Position {
        Position {
            id,
            owner,
            symbol,
            side,
            size,
            entry_price,
            leverage,
            status: PositionStatus::Open,
            margin,
            unrealized_pnl: 0,
            realized_pnl: 0,
            liquidation_price,
            opened_at: now,
            closed_at: 0,
        }
    }

    /// What `open` returns on each input: the checks run in this order, and
    /// the first that fails names the error.
    pub open spec fn open_spec(
        id: String,
        owner: String,
        symbol: String,
        side: PositionSide,
        size: u64,
        entry_price: u64,
        leverage: u16,
        maintenance_rate: u32,
        now: i64,
    ) -> Result<Position, ErrorCode> {
        if size == 0 {
            Err(ErrorCode::InvalidPositionSize)
        } else if entry_price == 0 {
            Err(ErrorCode::InvalidPrice)
        } else {
            match required_margin_spec(entry_price, size, leverage) {
                Err(e) => Err(e),
                Ok(margin) => match liquidation_price_spec(
                    entry_price,
                    leverage,
                    maintenance_rate,
                    side,
                ) {
                    Err(e) => Err(e),
                    Ok(liquidation) => Ok(
                        Position::opened(
                            id,
                            owner,
                            symbol,
                            side,
                            size,
                            entry_price,
                            leverage,
                            margin,
                            liquidation.price,
                            now,
                        ),
                    ),
                },
            }
        }
    }

    /// Creates an open position: checks size, entry price and leverage,
    /// computes the margin to lock and the liquidation price from the
    /// maintenance rate of the resolved tier (in basis points).
    pub fn open(
        id: String,
        owner: String,
        symbol: String,
        side: PositionSide,
        size: u64,
        entry_price: u64,
        leverage: u16,
        maintenance_rate: u32,
        now: i64,
    ) -> (result: Result<Position, ErrorCode>)
        ensures
            result == Position::open_spec(
                id,
                owner,
                symbol,
                side,
                size,
                entry_price,
                leverage,
                maintenance_rate,
                now,
            ),
            result matches Ok(position) ==> position.wf() && position.is_open(),
    {
        if size == 0 {
            return Err(ErrorCode::InvalidPositionSize);
        }
        if entry_price == 0 {
            return Err(ErrorCode::InvalidPrice);
        }
        let margin = match required_margin(entry_price, size, leverage) {
            Ok(margin) => margin,
            Err(e) => {
                return Err(e);
            },
        };
        let liquidation = match liquidation_price(entry_price, leverage, maintenance_rate, side) {
            Ok(liquidation) => liquidation,
            Err(e) => {
                return Err(e);
            },
        };
        Ok(
            Position {
                id,
                owner,
                symbol,
                side,
                size,
                entry_price,
                leverage,
                status: PositionStatus::Open,
                margin,
                unrealized_pnl: 0,
                realized_pnl: 0,
                liquidation_price: liquidation.price,
                opened_at: now,
                closed_at: 0,
            },
        )
    }

    /// The position after a successful modification.
    pub open spec fn modified(self, size: u64, margin: u64) -> Position {
        Position { size, margin, ..self }
    }

    /// What `modify` returns on each input: the checks run in this order, and
    /// the first that fails names the error.
    pub open spec fn modify_spec(self, size_delta: i64, margin_delta: i64) -> Result<
        Position,
        ErrorCode,
    > {
        if !self.is_open() {
            Err(ErrorCode::PositionAlreadyClosed)
        } else if shifted(self.margin, margin_delta) < 0 {
            Err(ErrorCode::CannotReduceMargin)
        } else if shifted(self.size, size_delta) < 0 {
            Err(ErrorCode::CalculationUnderflow)
        } else if shifted(self.size, size_delta) > u64::MAX {
            Err(ErrorCode::CalculationOverflow)
        } else if shifted(self.size, size_delta) == 0 {
            Err(ErrorCode::InvalidPositionSize)
        } else if shifted(self.margin, margin_delta) > u64::MAX {
            Err(ErrorCode::CalculationOverflow)
        } else {
            Ok(
                self.modified(
                    shifted(self.size, size_delta) as u64,
                    shifted(self.margin, margin_delta) as u64,
                ),
            )
        }
    }

    /// Applies a change of size and of margin to an open position. Either
    /// both changes are applied or, on an error, none.
    pub fn modify(&mut self, size_delta: i64, margin_delta: i64) -> (result: Result<
        (),
        ErrorCode,
    >)
        ensures
            match result {
                Ok(_) => old(self).modify_spec(size_delta, margin_delta) == Ok::<
                    Position,
                    ErrorCode,
                >(*final(self)),
                Err(e) => old(self).modify_spec(size_delta, margin_delta) == Err::<
                    Position,
                    ErrorCode,
                >(e) && *final(self) == *old(self),
            },
    {
        if self.status.is_terminal() {
            return Err(ErrorCode::PositionAlreadyClosed);
        }
        let margin = apply_delta(self.margin, margin_delta);
        if let Err(ErrorCode::CalculationUnderflow) = margin {
            return Err(ErrorCode::CannotReduceMargin);
        }
        let size = match apply_delta(self.size, size_delta) {
            Ok(size) => size,
            Err(e) => {
                return Err(e);
            },
        };
        if size == 0 {
            return Err(ErrorCode::InvalidPositionSize);
        }
        let margin = match margin {
            Ok(margin) => margin,
            Err(e) => {
                return Err(e);
            },
        };
        self.size = size;
        self.margin = margin;
        Ok(())
    }

    /// The position after it was closed or liquidated into `status`.
    pub open spec fn settled(self, status: PositionStatus, realized_pnl: i64, now: i64) -> Position {
        Position { status, realized_pnl, unrealized_pnl: 0, closed_at: now, ..self }
    }

    /// What `close` returns on each input: the position after the close and
    /// the realized profit and loss, or the first check that fails.
    pub open spec fn close_spec(self, exit_price: u64, now: i64) -> Result<
        (Position, i64),
        ErrorCode,
    > {
        if !self.is_open() {
            Err(ErrorCode::PositionAlreadyClosed)
        } else if exit_price == 0 {
            Err(ErrorCode::InvalidPrice)
        } else {
            match pnl_spec(self.side, self.entry_price, exit_price, self.size) {
                Err(e) => Err(e),
                Ok(realized) => Ok((self.settled(PositionStatus::Closed, realized, now), realized)),
            }
        }
    }

    /// Closes an open position at `exit_price` and returns the realized
    /// profit and loss.
    pub fn close(&mut self, exit_price: u64, now: i64) -> (result: Result<i64, ErrorCode>)
        ensures
            match result {
                Ok(realized) => old(self).close_spec(exit_price, now) == Ok::<
                    (Position, i64),
                    ErrorCode,
                >((*final(self), realized)),
                Err(e) => old(self).close_spec(exit_price, now) == Err::<
                    (Position, i64),
                    ErrorCode,
                >(e) && *final(self) == *old(self),
            },
    {
        if self.status.is_terminal() {
            return Err(ErrorCode::PositionAlreadyClosed);
        }
        if exit_price == 0 {
            return Err(ErrorCode::InvalidPrice);
        }
        let realized = match pnl(self.side, self.entry_price, exit_price, self.size) {
            Ok(realized) => realized,
            Err(e) => {
                return Err(e);
            },
        };
        self.status = PositionStatus::Closed;
        self.realized_pnl = realized;
        self.unrealized_pnl = 0;
        self.closed_at = now;
        Ok(realized)
    }

    /// What `liquidate` returns on each input: the position after the
    /// liquidation and the realized profit and loss, settled at the
    /// position's own liquidation price, or the first check that fails.
    pub open spec fn liquidate_spec(self, now: i64) -> Result<(Position, i64), ErrorCode> {
        if !self.is_open() {
            Err(ErrorCode::PositionAlreadyClosed)
        } else {
            match pnl_spec(self.side, self.entry_price, self.liquidation_price, self.size) {
                Err(e) => Err(e),
                Ok(realized) => Ok(
                    (self.settled(PositionStatus::Liquidated, realized, now), realized),
                ),
            }
        }
    }

    /// Liquidates an open position, settling profit and loss at its
    /// liquidation price, and returns the realized profit and loss.
    pub fn liquidate(&mut self, now: i64) -> (result: Result<i64, ErrorCode>)
        ensures
            match result {
                Ok(realized) => old(self).liquidate_spec(now) == Ok::<(Position, i64), ErrorCode>(
                    (*final(self), realized),
                ),
                Err(e) => old(self).liquidate_spec(now) == Err::<(Position, i64), ErrorCode>(e)
                    && *final(self) == *old(self),
            },
    {
        if self.status.is_terminal() {
            return Err(ErrorCode::PositionAlreadyClosed);
        }
        let realized = match pnl(self.side, self.entry_price, self.liquidation_price, self.size) {
            Ok(realized) => realized,
            Err(e) => {
                return Err(e);
            },
        };
        self.status = PositionStatus::Liquidated;
        self.realized_pnl = realized;
        self.unrealized_pnl = 0;
        self.closed_at = now;
        Ok(realized)
    }

    /// Profit and loss of the position against a mark price.
    pub fn unrealized_against(&self, mark_price: u64) -> (result: Result<i64, ErrorCode>)
        ensures
            result == pnl_spec(self.side, self.entry_price, mark_price, self.size),
    {
        pnl(self.side, self.entry_price, mark_price, self.size)
    }

    /// Whether `caller` owns the position: `Unauthorized` if not.
    pub fn authorize(&self, caller: &String) -> (result: Result<(), ErrorCode>)
        ensures
            result == (if caller@ == self.owner@ {
                Ok::<(), ErrorCode>(())
            } else {
                Err::<(), ErrorCode>(ErrorCode::Unauthorized)
            }),
    {
        if *caller == self.owner {
            Ok(())
        } else {
            Err(ErrorCode::Unauthorized)
        }
    }
}

/// Adds a signed change to an unsigned amount with checked arithmetic:
/// `CalculationUnderflow` below zero, `CalculationOverflow` beyond 64 bits.
pub fn apply_delta(amount: u64, delta: i64) -> (result: Result<u64, ErrorCode>)
    ensures
        result == (if shifted(amount, delta) < 0 {
            Err::<u64, ErrorCode>(ErrorCode::CalculationUnderflow)
        } else if shifted(amount, delta) > u64::MAX {
            Err::<u64, ErrorCode>(ErrorCode::CalculationOverflow)
        } else {
            Ok::<u64, ErrorCode>(shifted(amount, delta) as u64)
        }),
{
    match amount.checked_add_signed(delta) {
        Some(sum) => Ok(sum),
        None => if delta < 0 {
            Err(ErrorCode::CalculationUnderflow)
        } else {
            Err(ErrorCode::CalculationOverflow)
        },
    }
}

} // verus!
