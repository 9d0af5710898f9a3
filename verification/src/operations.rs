//! The operations on the whole state. Each one finds the records it needs,
//! hands them to the instruction's handler, and stores what the handler made
//! of them; the invariant of the ledger holds before and after.
use vstd::prelude::*;
use crate::app_state::AppState;
use crate::errors::ErrorCode;
use crate::instructions::close_position::ClosePosition;
use crate::instructions::initialize_user::InitializeUser;
use crate::instructions::liquidate_position::LiquidatePosition;
use crate::instructions::modify_position::ModifyPosition;
use crate::instructions::open_position::OpenPosition;
use crate::ledger::{
    lemma_close_keeps_wf, lemma_initialize_user_keeps_wf, lemma_liquidate_keeps_wf,
    lemma_modify_keeps_wf, lemma_open_keeps_wf, lemma_user_unique, Ledger,
};
use crate::state::position::{Position, PositionSide};
use crate::state::user_account::UserAccount;
use crate::tiers::{resolve_spec, LeverageTier};

verus! {

/// What `open_position` may leave behind: on success the ledger that
/// `Ledger::open_position` describes, the new position and its tier; on an
/// error the ledger as it was.
pub open spec fn opened(
    before: Ledger,
    after: Ledger,
    id: String,
    owner: String,
    symbol: String,
    side: PositionSide,
    size: u64,
    leverage: u16,
    entry_price: u64,
    now: i64,
    result: Result<(Position, LeverageTier), ErrorCode>,
) -> bool {
    let expected = before.open_position(id, owner, symbol, side, size, leverage, entry_price, now);
    match result {
        Ok((position, tier)) => {
            &&& expected == Ok::<Ledger, ErrorCode>(after)
            &&& position == after.positions.last()
            &&& resolve_spec(before.tiers, leverage, size) == Ok::<LeverageTier, ErrorCode>(tier)
        },
        Err(e) => expected == Err::<Ledger, ErrorCode>(e) && after == before,
    }
}

/// What an operation on one position may leave behind, where `expected` is
/// what the ledger says of the operation: on success that ledger and the
/// position as it then stands; on an error the ledger as it was.
pub open spec fn transitioned(
    before: Ledger,
    after: Ledger,
    id: Seq<char>,
    expected: Result<Ledger, ErrorCode>,
    result: Result<Position, ErrorCode>,
) -> bool {
    match result {
        Ok(position) => {
            &&& expected == Ok::<Ledger, ErrorCode>(after)
            &&& position == after.positions[before.position_index(id)]
        },
        Err(e) => expected == Err::<Ledger, ErrorCode>(e) && after == before,
    }
}

impl AppState {
    /// Creates the account of `owner`, unless the owner has one already, and
    /// returns the account as it then stands. An existing account is never
    /// reset.
    pub fn initialize_user(&mut self, owner: String, now: i64) -> (account: UserAccount)
        ensures
            final(self).wf(),
            final(self)@ == old(self)@.initialize_user(owner, now),
            final(self)@.has_user(owner@),
            account == final(self)@.users[final(self)@.user_index(owner@)],
            !old(self)@.has_user(owner@) ==> account == UserAccount::fresh(owner, now),
    {
        self.well_formed();
        proof {
            lemma_initialize_user_keeps_wf(self@, owner, now);
        }
        match self.find_user(&owner) {
            Some(slot) => self.account(slot).clone(),
            None => {
                let account = crate::instructions::initialize_user::handler(
                    &InitializeUser { owner },
                    now,
                );
                let copy = account.clone();
                self.insert_user(account);
                proof {
                    lemma_user_unique(self@, owner@, self@.users.len() - 1);
                }
                copy
            },
        }
    }

    /// Opens a position of `owner` under the identity `id`. Returns the new
    /// position and the tier it was opened under; on an error nothing
    /// changes.
    pub fn open_position(
        &mut self,
        id: String,
        owner: String,
        symbol: String,
        side: PositionSide,
        size: u64,
        leverage: u16,
        entry_price: u64,
        now: i64,
    ) -> (result: Result<(Position, LeverageTier), ErrorCode>)
        ensures
            final(self).wf(),
            opened(
                old(self)@,
                final(self)@,
                id,
                owner,
                symbol,
                side,
                size,
                leverage,
                entry_price,
                now,
                result,
            ),
    {
        self.well_formed();
        let slot = match self.find_user(&owner) {
            Some(slot) => slot,
            None => {
                return Err(ErrorCode::UserNotFound);
            },
        };
        if self.find_position(&id).is_some() {
            return Err(ErrorCode::PositionIdTaken);
        }
        let mut ctx = OpenPosition { owner, user_account: self.account(slot).clone() };
        let (position, tier) = match crate::instructions::open_position::handler(
            &mut ctx,
            self.tiers(),
            id,
            symbol,
            side,
            size,
            leverage,
            entry_price,
            now,
        ) {
            Ok(opened) => opened,
            Err(e) => {
                return Err(e);
            },
        };
        proof {
            lemma_open_keeps_wf(self@, id, owner, symbol, side, size, leverage, entry_price, now);
        }
        let copy = position.clone();
        self.insert_position(slot, ctx.user_account, position);
        Ok((copy, tier))
    }

    /// Changes the size and the margin of the position with the given id, in
    /// the name of its owner. Returns the position as it then stands; on an
    /// error nothing changes.
    pub fn modify_position(&mut self, position_id: &String, size_delta: i64, margin_delta: i64) -> (result:
        Result<Position, ErrorCode>)
        ensures
            final(self).wf(),
            transitioned(
                old(self)@,
                final(self)@,
                position_id@,
                old(self)@.modify_position(position_id@, size_delta, margin_delta),
                result,
            ),
    {
        self.well_formed();
        let index = match self.find_position(position_id) {
            Some(index) => index,
            None => {
                return Err(ErrorCode::PositionNotFound);
            },
        };
        let position = self.position(index).clone();
        let slot = match self.find_user(&position.owner) {
            Some(slot) => slot,
            None => {
                return Err(ErrorCode::UserNotFound);
            },
        };
        let mut ctx = ModifyPosition {
            owner: position.owner.clone(),
            user_account: self.account(slot).clone(),
            position,
        };
        match crate::instructions::modify_position::handler(&mut ctx, size_delta, margin_delta) {
            Ok(_) => {},
            Err(e) => {
                return Err(e);
            },
        }
        proof {
            lemma_modify_keeps_wf(self@, position_id@, size_delta, margin_delta);
        }
        let copy = ctx.position.clone();
        self.replace(index, ctx.position, slot, ctx.user_account);
        Ok(copy)
    }

    /// Closes the position with the given id at `exit_price`, in the name of
    /// its owner. Returns the position as it then stands; on an error
    /// nothing changes.
    pub fn close_position(&mut self, position_id: &String, exit_price: u64, now: i64) -> (result:
        Result<Position, ErrorCode>)
        ensures
            final(self).wf(),
            transitioned(
                old(self)@,
                final(self)@,
                position_id@,
                old(self)@.close_position(position_id@, exit_price, now),
                result,
            ),
    {
        self.well_formed();
        let index = match self.find_position(position_id) {
            Some(index) => index,
            None => {
                return Err(ErrorCode::PositionNotFound);
            },
        };
        let position = self.position(index).clone();
        let slot = match self.find_user(&position.owner) {
            Some(slot) => slot,
            None => {
                return Err(ErrorCode::UserNotFound);
            },
        };
        let mut ctx = ClosePosition {
            owner: position.owner.clone(),
            user_account: self.account(slot).clone(),
            position,
        };
        match crate::instructions::close_position::handler(&mut ctx, exit_price, now) {
            Ok(_) => {},
            Err(e) => {
                return Err(e);
            },
        }
        proof {
            lemma_close_keeps_wf(self@, position_id@, exit_price, now);
        }
        let copy = ctx.position.clone();
        self.replace(index, ctx.position, slot, ctx.user_account);
        Ok(copy)
    }

    /// Liquidates the position with the given id. Returns the position as it
    /// then stands; on an error nothing changes.
    pub fn liquidate_position(&mut self, position_id: &String, now: i64) -> (result: Result<
        Position,
        ErrorCode,
    >)
        ensures
            final(self).wf(),
            transitioned(
                old(self)@,
                final(self)@,
                position_id@,
                old(self)@.liquidate_position(position_id@, now),
                result,
            ),
    {
        self.well_formed();
        let index = match self.find_position(position_id) {
            Some(index) => index,
            None => {
                return Err(ErrorCode::PositionNotFound);
            },
        };
        let position = self.position(index).clone();
        let slot = match self.find_user(&position.owner) {
            Some(slot) => slot,
            None => {
                return Err(ErrorCode::UserNotFound);
            },
        };
        let mut ctx = LiquidatePosition { position, user_account: self.account(slot).clone() };
        match crate::instructions::liquidate_position::handler(&mut ctx, now) {
            Ok(_) => {},
            Err(e) => {
                return Err(e);
            },
        }
        proof {
            lemma_liquidate_keeps_wf(self@, position_id@, now);
        }
        let copy = ctx.position.clone();
        self.replace(index, ctx.position, slot, ctx.user_account);
        Ok(copy)
    }
}

} // verus!
