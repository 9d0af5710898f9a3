//! User accounts and the collateral ledger kept on them.
use vstd::prelude::*;
use crate::errors::ErrorCode;

verus! {

/// The account of one owner: collateral, the part of it locked against open
/// positions, the number of open positions and the realized profit and loss.
#[derive(Debug)]
pub struct UserAccount {
    /// The identity of the owner.
    pub owner: String,
    /// All collateral of the owner.
    pub total_collateral: u64,
    /// The collateral locked against the owner's open positions.
    pub locked_collateral: u64,
    /// The number of the owner's open positions.
    pub position_count: u32,
    /// The realized profit and loss of the owner, over all positions.
    pub total_pnl: i64,
    /// When the account was created.
    pub created_at: i64,
    /// When a position of the owner was last opened or closed.
    pub last_activity: i64,
}

impl Clone for UserAccount {
    fn clone(&self) -> (copy: UserAccount)
        ensures
            copy == *self,
    {
        UserAccount {
            owner: self.owner.clone(),
            total_collateral: self.total_collateral,
            locked_collateral: self.locked_collateral,
            position_count: self.position_count,
            total_pnl: self.total_pnl,
            created_at: self.created_at,
            last_activity: self.last_activity,
        }
    }
}

impl UserAccount {
    /// The account of a new owner: no collateral, nothing locked, no position.
    pub open spec fn fresh(owner: String, now: i64) -> UserAccount {
        UserAccount {
            owner,
            total_collateral: 0,
            locked_collateral: 0,
            position_count: 0,
            total_pnl: 0,
            created_at: now,
            last_activity: now,
        }
    }

    /// Creates the account of a new owner.
    pub fn new(owner: String, now: i64) -> (account: UserAccount)
        ensures
            account == UserAccount::fresh(owner, now),
    {
        UserAccount {
            owner,
            total_collateral: 0,
            locked_collateral: 0,
            position_count: 0,
            total_pnl: 0,
            created_at: now,
            last_activity: now,
        }
    }

    /// What `lock` returns on each input.
    pub open spec fn lock_spec(self, amount: u64) -> Result<UserAccount, ErrorCode> {
        if self.locked_collateral + amount > u64::MAX {
            Err(ErrorCode::CalculationOverflow)
        } else {
            Ok(UserAccount { locked_collateral: (self.locked_collateral + amount) as u64, ..self })
        }
    }

    /// Locks `amount` more collateral.
    pub fn lock(&mut self, amount: u64) -> (result: Result<(), ErrorCode>)
        ensures
            match result {
                Ok(_) => old(self).lock_spec(amount) == Ok::<UserAccount, ErrorCode>(*final(self)),
                Err(e) => old(self).lock_spec(amount) == Err::<UserAccount, ErrorCode>(e)
                    && *final(self) == *old(self),
            },
    {
        match self.locked_collateral.checked_add(amount) {
            Some(locked) => {
                self.locked_collateral = locked;
                Ok(())
            },
            None => Err(ErrorCode::CalculationOverflow),
        }
    }

    /// What `release` returns on each input.
    pub open spec fn release_spec(self, amount: u64) -> Result<UserAccount, ErrorCode> {
        if amount > self.locked_collateral {
            Err(ErrorCode::CalculationUnderflow)
        } else {
            Ok(UserAccount { locked_collateral: (self.locked_collateral - amount) as u64, ..self })
        }
    }

    /// Releases `amount` of the locked collateral; the locked collateral
    /// never goes below zero.
    pub fn release(&mut self, amount: u64) -> (result: Result<(), ErrorCode>)
        ensures
            match result {
                Ok(_) => old(self).release_spec(amount) == Ok::<UserAccount, ErrorCode>(
                    *final(self),
                ),
                Err(e) => old(self).release_spec(amount) == Err::<UserAccount, ErrorCode>(e)
                    && *final(self) == *old(self),
            },
    {
        match self.locked_collateral.checked_sub(amount) {
            Some(locked) => {
                self.locked_collateral = locked;
                Ok(())
            },
            None => Err(ErrorCode::CalculationUnderflow),
        }
    }

    /// What `apply_pnl` returns on each input.
    pub open spec fn apply_pnl_spec(self, delta: i64) -> Result<UserAccount, ErrorCode> {
        if i64::MIN <= self.total_pnl + delta <= i64::MAX {
            Ok(UserAccount { total_pnl: (self.total_pnl + delta) as i64, ..self })
        } else {
            Err(ErrorCode::CalculationOverflow)
        }
    }

    /// Adds a realized profit or loss to the account's total.
    pub fn apply_pnl(&mut self, delta: i64) -> (result: Result<(), ErrorCode>)
        ensures
            match result {
                Ok(_) => old(self).apply_pnl_spec(delta) == Ok::<UserAccount, ErrorCode>(
                    *final(self),
                ),
                Err(e) => old(self).apply_pnl_spec(delta) == Err::<UserAccount, ErrorCode>(e)
                    && *final(self) == *old(self),
            },
    {
        match self.total_pnl.checked_add(delta) {
            Some(total) => {
                self.total_pnl = total;
                Ok(())
            },
            None => Err(ErrorCode::CalculationOverflow),
        }
    }

    /// The account after one more position was opened with `margin` locked.
    pub open spec fn opened_spec(self, margin: u64, now: i64) -> Result<UserAccount, ErrorCode> {
        match self.lock_spec(margin) {
            Err(e) => Err(e),
            Ok(locked) => if locked.position_count + 1 > u32::MAX {
                Err(ErrorCode::CalculationOverflow)
            } else {
                Ok(
                    UserAccount {
                        position_count: (locked.position_count + 1) as u32,
                        last_activity: now,
                        ..locked
                    },
                )
            },
        }
    }

    /// Books the opening of a position: locks its margin and counts it.
    pub fn record_open(&mut self, margin: u64, now: i64) -> (result: Result<(), ErrorCode>)
        ensures
            match result {
                Ok(_) => old(self).opened_spec(margin, now) == Ok::<UserAccount, ErrorCode>(
                    *final(self),
                ),
                Err(e) => old(self).opened_spec(margin, now) == Err::<UserAccount, ErrorCode>(e)
                    && *final(self) == *old(self),
            },
    {
        let locked = match self.locked_collateral.checked_add(margin) {
            Some(locked) => locked,
            None => {
                return Err(ErrorCode::CalculationOverflow);
            },
        };
        let count = match self.position_count.checked_add(1) {
            Some(count) => count,
            None => {
                return Err(ErrorCode::CalculationOverflow);
            },
        };
        self.locked_collateral = locked;
        self.position_count = count;
        self.last_activity = now;
        Ok(())
    }

    /// The account after the margin locked for one position changed from
    /// `before` to `after`.
    pub open spec fn adjusted_spec(self, before: u64, after: u64) -> Result<UserAccount, ErrorCode> {
        if after >= before {
            self.lock_spec((after - before) as u64)
        } else {
            self.release_spec((before - after) as u64)
        }
    }

    /// Books a change of the margin locked for one position: locks the
    /// increase or releases the decrease.
    pub fn record_adjust(&mut self, before: u64, after: u64) -> (result: Result<(), ErrorCode>)
        ensures
            match result {
                Ok(_) => old(self).adjusted_spec(before, after) == Ok::<UserAccount, ErrorCode>(
                    *final(self),
                ),
                Err(e) => old(self).adjusted_spec(before, after) == Err::<UserAccount, ErrorCode>(
                    e,
                ) && *final(self) == *old(self),
            },
    {
        if after >= before {
            self.lock(after - before)
        } else {
            self.release(before - after)
        }
    }

    /// The account after one position left the open state: its margin
    /// released, its realized profit and loss added, one position fewer.
    pub open spec fn settled_spec(self, margin: u64, realized_pnl: i64) -> Result<
        UserAccount,
        ErrorCode,
    > {
        match self.release_spec(margin) {
            Err(e) => Err(e),
            Ok(released) => match released.apply_pnl_spec(realized_pnl) {
                Err(e) => Err(e),
                Ok(applied) => if applied.position_count == 0 {
                    Err(ErrorCode::CalculationUnderflow)
                } else {
                    Ok(UserAccount { position_count: (applied.position_count - 1) as u32, ..applied })
                },
            },
        }
    }

    /// Books the end of a position: releases its margin, adds its realized
    /// profit and loss and counts one position fewer. Either all three are
    /// booked or, on an error, none.
    pub fn record_settle(&mut self, margin: u64, realized_pnl: i64) -> (result: Result<
        (),
        ErrorCode,
    >)
        ensures
            match result {
                Ok(_) => old(self).settled_spec(margin, realized_pnl) == Ok::<
                    UserAccount,
                    ErrorCode,
                >(*final(self)),
                Err(e) => old(self).settled_spec(margin, realized_pnl) == Err::<
                    UserAccount,
                    ErrorCode,
                >(e) && *final(self) == *old(self),
            },
    {
        let locked = match self.locked_collateral.checked_sub(margin) {
            Some(locked) => locked,
            None => {
                return Err(ErrorCode::CalculationUnderflow);
            },
        };
        let total = match self.total_pnl.checked_add(realized_pnl) {
            Some(total) => total,
            None => {
                return Err(ErrorCode::CalculationOverflow);
            },
        };
        let count = match self.position_count.checked_sub(1) {
            Some(count) => count,
            None => {
                return Err(ErrorCode::CalculationUnderflow);
            },
        };
        self.locked_collateral = locked;
        self.total_pnl = total;
        self.position_count = count;
        Ok(())
    }

    /// The account with its last activity set to `now`.
    pub open spec fn touched(self, now: i64) -> UserAccount {
        UserAccount { last_activity: now, ..self }
    }

    /// The collateral that is not locked; zero where more is locked than the
    /// account holds.
    pub fn free_collateral(&self) -> (free: u64)
        ensures
            free == (if self.total_collateral >= self.locked_collateral {
                self.total_collateral - self.locked_collateral
            } else {
                0
            }),
    {
        if self.total_collateral >= self.locked_collateral {
            self.total_collateral - self.locked_collateral
        } else {
            0
        }
    }
}

} // verus!
