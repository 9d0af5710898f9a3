//! Creating the account of an owner.
use vstd::prelude::*;
use crate::state::user_account::UserAccount;

verus! {

/// What the creation of an account works on: the identity of the owner.
#[derive(Debug)]
pub struct InitializeUser {
    /// The identity of the owner, already verified.
    pub owner: String,
}

/// Creates the account of the owner: no collateral, nothing locked, no
/// position, created and last active at `now`.
pub fn handler(ctx: &InitializeUser, now: i64) -> (account: UserAccount)
    ensures
        account == UserAccount::fresh(ctx.owner, now),
{
    UserAccount::new(ctx.owner.clone(), now)
}

} // verus!
