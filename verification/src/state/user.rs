//! A user as the engine reports one: the account together with the
//! identities of the owner's positions.
use vstd::prelude::*;

verus! {

/// What `get_user` and `list_users` report of one owner.
#[derive(Debug)]
pub struct User {
    /// The identity of the owner.
    pub address: String,
    /// All collateral of the owner.
    pub collateral: u64,
    /// The collateral locked against the owner's open positions.
    pub locked_collateral: u64,
    /// The identities of the owner's positions, open or not, in the order in
    /// which they were opened.
    pub positions: Vec<String>,
    /// The realized profit and loss of the owner, over all positions.
    pub total_pnl: i64,
    /// When the account was created.
    pub created_at: i64,
}

/// The texts of a sequence of strings.
pub open spec fn texts(strings: Seq<String>) -> Seq<Seq<char>> {
    Seq::new(strings.len(), |i: int| strings[i]@)
}

impl User {
    /// The identities of the owner's positions, as texts.
    pub open spec fn position_ids(self) -> Seq<Seq<char>> {
        texts(self.positions@)
    }
}

} // verus!
