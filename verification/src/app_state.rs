//! The state of the engine: the tier table, the accounts and the positions.
//!
//! The state keeps the invariant of its ledger by construction: it starts
//! well formed, and it changes only through operations that are proved to
//! leave it so.
use vstd::prelude::*;
use crate::ledger::{
    lemma_consistent_whatever_tiers, lemma_position_unique, lemma_user_unique, Ledger,
};
use crate::state::position::Position;
use crate::state::user_account::UserAccount;
use crate::tiers::{standard_tiers, LeverageTierTable};

verus! {

/// The accounts and the positions, always consistent with each other.
struct Books {
    users: Vec<UserAccount>,
    positions: Vec<Position>,
}

impl Books {
    /// The accounts and positions as a ledger without tiers.
    spec fn ledger(self) -> Ledger {
        Ledger { tiers: Seq::empty(), users: self.users@, positions: self.positions@ }
    }

    #[verifier::type_invariant]
    spec fn consistent(self) -> bool {
        self.ledger().consistent()
    }

    fn new() -> (books: Books)
        ensures
            books.users@.len() == 0,
            books.positions@.len() == 0,
    {
        Books { users: Vec::new(), positions: Vec::new() }
    }
}

/// Everything the engine keeps. Accounts and positions stand in the order in
/// which they were added, and none is ever removed.
pub struct AppState {
    tiers: LeverageTierTable,
    books: Books,
}

impl View for AppState {
    type V = Ledger;

    closed spec fn view(&self) -> Ledger {
        Ledger { tiers: self.tiers@, users: self.books.users@, positions: self.books.positions@ }
    }
}

impl AppState {
    /// The invariant of the state: that of its ledger. It holds of every
    /// state at every time.
    pub open spec fn wf(&self) -> bool {
        self@.wf()
    }

    /// Brings the invariant into a proof; does nothing when run.
    pub fn well_formed(&self)
        ensures
            self.wf(),
    {
        self.tiers.well_formed();
        proof {
            use_type_invariant(&self.books);
            lemma_consistent_whatever_tiers(self.books.ledger(), self@);
        }
    }

    /// An empty state over the standard tier table.
    pub fn new() -> (state: AppState)
        ensures
            state.wf(),
            state@.tiers == standard_tiers(),
            state@.users.len() == 0,
            state@.positions.len() == 0,
    {
        let state = AppState { tiers: LeverageTierTable::standard(), books: Books::new() };
        state.well_formed();
        state
    }

    /// An empty state over the given tier table.
    pub fn with_tiers(tiers: LeverageTierTable) -> (state: AppState)
        ensures
            state.wf(),
            state@.tiers == tiers@,
            state@.users.len() == 0,
            state@.positions.len() == 0,
    {
        let state = AppState { tiers, books: Books::new() };
        state.well_formed();
        state
    }

    /// The tier table.
    pub fn tiers(&self) -> (tiers: &LeverageTierTable)
        ensures
            tiers@ == self@.tiers,
    {
        &self.tiers
    }

    /// The number of accounts.
    pub fn user_count(&self) -> (count: usize)
        ensures
            count == self@.users.len(),
    {
        self.books.users.len()
    }

    /// The number of positions, whatever their status.
    pub fn position_count(&self) -> (count: usize)
        ensures
            count == self@.positions.len(),
    {
        self.books.positions.len()
    }

    /// The account at `index`, in the order of creation, if there are that
    /// many.
    pub fn user_at(&self, index: usize) -> (account: Option<&UserAccount>)
        ensures
            account is Some <==> index < self@.users.len(),
            account matches Some(found) ==> *found == self@.users[index as int],
    {
        if index < self.books.users.len() {
            Some(&self.books.users[index])
        } else {
            None
        }
    }

    /// The position at `index`, in the order of opening, if there are that
    /// many.
    pub fn position_at(&self, index: usize) -> (position: Option<&Position>)
        ensures
            position is Some <==> index < self@.positions.len(),
            position matches Some(found) ==> *found == self@.positions[index as int],
    {
        if index < self.books.positions.len() {
            Some(&self.books.positions[index])
        } else {
            None
        }
    }

    /// The account at `slot`.
    pub(crate) fn account(&self, slot: usize) -> (account: &UserAccount)
        requires
            slot < self@.users.len(),
        ensures
            *account == self@.users[slot as int],
    {
        &self.books.users[slot]
    }

    /// The position at `index`.
    pub(crate) fn position(&self, index: usize) -> (position: &Position)
        requires
            index < self@.positions.len(),
        ensures
            *position == self@.positions[index as int],
    {
        &self.books.positions[index]
    }

    /// Where the account of `owner` stands, if there is one.
    pub fn find_user(&self, owner: &String) -> (found: Option<usize>)
        ensures
            found is Some <==> self@.has_user(owner@),
            found matches Some(index) ==> index == self@.user_index(owner@) && self@.user_at(
                owner@,
                index as int,
            ),
    {
        self.well_formed();
        let mut i: usize = 0;
        while i < self.books.users.len()
            invariant
                self.wf(),
                0 <= i <= self.books.users.len(),
                forall|k: int| 0 <= k < i ==> (#[trigger] self.books.users@[k]).owner@ != owner@,
            decreases self.books.users.len() - i,
        {
            if self.books.users[i].owner == *owner {
                proof {
                    lemma_user_unique(self@, owner@, i as int);
                }
                return Some(i);
            }
            i += 1;
        }
        assert(!self@.has_user(owner@)) by {
            if self@.has_user(owner@) {
                let k = self@.user_index(owner@);
                assert(self@.user_at(owner@, k));
                assert(self.books.users@[k].owner@ != owner@);
            }
        }
        None
    }

    /// Where the position with `id` stands, if there is one.
    pub fn find_position(&self, id: &String) -> (found: Option<usize>)
        ensures
            found is Some <==> self@.has_position(id@),
            found matches Some(index) ==> index == self@.position_index(id@) && self@.position_at(
                id@,
                index as int,
            ),
    {
        self.well_formed();
        let mut i: usize = 0;
        while i < self.books.positions.len()
            invariant
                self.wf(),
                0 <= i <= self.books.positions.len(),
                forall|k: int| 0 <= k < i ==> (#[trigger] self.books.positions@[k]).id@ != id@,
            decreases self.books.positions.len() - i,
        {
            if self.books.positions[i].id == *id {
                proof {
                    lemma_position_unique(self@, id@, i as int);
                }
                return Some(i);
            }
            i += 1;
        }
        assert(!self@.has_position(id@)) by {
            if self@.has_position(id@) {
                let k = self@.position_index(id@);
                assert(self@.position_at(id@, k));
                assert(self.books.positions@[k].id@ != id@);
            }
        }
        None
    }

    /// Adds an account.
    pub(crate) fn insert_user(&mut self, account: UserAccount)
        requires
            (Ledger { users: old(self)@.users.push(account), ..old(self)@ }).wf(),
        ensures
            final(self)@ == (Ledger { users: old(self)@.users.push(account), ..old(self)@ }),
    {
        let mut taken = Books::new();
        core::mem::swap(&mut self.books, &mut taken);
        let Books { users, positions } = taken;
        let mut users = users;
        users.push(account);
        proof {
            lemma_consistent_whatever_tiers(
                Ledger { users: old(self)@.users.push(account), ..old(self)@ },
                Ledger { tiers: Seq::empty(), users: users@, positions: positions@ },
            );
        }
        self.books = Books { users, positions };
        assert(self@ =~= (Ledger { users: old(self)@.users.push(account), ..old(self)@ }));
    }

    /// Adds a position and replaces the account at `slot`.
    pub(crate) fn insert_position(&mut self, slot: usize, account: UserAccount, position: Position)
        requires
            slot < old(self)@.users.len(),
            (Ledger {
                users: old(self)@.users.update(slot as int, account),
                positions: old(self)@.positions.push(position),
                ..old(self)@
            }).wf(),
        ensures
            final(self)@ == (Ledger {
                users: old(self)@.users.update(slot as int, account),
                positions: old(self)@.positions.push(position),
                ..old(self)@
            }),
    {
        let mut taken = Books::new();
        core::mem::swap(&mut self.books, &mut taken);
        let Books { users, positions } = taken;
        let mut users = users;
        let mut positions = positions;
        users.set(slot, account);
        positions.push(position);
        proof {
            lemma_consistent_whatever_tiers(
                Ledger {
                    users: old(self)@.users.update(slot as int, account),
                    positions: old(self)@.positions.push(position),
                    ..old(self)@
                },
                Ledger { tiers: Seq::empty(), users: users@, positions: positions@ },
            );
        }
        self.books = Books { users, positions };
        assert(self@ =~= (Ledger {
            users: old(self)@.users.update(slot as int, account),
            positions: old(self)@.positions.push(position),
            ..old(self)@
        }));
    }

    /// Replaces the position at `index` and the account at `slot`.
    pub(crate) fn replace(
        &mut self,
        index: usize,
        position: Position,
        slot: usize,
        account: UserAccount,
    )
        requires
            index < old(self)@.positions.len(),
            slot < old(self)@.users.len(),
            (Ledger {
                users: old(self)@.users.update(slot as int, account),
                positions: old(self)@.positions.update(index as int, position),
                ..old(self)@
            }).wf(),
        ensures
            final(self)@ == (Ledger {
                users: old(self)@.users.update(slot as int, account),
                positions: old(self)@.positions.update(index as int, position),
                ..old(self)@
            }),
    {
        let mut taken = Books::new();
        core::mem::swap(&mut self.books, &mut taken);
        let Books { users, positions } = taken;
        let mut users = users;
        let mut positions = positions;
        users.set(slot, account);
        positions.set(index, position);
        proof {
            lemma_consistent_whatever_tiers(
                Ledger {
                    users: old(self)@.users.update(slot as int, account),
                    positions: old(self)@.positions.update(index as int, position),
                    ..old(self)@
                },
                Ledger { tiers: Seq::empty(), users: users@, positions: positions@ },
            );
        }
        self.books = Books { users, positions };
        assert(self@ =~= (Ledger {
            users: old(self)@.users.update(slot as int, account),
            positions: old(self)@.positions.update(index as int, position),
            ..old(self)@
        }));
    }
}

} // verus!
