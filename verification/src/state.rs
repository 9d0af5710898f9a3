//! The records the engine keeps and reports: positions, user accounts and
//! users.
pub mod position;
pub mod user;
pub mod user_account;
