//! The instructions of the engine, one module each: the accounts an
//! instruction works on, and the handler that makes the transition on them.
//!
//! A handler sees one position and the account of its owner, nothing else.
//! Whoever holds the records, in memory or in program accounts, hands them
//! over, and stores what the handler made of them. On an error a handler
//! leaves every record as it found it.
pub mod close_position;
pub mod initialize_user;
pub mod liquidate_position;
pub mod modify_position;
pub mod open_position;
