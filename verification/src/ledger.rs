//! The workflows of the ledger and the storage session that they drive.
//!
//! A workflow never touches the storage itself. It hands out one command at
//! a time; the caller runs the command on its storage session and hands the
//! reply back, until the workflow is done.

pub mod account;
pub mod currency;
pub mod laws;
pub mod resolver;
pub mod storage;
pub mod transaction;
pub mod workflow;
