//! The core of a personal double-entry ledger: currency formatting, the
//! reference entities of the ledger, and the workflows that create accounts
//! and transactions against a storage session.

pub mod column_enum;
pub mod date;
pub mod decimal;
pub mod error;
pub mod finance;
pub mod ledger;
pub mod model;
pub mod table_identifiers;
pub mod text;

pub use column_enum::ColumnEnum;
pub use error::Error;
