//! The entities of the ledger.

pub mod account;
pub mod currency;
pub mod decimal;
pub mod tag;
pub mod transaction;

pub use account::{Account, AccountRow, AccountType};
pub use currency::{CurrencyRecord, CurrencyRow, DbCurrencyFormat};
pub use decimal::DbDecimal;
pub use tag::{Tag, TagKind};
pub use transaction::{Category, Method, Transaction, TransactionRow};
