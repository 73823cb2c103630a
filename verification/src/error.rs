//! What can go wrong in the ledger.

use vstd::prelude::*;
use crate::model::{Account, CurrencyRecord, TagKind};

verus! {

/// An operation of the storage session.
#[derive(Clone, Copy, Debug, PartialEq, Eq, Structural)]
pub enum Operation {
    Begin,
    Commit,
    Rollback,
    InsertTag(TagKind),
    FetchTag(TagKind),
    InsertCurrency,
    FetchCurrency,
    InsertAccount,
    FetchAccount,
    FetchAccounts,
    InsertTransaction,
    FetchTransaction,
    /// No operation: the workflow had ended.
    Finished,
}

/// A rule of the ledger that an input breaks.
#[derive(Clone, Copy, Debug, PartialEq, Eq, Structural)]
pub enum Invalid {
    /// A unique name is empty.
    EmptyName,
    /// A stored amount is no decimal number.
    MalformedDecimal,
    /// A posted date is earlier than the date of its transaction.
    PostedBeforeDate,
    /// A check number stands without a debit account.
    CheckNumberWithoutDebitAccount,
    /// The check number is already recorded for the debit account.
    DuplicateCheckNumber,
    /// The storage refused the row for a reason that the ledger does not
    /// know.
    Refused,
}

/// The errors of the ledger.
#[derive(Debug)]
pub enum Error {
    /// A currency of this name is stored with another content.
    CurrencyAlreadyExists(CurrencyRecord),
    /// An account of this name is stored with another content.
    AccountAlreadyExists(Account),
    /// An input breaks a rule of the ledger.
    Validation(Invalid),
    /// A lookup matched no row.
    NotFound(Operation),
    /// The storage failed at this operation.
    Storage(Operation),
}

impl Error {
    /// A sentence that says what went wrong.
    pub fn message(&self) -> (text: &'static str)
        ensures
            self is CurrencyAlreadyExists ==> text@ == "existing currency has the same name"@,
            self is AccountAlreadyExists ==> text@ == "existing account has the same name"@,
            self is Validation ==> text@ == "the input breaks a rule of the ledger"@,
            self is NotFound ==> text@ == "no row matches"@,
            self is Storage ==> text@ == "the storage failed"@,
    {
        match self {
            Error::CurrencyAlreadyExists(_) => "existing currency has the same name",
            Error::AccountAlreadyExists(_) => "existing account has the same name",
            Error::Validation(_) => "the input breaks a rule of the ledger",
            Error::NotFound(_) => "no row matches",
            Error::Storage(_) => "the storage failed",
        }
    }
}

} // verus!
