//! The creation and the lookup of accounts.

use vstd::prelude::*;
use crate::decimal::Decimal;
use crate::error::{Error, Invalid, Operation};
use crate::finance::CurrencyFormat;
use crate::ledger::resolver::{CurrencyResolution, TagResolution};
use crate::ledger::storage::{Command, Reply, Step};
use crate::ledger::workflow::Workflow;
use crate::model::{Account, AccountType, CurrencyRecord, Tag, TagKind};

verus! {

/// How far the creation of an account has come.
#[derive(Debug)]
pub enum AccountStage {
    /// The transaction is being opened.
    Begin,
    /// The account type is being resolved.
    Type { resolution: TagResolution },
    /// The currency is being resolved.
    Currency { account_type: AccountType, lookup: CurrencyResolution },
    /// The account is being stored.
    Insert { account_type: AccountType, currency: CurrencyRecord },
    /// The account was stored; the transaction is being committed.
    Commit { account: Account },
    /// The name exists; the transaction is being rolled back.
    Undo { account_type: AccountType, currency: CurrencyRecord },
    /// The account of this name is being looked up.
    Existing { account_type: AccountType, currency: CurrencyRecord },
    /// The creation failed; the transaction is being rolled back.
    Abort { error: Error },
    /// The creation is over.
    Finished,
}

/// The creation of an account, in one transaction: its type and its
/// currency are resolved, then the account is stored under its name. Where
/// the name exists, everything is rolled back and the account that exists
/// is held to what was asked for.
#[derive(Debug)]
pub struct AccountCreation {
    pub name: String,
    pub currency: CurrencyFormat,
    pub account_type: String,
    pub stage: AccountStage,
}

/// Whether an account that exists is the one that a creation asks for: it
/// has the currency and the type that were resolved, and both its balances
/// are zero.
pub open spec fn as_requested(
    existing: Account,
    account_type: AccountType,
    currency: CurrencyRecord,
) -> bool {
    &&& existing.currency.id == currency.id
    &&& existing.balance@.is_zero()
    &&& existing.posted_balance@.is_zero()
    &&& existing.account_type.tag.id == account_type.tag.id
}

impl AccountCreation {
    /// The creation in another stage.
    pub open spec fn at(self, stage: AccountStage) -> AccountCreation {
        AccountCreation { stage, ..self }
    }

    /// Whether the creation has a transaction open and waits for the reply
    /// to a command other than a rollback.
    pub open spec fn in_transaction(self) -> bool {
        self.stage is Type || self.stage is Currency || self.stage is Insert
            || self.stage is Commit
    }

    /// The creation ended with this result.
    pub open spec fn finished(self, result: Result<Account, Error>) -> (
        AccountCreation,
        Step<Account>,
    ) {
        (self.at(AccountStage::Finished), Step::Done(result))
    }

    /// The creation failed inside its transaction, which is rolled back
    /// before the error is returned.
    pub open spec fn aborted(self, error: Error) -> (AccountCreation, Step<Account>) {
        (self.at(AccountStage::Abort { error }), Step::Run(Command::Rollback))
    }

    /// What follows a step of the resolution of the account type.
    pub open spec fn after_type(self, sub: (TagResolution, Step<Tag>)) -> (
        AccountCreation,
        Step<Account>,
    ) {
        match sub.1 {
            Step::Run(command) => (
                self.at(AccountStage::Type { resolution: sub.0 }),
                Step::Run(command),
            ),
            Step::Done(Ok(tag)) => self.after_currency(
                AccountType { tag },
                CurrencyResolution::begin(self.currency),
            ),
            Step::Done(Err(error)) => self.aborted(error),
        }
    }

    /// What follows a step of the resolution of the currency. Once the
    /// currency is resolved, an account without a name is rejected, and any
    /// other is handed to the storage.
    pub open spec fn after_currency(
        self,
        account_type: AccountType,
        sub: (CurrencyResolution, Step<CurrencyRecord>),
    ) -> (AccountCreation, Step<Account>) {
        match sub.1 {
            Step::Run(command) => (
                self.at(AccountStage::Currency { account_type, lookup: sub.0 }),
                Step::Run(command),
            ),
            Step::Done(Ok(currency)) => if self.name@.len() == 0 {
                self.aborted(Error::Validation(Invalid::EmptyName))
            } else {
                (
                    self.at(AccountStage::Insert { account_type, currency }),
                    Step::Run(
                        Command::InsertAccount {
                            name: self.name,
                            currency: currency.id,
                            account_type: account_type.tag.id,
                        },
                    ),
                )
            },
            Step::Done(Err(error)) => self.aborted(error),
        }
    }

    /// The account that was stored under this key.
    pub open spec fn created(
        self,
        id: i64,
        account_type: AccountType,
        currency: CurrencyRecord,
    ) -> Account {
        Account {
            id,
            name: self.name,
            currency,
            balance: Decimal::whole(0),
            posted_balance: Decimal::whole(0),
            account_type,
        }
    }

    /// The creation of an account and its first step: the transaction is
    /// opened.
    pub open spec fn begin(name: String, currency: CurrencyFormat, account_type: String) -> (
        AccountCreation,
        Step<Account>,
    ) {
        (
            AccountCreation { name, currency, account_type, stage: AccountStage::Begin },
            Step::Run(Command::Begin),
        )
    }

    fn finish(self, result: Result<Account, Error>) -> (r: (AccountCreation, Step<Account>))
        ensures
            r == self.finished(result),
    {
        (
            AccountCreation {
                name: self.name,
                currency: self.currency,
                account_type: self.account_type,
                stage: AccountStage::Finished,
            },
            Step::Done(result),
        )
    }

    fn abort(self, error: Error) -> (r: (AccountCreation, Step<Account>))
        ensures
            r == self.aborted(error),
    {
        (
            AccountCreation {
                name: self.name,
                currency: self.currency,
                account_type: self.account_type,
                stage: AccountStage::Abort { error },
            },
            Step::Run(Command::Rollback),
        )
    }

    fn follow_type(self, sub: (TagResolution, Step<Tag>)) -> (r: (AccountCreation, Step<Account>))
        ensures
            r == self.after_type(sub),
    {
        match sub.1 {
            Step::Run(command) => (
                AccountCreation {
                    name: self.name,
                    currency: self.currency,
                    account_type: self.account_type,
                    stage: AccountStage::Type { resolution: sub.0 },
                },
                Step::Run(command),
            ),
            Step::Done(Ok(tag)) => {
                let resolution = CurrencyResolution::start(self.currency.clone());
                self.follow_currency(AccountType { tag }, resolution)
            },
            Step::Done(Err(error)) => self.abort(error),
        }
    }

    fn follow_currency(
        self,
        account_type: AccountType,
        sub: (CurrencyResolution, Step<CurrencyRecord>),
    ) -> (r: (AccountCreation, Step<Account>))
        ensures
            r == self.after_currency(account_type, sub),
    {
        match sub.1 {
            Step::Run(command) => (
                AccountCreation {
                    name: self.name,
                    currency: self.currency,
                    account_type: self.account_type,
                    stage: AccountStage::Currency { account_type, lookup: sub.0 },
                },
                Step::Run(command),
            ),
            Step::Done(Ok(currency)) => {
                if self.name.as_str().is_empty() {
                    return self.abort(Error::Validation(Invalid::EmptyName));
                }
                let command = Command::InsertAccount {
                    name: self.name.clone(),
                    currency: currency.id,
                    account_type: account_type.tag.id,
                };
                (
                    AccountCreation {
                        name: self.name,
                        currency: self.currency,
                        account_type: self.account_type,
                        stage: AccountStage::Insert { account_type, currency },
                    },
                    Step::Run(command),
                )
            },
            Step::Done(Err(error)) => self.abort(error),
        }
    }
}

impl Workflow for AccountCreation {
    type Output = Account;

    open spec fn next(self, reply: Reply) -> (AccountCreation, Step<Account>) {
        match self.stage {
            AccountStage::Begin => match reply {
                Reply::Done => self.after_type(
                    TagResolution::begin(TagKind::AccountType, self.account_type),
                ),
                _ => self.finished(Err(Error::Storage(Operation::Begin))),
            },
            AccountStage::Type { resolution } => self.after_type(resolution.next(reply)),
            AccountStage::Currency { account_type, lookup } => self.after_currency(
                account_type,
                lookup.next(reply),
            ),
            AccountStage::Insert { account_type, currency } => match reply {
                Reply::Inserted(id) => (
                    self.at(
                        AccountStage::Commit { account: self.created(id, account_type, currency) },
                    ),
                    Step::Run(Command::Commit),
                ),
                Reply::Ignored => (
                    self.at(AccountStage::Undo { account_type, currency }),
                    Step::Run(Command::Rollback),
                ),
                _ => self.aborted(Error::Storage(Operation::InsertAccount)),
            },
            AccountStage::Commit { account } => match reply {
                Reply::Done => self.finished(Ok(account)),
                _ => self.aborted(Error::Storage(Operation::Commit)),
            },
            AccountStage::Undo { account_type, currency } => match reply {
                Reply::Done => (
                    self.at(AccountStage::Existing { account_type, currency }),
                    Step::Run(Command::FetchAccount { name: self.name }),
                ),
                _ => self.finished(Err(Error::Storage(Operation::Rollback))),
            },
            AccountStage::Existing { account_type, currency } => match reply {
                Reply::Account(existing) => if as_requested(existing, account_type, currency) {
                    self.finished(Ok(existing))
                } else {
                    self.finished(Err(Error::AccountAlreadyExists(existing)))
                },
                Reply::Missing => self.finished(Err(Error::NotFound(Operation::FetchAccount))),
                Reply::Malformed => self.finished(
                    Err(Error::Validation(Invalid::MalformedDecimal)),
                ),
                _ => self.finished(Err(Error::Storage(Operation::FetchAccount))),
            },
            AccountStage::Abort { error } => self.finished(Err(error)),
            AccountStage::Finished => self.finished(Err(Error::Storage(Operation::Finished))),
        }
    }

    fn advance(self, reply: Reply) -> (r: (AccountCreation, Step<Account>))
        ensures
            r == self.next(reply),
    {
        let AccountCreation { name, currency, account_type, stage } = self;
        let this = AccountCreation { name, currency, account_type, stage: AccountStage::Finished };
        match stage {
            AccountStage::Begin => match reply {
                Reply::Done => {
                    let resolution = TagResolution::start(
                        TagKind::AccountType,
                        this.account_type.clone(),
                    );
                    this.follow_type(resolution)
                },
                _ => this.finish(Err(Error::Storage(Operation::Begin))),
            },
            AccountStage::Type { resolution } => {
                let sub = resolution.advance(reply);
                this.follow_type(sub)
            },
            AccountStage::Currency { account_type, lookup } => {
                let sub = lookup.advance(reply);
                this.follow_currency(account_type, sub)
            },
            AccountStage::Insert { account_type, currency } => match reply {
                Reply::Inserted(id) => {
                    let account = Account {
                        id,
                        name: this.name.clone(),
                        currency,
                        balance: Decimal::zero(),
                        posted_balance: Decimal::zero(),
                        account_type,
                    };
                    (
                        AccountCreation {
                            name: this.name,
                            currency: this.currency,
                            account_type: this.account_type,
                            stage: AccountStage::Commit { account },
                        },
                        Step::Run(Command::Commit),
                    )
                },
                Reply::Ignored => (
                    AccountCreation {
                        name: this.name,
                        currency: this.currency,
                        account_type: this.account_type,
                        stage: AccountStage::Undo { account_type, currency },
                    },
                    Step::Run(Command::Rollback),
                ),
                _ => this.abort(Error::Storage(Operation::InsertAccount)),
            },
            AccountStage::Commit { account } => match reply {
                Reply::Done => this.finish(Ok(account)),
                _ => this.abort(Error::Storage(Operation::Commit)),
            },
            AccountStage::Undo { account_type, currency } => match reply {
                Reply::Done => {
                    let command = Command::FetchAccount { name: this.name.clone() };
                    (
                        AccountCreation {
                            name: this.name,
                            currency: this.currency,
                            account_type: this.account_type,
                            stage: AccountStage::Existing { account_type, currency },
                        },
                        Step::Run(command),
                    )
                },
                _ => this.finish(Err(Error::Storage(Operation::Rollback))),
            },
            AccountStage::Existing { account_type, currency } => match reply {
                Reply::Account(existing) => {
                    if existing.currency.id == currency.id && existing.balance.is_zero()
                        && existing.posted_balance.is_zero() && existing.account_type.tag.id
                        == account_type.tag.id {
                        this.finish(Ok(existing))
                    } else {
                        this.finish(Err(Error::AccountAlreadyExists(existing)))
                    }
                },
                Reply::Missing => this.finish(Err(Error::NotFound(Operation::FetchAccount))),
                Reply::Malformed => this.finish(Err(Error::Validation(Invalid::MalformedDecimal))),
                _ => this.finish(Err(Error::Storage(Operation::FetchAccount))),
            },
            AccountStage::Abort { error } => this.finish(Err(error)),
            AccountStage::Finished => this.finish(Err(Error::Storage(Operation::Finished))),
        }
    }
}

/// Starts the creation of an account named `name`, in the currency
/// `currency` and of the type named `account_type`.
pub fn create_account(name: String, currency: CurrencyFormat, account_type: String) -> (r: (
    AccountCreation,
    Step<Account>,
))
    ensures
        r == AccountCreation::begin(name, currency, account_type),
{
    (
        AccountCreation { name, currency, account_type, stage: AccountStage::Begin },
        Step::Run(Command::Begin),
    )
}

/// The lookup of an account by its name.
#[derive(Debug)]
pub struct AccountLookup {
    pub name: String,
    pub finished: bool,
}

impl AccountLookup {
    /// The lookup and its first step.
    pub open spec fn begin(name: String) -> (AccountLookup, Step<Account>) {
        (AccountLookup { name, finished: false }, Step::Run(Command::FetchAccount { name }))
    }
}

impl Workflow for AccountLookup {
    type Output = Account;

    open spec fn next(self, reply: Reply) -> (AccountLookup, Step<Account>) {
        (
            AccountLookup { finished: true, ..self },
            Step::Done(
                if self.finished {
                    Err(Error::Storage(Operation::Finished))
                } else {
                    match reply {
                        Reply::Account(account) => Ok(account),
                        Reply::Missing => Err(Error::NotFound(Operation::FetchAccount)),
                        Reply::Malformed => Err(Error::Validation(Invalid::MalformedDecimal)),
                        _ => Err(Error::Storage(Operation::FetchAccount)),
                    }
                },
            ),
        )
    }

    fn advance(self, reply: Reply) -> (r: (AccountLookup, Step<Account>))
        ensures
            r == self.next(reply),
    {
        let result = if self.finished {
            Err(Error::Storage(Operation::Finished))
        } else {
            match reply {
                Reply::Account(account) => Ok(account),
                Reply::Missing => Err(Error::NotFound(Operation::FetchAccount)),
                Reply::Malformed => Err(Error::Validation(Invalid::MalformedDecimal)),
                _ => Err(Error::Storage(Operation::FetchAccount)),
            }
        };
        (AccountLookup { name: self.name, finished: true }, Step::Done(result))
    }
}

/// Starts the lookup of the account named `name`.
pub fn get_account_by_name(name: String) -> (r: (AccountLookup, Step<Account>))
    ensures
        r == AccountLookup::begin(name),
{
    let command = Command::FetchAccount { name: name.clone() };
    (AccountLookup { name, finished: false }, Step::Run(command))
}

/// The listing of all accounts.
#[derive(Debug)]
pub struct AccountListing {
    pub finished: bool,
}

impl AccountListing {
    /// The listing and its first step.
    pub open spec fn begin() -> (AccountListing, Step<Vec<Account>>) {
        (AccountListing { finished: false }, Step::Run(Command::FetchAccounts))
    }
}

impl Workflow for AccountListing {
    type Output = Vec<Account>;

    open spec fn next(self, reply: Reply) -> (AccountListing, Step<Vec<Account>>) {
        (
            AccountListing { finished: true },
            Step::Done(
                if self.finished {
                    Err(Error::Storage(Operation::Finished))
                } else {
                    match reply {
                        Reply::Accounts(accounts) => Ok(accounts),
                        Reply::Malformed => Err(Error::Validation(Invalid::MalformedDecimal)),
                        _ => Err(Error::Storage(Operation::FetchAccounts)),
                    }
                },
            ),
        )
    }

    fn advance(self, reply: Reply) -> (r: (AccountListing, Step<Vec<Account>>))
        ensures
            r == self.next(reply),
    {
        let result = if self.finished {
            Err(Error::Storage(Operation::Finished))
        } else {
            match reply {
                Reply::Accounts(accounts) => Ok(accounts),
                Reply::Malformed => Err(Error::Validation(Invalid::MalformedDecimal)),
                _ => Err(Error::Storage(Operation::FetchAccounts)),
            }
        };
        (AccountListing { finished: true }, Step::Done(result))
    }
}

/// Starts the listing of all accounts.
pub fn get_all_accounts() -> (r: (AccountListing, Step<Vec<Account>>))
    ensures
        r == AccountListing::begin(),
{
    (AccountListing { finished: false }, Step::Run(Command::FetchAccounts))
}

} // verus!
