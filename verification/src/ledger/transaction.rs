//! The creation and the lookup of transactions.

use vstd::prelude::*;
use crate::date::Date;
use crate::decimal::Decimal;
use crate::error::{Error, Invalid, Operation};
use crate::ledger::resolver::TagResolution;
use crate::ledger::storage::{Command, Constraint, NewTransaction, Reply, Step};
use crate::ledger::workflow::Workflow;
use crate::model::{Category, Method, Tag, TagKind, Transaction};

verus! {

/// What a transaction is created from: its fields, with the category and
/// the method given by name. An empty name stands for none.
#[derive(Debug)]
pub struct TransactionArgs {
    pub date: Date,
    pub posted_date: Option<Date>,
    pub category: String,
    pub amount: Decimal,
    pub debit_account: Option<i64>,
    pub credit_account: Option<i64>,
    pub authority: String,
    pub description: String,
    pub method: String,
    pub check_number: Option<u32>,
}

impl TransactionArgs {
    /// The arguments of a transfer of `amount` from one account to another:
    /// no posted date, category, authority, description or check number.
    pub fn new(
        date: Date,
        amount: Decimal,
        debit_account: i64,
        credit_account: i64,
        method: String,
    ) -> (args: TransactionArgs)
        ensures
            args.date == date,
            args.posted_date is None,
            args.category@.len() == 0,
            args.amount == amount,
            args.debit_account == Some(debit_account),
            args.credit_account == Some(credit_account),
            args.authority@.len() == 0,
            args.description@.len() == 0,
            args.method == method,
            args.check_number is None,
    {
        TransactionArgs {
            date,
            posted_date: None,
            category: String::new(),
            amount,
            debit_account: Some(debit_account),
            credit_account: Some(credit_account),
            authority: String::new(),
            description: String::new(),
            method,
            check_number: None,
        }
    }

    /// The entry that is stored for these arguments, once the category and
    /// the method are resolved.
    pub open spec fn entry(self, category: Option<Category>, method: Option<Method>)
        -> NewTransaction {
        NewTransaction {
            date: self.date,
            posted_date: self.posted_date,
            category,
            amount: self.amount,
            debit_account: self.debit_account,
            credit_account: self.credit_account,
            authority: self.authority,
            description: self.description,
            method,
            check_number: self.check_number,
        }
    }

    /// The rule that the storage found broken, as far as the arguments
    /// show it: a posted date before the date, or a check number without a
    /// debit account.
    pub open spec fn broken(self) -> Invalid {
        if self.posted_date matches Some(posted) && posted@.before(self.date@) {
            Invalid::PostedBeforeDate
        } else if self.check_number is Some && self.debit_account is None {
            Invalid::CheckNumberWithoutDebitAccount
        } else {
            Invalid::Refused
        }
    }

    fn to_entry(&self, category: Option<Category>, method: Option<Method>) -> (entry:
        NewTransaction)
        ensures
            entry == self.entry(category, method),
    {
        NewTransaction {
            date: self.date,
            posted_date: self.posted_date,
            category,
            amount: self.amount,
            debit_account: self.debit_account,
            credit_account: self.credit_account,
            authority: self.authority.clone(),
            description: self.description.clone(),
            method,
            check_number: self.check_number,
        }
    }

    fn find_broken(&self) -> (invalid: Invalid)
        ensures
            invalid == self.broken(),
    {
        let posted_early = match &self.posted_date {
            Some(posted) => posted.is_before(&self.date),
            None => false,
        };
        if posted_early {
            Invalid::PostedBeforeDate
        } else if self.check_number.is_some() && self.debit_account.is_none() {
            Invalid::CheckNumberWithoutDebitAccount
        } else {
            Invalid::Refused
        }
    }
}

/// How far the creation of a transaction has come.
#[derive(Debug)]
pub enum TransactionStage {
    /// The transaction of the storage is being opened.
    Begin,
    /// The category is being resolved.
    Category { resolution: TagResolution },
    /// The method is being resolved.
    Method { category: Option<Category>, resolution: TagResolution },
    /// The transaction is being stored.
    Insert,
    /// The transaction was stored under this key; the transaction of the
    /// storage is being committed.
    Commit { id: i64 },
    /// The stored transaction is being looked up.
    Fetch { id: i64 },
    /// The creation failed; the transaction of the storage is being rolled
    /// back.
    Abort { error: Error },
    /// The creation is over.
    Finished,
}

/// The creation of a transaction, in one transaction of the storage: its
/// category and its method are resolved where they are named, the
/// transaction is stored, and what was stored is looked up by its key.
#[derive(Debug)]
pub struct TransactionCreation {
    pub args: TransactionArgs,
    pub stage: TransactionStage,
}

impl TransactionCreation {
    /// The creation in another stage.
    pub open spec fn at(self, stage: TransactionStage) -> TransactionCreation {
        TransactionCreation { stage, ..self }
    }

    /// Whether the creation has a transaction open and waits for the reply
    /// to a command other than a rollback.
    pub open spec fn in_transaction(self) -> bool {
        self.stage is Category || self.stage is Method || self.stage is Insert
            || self.stage is Commit
    }

    /// The creation ended with this result.
    pub open spec fn finished(self, result: Result<Transaction, Error>) -> (
        TransactionCreation,
        Step<Transaction>,
    ) {
        (self.at(TransactionStage::Finished), Step::Done(result))
    }

    /// The creation failed inside its transaction, which is rolled back
    /// before the error is returned.
    pub open spec fn aborted(self, error: Error) -> (TransactionCreation, Step<Transaction>) {
        (self.at(TransactionStage::Abort { error }), Step::Run(Command::Rollback))
    }

    /// What follows the opening of the transaction: the resolution of the
    /// category where one is named.
    pub open spec fn after_begin(self) -> (TransactionCreation, Step<Transaction>) {
        if self.args.category@.len() == 0 {
            self.after_category(None)
        } else {
            self.during_category(TagResolution::begin(TagKind::Category, self.args.category))
        }
    }

    /// What follows a step of the resolution of the category.
    pub open spec fn during_category(self, sub: (TagResolution, Step<Tag>)) -> (
        TransactionCreation,
        Step<Transaction>,
    ) {
        match sub.1 {
            Step::Run(command) => (
                self.at(TransactionStage::Category { resolution: sub.0 }),
                Step::Run(command),
            ),
            Step::Done(Ok(tag)) => self.after_category(Some(Category { tag })),
            Step::Done(Err(error)) => self.aborted(error),
        }
    }

    /// What follows once the category is settled: the resolution of the
    /// method where one is named.
    pub open spec fn after_category(self, category: Option<Category>) -> (
        TransactionCreation,
        Step<Transaction>,
    ) {
        if self.args.method@.len() == 0 {
            self.after_method(category, None)
        } else {
            self.during_method(category, TagResolution::begin(TagKind::Method, self.args.method))
        }
    }

    /// What follows a step of the resolution of the method.
    pub open spec fn during_method(
        self,
        category: Option<Category>,
        sub: (TagResolution, Step<Tag>),
    ) -> (TransactionCreation, Step<Transaction>) {
        match sub.1 {
            Step::Run(command) => (
                self.at(TransactionStage::Method { category, resolution: sub.0 }),
                Step::Run(command),
            ),
            Step::Done(Ok(tag)) => self.after_method(category, Some(Method { tag })),
            Step::Done(Err(error)) => self.aborted(error),
        }
    }

    /// What follows once the method is settled: the transaction is stored.
    pub open spec fn after_method(self, category: Option<Category>, method: Option<Method>) -> (
        TransactionCreation,
        Step<Transaction>,
    ) {
        (
            self.at(TransactionStage::Insert),
            Step::Run(Command::InsertTransaction { entry: self.args.entry(category, method) }),
        )
    }

    /// The creation of a transaction and its first step.
    pub open spec fn begin(args: TransactionArgs) -> (TransactionCreation, Step<Transaction>) {
        (TransactionCreation { args, stage: TransactionStage::Begin }, Step::Run(Command::Begin))
    }

    fn finish(self, result: Result<Transaction, Error>) -> (r: (
        TransactionCreation,
        Step<Transaction>,
    ))
        ensures
            r == self.finished(result),
    {
        (
            TransactionCreation { args: self.args, stage: TransactionStage::Finished },
            Step::Done(result),
        )
    }

    fn abort(self, error: Error) -> (r: (TransactionCreation, Step<Transaction>))
        ensures
            r == self.aborted(error),
    {
        (
            TransactionCreation { args: self.args, stage: TransactionStage::Abort { error } },
            Step::Run(Command::Rollback),
        )
    }

    fn follow_begin(self) -> (r: (TransactionCreation, Step<Transaction>))
        ensures
            r == self.after_begin(),
    {
        if self.args.category.as_str().is_empty() {
            self.follow_category(None)
        } else {
            let sub = TagResolution::start(TagKind::Category, self.args.category.clone());
            self.in_category(sub)
        }
    }

    fn in_category(self, sub: (TagResolution, Step<Tag>)) -> (r: (
        TransactionCreation,
        Step<Transaction>,
    ))
        ensures
            r == self.during_category(sub),
    {
        match sub.1 {
            Step::Run(command) => (
                TransactionCreation {
                    args: self.args,
                    stage: TransactionStage::Category { resolution: sub.0 },
                },
                Step::Run(command),
            ),
            Step::Done(Ok(tag)) => self.follow_category(Some(Category { tag })),
            Step::Done(Err(error)) => self.abort(error),
        }
    }

    fn follow_category(self, category: Option<Category>) -> (r: (
        TransactionCreation,
        Step<Transaction>,
    ))
        ensures
            r == self.after_category(category),
    {
        if self.args.method.as_str().is_empty() {
            self.follow_method(category, None)
        } else {
            let sub = TagResolution::start(TagKind::Method, self.args.method.clone());
            self.in_method(category, sub)
        }
    }

    fn in_method(self, category: Option<Category>, sub: (TagResolution, Step<Tag>)) -> (r: (
        TransactionCreation,
        Step<Transaction>,
    ))
        ensures
            r == self.during_method(category, sub),
    {
        match sub.1 {
            Step::Run(command) => (
                TransactionCreation {
                    args: self.args,
                    stage: TransactionStage::Method { category, resolution: sub.0 },
                },
                Step::Run(command),
            ),
            Step::Done(Ok(tag)) => self.follow_method(category, Some(Method { tag })),
            Step::Done(Err(error)) => self.abort(error),
        }
    }

    fn follow_method(self, category: Option<Category>, method: Option<Method>) -> (r: (
        TransactionCreation,
        Step<Transaction>,
    ))
        ensures
            r == self.after_method(category, method),
    {
        let entry = self.args.to_entry(category, method);
        (
            TransactionCreation { args: self.args, stage: TransactionStage::Insert },
            Step::Run(Command::InsertTransaction { entry }),
        )
    }
}

impl Workflow for TransactionCreation {
    type Output = Transaction;

    open spec fn next(self, reply: Reply) -> (TransactionCreation, Step<Transaction>) {
        match self.stage {
            TransactionStage::Begin => match reply {
                Reply::Done => self.after_begin(),
                _ => self.finished(Err(Error::Storage(Operation::Begin))),
            },
            TransactionStage::Category { resolution } => self.during_category(
                resolution.next(reply),
            ),
            TransactionStage::Method { category, resolution } => self.during_method(
                category,
                resolution.next(reply),
            ),
            TransactionStage::Insert => match reply {
                Reply::Inserted(id) => (
                    self.at(TransactionStage::Commit { id }),
                    Step::Run(Command::Commit),
                ),
                Reply::Rejected(Constraint::Check) => self.aborted(
                    Error::Validation(self.args.broken()),
                ),
                Reply::Rejected(Constraint::Unique) => self.aborted(
                    Error::Validation(Invalid::DuplicateCheckNumber),
                ),
                Reply::Rejected(Constraint::Reference) => self.aborted(
                    Error::Validation(Invalid::Refused),
                ),
                _ => self.aborted(Error::Storage(Operation::InsertTransaction)),
            },
            TransactionStage::Commit { id } => match reply {
                Reply::Done => (
                    self.at(TransactionStage::Fetch { id }),
                    Step::Run(Command::FetchTransaction { id }),
                ),
                _ => self.aborted(Error::Storage(Operation::Commit)),
            },
            TransactionStage::Fetch { id } => match reply {
                Reply::Transaction(stored) => self.finished(Ok(stored)),
                Reply::Missing => self.finished(Err(Error::NotFound(Operation::FetchTransaction))),
                Reply::Malformed => self.finished(
                    Err(Error::Validation(Invalid::MalformedDecimal)),
                ),
                _ => self.finished(Err(Error::Storage(Operation::FetchTransaction))),
            },
            TransactionStage::Abort { error } => self.finished(Err(error)),
            TransactionStage::Finished => self.finished(
                Err(Error::Storage(Operation::Finished)),
            ),
        }
    }

    fn advance(self, reply: Reply) -> (r: (TransactionCreation, Step<Transaction>))
        ensures
            r == self.next(reply),
    {
        let TransactionCreation { args, stage } = self;
        let this = TransactionCreation { args, stage: TransactionStage::Finished };
        match stage {
            TransactionStage::Begin => match reply {
                Reply::Done => this.follow_begin(),
                _ => this.finish(Err(Error::Storage(Operation::Begin))),
            },
            TransactionStage::Category { resolution } => {
                let sub = resolution.advance(reply);
                this.in_category(sub)
            },
            TransactionStage::Method { category, resolution } => {
                let sub = resolution.advance(reply);
                this.in_method(category, sub)
            },
            TransactionStage::Insert => match reply {
                Reply::Inserted(id) => (
                    TransactionCreation { args: this.args, stage: TransactionStage::Commit { id } },
                    Step::Run(Command::Commit),
                ),
                Reply::Rejected(Constraint::Check) => {
                    let invalid = this.args.find_broken();
                    this.abort(Error::Validation(invalid))
                },
                Reply::Rejected(Constraint::Unique) => this.abort(
                    Error::Validation(Invalid::DuplicateCheckNumber),
                ),
                Reply::Rejected(Constraint::Reference) => this.abort(
                    Error::Validation(Invalid::Refused),
                ),
                _ => this.abort(Error::Storage(Operation::InsertTransaction)),
            },
            TransactionStage::Commit { id } => match reply {
                Reply::Done => (
                    TransactionCreation { args: this.args, stage: TransactionStage::Fetch { id } },
                    Step::Run(Command::FetchTransaction { id }),
                ),
                _ => this.abort(Error::Storage(Operation::Commit)),
            },
            TransactionStage::Fetch { id } => match reply {
                Reply::Transaction(stored) => this.finish(Ok(stored)),
                Reply::Missing => this.finish(Err(Error::NotFound(Operation::FetchTransaction))),
                Reply::Malformed => this.finish(Err(Error::Validation(Invalid::MalformedDecimal))),
                _ => this.finish(Err(Error::Storage(Operation::FetchTransaction))),
            },
            TransactionStage::Abort { error } => this.finish(Err(error)),
            TransactionStage::Finished => this.finish(Err(Error::Storage(Operation::Finished))),
        }
    }
}

/// Starts the creation of a transaction.
pub fn create_transaction(args: TransactionArgs) -> (r: (TransactionCreation, Step<Transaction>))
    ensures
        r == TransactionCreation::begin(args),
{
    (TransactionCreation { args, stage: TransactionStage::Begin }, Step::Run(Command::Begin))
}

/// The lookup of a transaction by its key.
#[derive(Debug)]
pub struct TransactionLookup {
    pub id: i64,
    pub finished: bool,
}

impl TransactionLookup {
    /// The lookup and its first step.
    pub open spec fn begin(id: i64) -> (TransactionLookup, Step<Transaction>) {
        (TransactionLookup { id, finished: false }, Step::Run(Command::FetchTransaction { id }))
    }
}

impl Workflow for TransactionLookup {
    type Output = Transaction;

    open spec fn next(self, reply: Reply) -> (TransactionLookup, Step<Transaction>) {
        (
            TransactionLookup { finished: true, ..self },
            Step::Done(
                if self.finished {
                    Err(Error::Storage(Operation::Finished))
                } else {
                    match reply {
                        Reply::Transaction(stored) => Ok(stored),
                        Reply::Missing => Err(Error::NotFound(Operation::FetchTransaction)),
                        Reply::Malformed => Err(Error::Validation(Invalid::MalformedDecimal)),
                        _ => Err(Error::Storage(Operation::FetchTransaction)),
                    }
                },
            ),
        )
    }

    fn advance(self, reply: Reply) -> (r: (TransactionLookup, Step<Transaction>))
        ensures
            r == self.next(reply),
    {
        let result = if self.finished {
            Err(Error::Storage(Operation::Finished))
        } else {
            match reply {
                Reply::Transaction(stored) => Ok(stored),
                Reply::Missing => Err(Error::NotFound(Operation::FetchTransaction)),
                Reply::Malformed => Err(Error::Validation(Invalid::MalformedDecimal)),
                _ => Err(Error::Storage(Operation::FetchTransaction)),
            }
        };
        (TransactionLookup { id: self.id, finished: true }, Step::Done(result))
    }
}

/// Starts the lookup of the transaction with the key `id`.
pub fn get_transaction_by_id(id: i64) -> (r: (TransactionLookup, Step<Transaction>))
    ensures
        r == TransactionLookup::begin(id),
{
    (TransactionLookup { id, finished: false }, Step::Run(Command::FetchTransaction { id }))
}

} // verus!
