//! The commands that a workflow gives to the storage session, the replies
//! that it takes, and what a storage session is held to.

use vstd::prelude::*;
use crate::date::Date;
use crate::decimal::Decimal;
use crate::error::{Error, Operation};
use crate::finance::CurrencyFormat;
use crate::model::{
    Account, AccountType, Category, CurrencyRecord, Method, Tag, TagKind, Transaction,
};

verus! {

/// The fields of a transaction that is to be stored.
#[derive(Debug)]
pub struct NewTransaction {
    pub date: Date,
    pub posted_date: Option<Date>,
    pub category: Option<Category>,
    pub amount: Decimal,
    pub debit_account: Option<i64>,
    pub credit_account: Option<i64>,
    pub authority: String,
    pub description: String,
    pub method: Option<Method>,
    pub check_number: Option<u32>,
}

/// What a workflow asks of the storage session.
#[derive(Debug)]
pub enum Command {
    /// Open a transaction.
    Begin,
    /// Make the open transaction permanent.
    Commit,
    /// Discard the open transaction.
    Rollback,
    /// Store a tag of this name unless one exists.
    InsertTag { kind: TagKind, name: String },
    /// Look a tag up by its name.
    FetchTag { kind: TagKind, name: String },
    /// Store a currency unless one of its name exists.
    InsertCurrency { format: CurrencyFormat },
    /// Look a currency up by its name.
    FetchCurrency { name: String },
    /// Store an account with both balances zero unless one of its name
    /// exists.
    InsertAccount { name: String, currency: i64, account_type: i64 },
    /// Look an account up by its name.
    FetchAccount { name: String },
    /// List all accounts.
    FetchAccounts,
    /// Store a transaction.
    InsertTransaction { entry: NewTransaction },
    /// Look a transaction up by its key.
    FetchTransaction { id: i64 },
}

/// The kind of rule by which the storage refused a row.
#[derive(Clone, Copy, Debug, PartialEq, Eq, Structural)]
pub enum Constraint {
    /// A condition on the fields of the row.
    Check,
    /// A value that may occur once occurs already.
    Unique,
    /// A key that the row refers to is not stored.
    Reference,
}

/// What the storage session answers.
#[derive(Debug)]
pub enum Reply {
    /// The transaction was opened, committed or rolled back.
    Done,
    /// The row was written, under this key.
    Inserted(i64),
    /// No row was written: the name exists already.
    Ignored,
    /// The tag that was looked up.
    Tag(Tag),
    /// The currency that was looked up.
    Currency(CurrencyRecord),
    /// The account that was looked up.
    Account(Account),
    /// All accounts.
    Accounts(Vec<Account>),
    /// The transaction that was looked up.
    Transaction(Transaction),
    /// No row matches.
    Missing,
    /// The row breaks a rule of the schema.
    Rejected(Constraint),
    /// A row was found, but an amount in it is no decimal number.
    Malformed,
    /// The storage failed.
    Failed,
}

/// What the caller of a workflow does next.
#[derive(Debug)]
pub enum Step<T> {
    /// Run this command and hand the reply to the workflow.
    Run(Command),
    /// The workflow is over, with this result.
    Done(Result<T, Error>),
}

impl Command {
    /// The operation that this command asks for.
    pub open spec fn operation_of(&self) -> Operation {
        match self {
            Command::Begin => Operation::Begin,
            Command::Commit => Operation::Commit,
            Command::Rollback => Operation::Rollback,
            Command::InsertTag { kind, .. } => Operation::InsertTag(*kind),
            Command::FetchTag { kind, .. } => Operation::FetchTag(*kind),
            Command::InsertCurrency { .. } => Operation::InsertCurrency,
            Command::FetchCurrency { .. } => Operation::FetchCurrency,
            Command::InsertAccount { .. } => Operation::InsertAccount,
            Command::FetchAccount { .. } => Operation::FetchAccount,
            Command::FetchAccounts => Operation::FetchAccounts,
            Command::InsertTransaction { .. } => Operation::InsertTransaction,
            Command::FetchTransaction { .. } => Operation::FetchTransaction,
        }
    }

    /// The operation that this command asks for.
    pub fn operation(&self) -> (operation: Operation)
        ensures
            operation == self.operation_of(),
    {
        match self {
            Command::Begin => Operation::Begin,
            Command::Commit => Operation::Commit,
            Command::Rollback => Operation::Rollback,
            Command::InsertTag { kind, .. } => Operation::InsertTag(*kind),
            Command::FetchTag { kind, .. } => Operation::FetchTag(*kind),
            Command::InsertCurrency { .. } => Operation::InsertCurrency,
            Command::FetchCurrency { .. } => Operation::FetchCurrency,
            Command::InsertAccount { .. } => Operation::InsertAccount,
            Command::FetchAccount { .. } => Operation::FetchAccount,
            Command::FetchAccounts => Operation::FetchAccounts,
            Command::InsertTransaction { .. } => Operation::InsertTransaction,
            Command::FetchTransaction { .. } => Operation::FetchTransaction,
        }
    }
}

/// A stored table: its rows by key, the key of each name, and the key that
/// the next row gets.
#[verifier::ext_equal]
pub struct Table<R> {
    pub rows: Map<i64, R>,
    pub keys: Map<Seq<char>, i64>,
    pub next: int,
}

impl<R> Table<R> {
    /// The table without rows.
    pub open spec fn empty() -> Table<R> {
        Table { rows: Map::empty(), keys: Map::empty(), next: 1 }
    }

    /// Whether a row of this name is stored.
    pub open spec fn has(self, name: Seq<char>) -> bool {
        self.keys.dom().contains(name)
    }

    /// The row of this name.
    pub open spec fn named(self, name: Seq<char>) -> R {
        self.rows[self.keys[name]]
    }

    /// Whether the table can take one more row.
    pub open spec fn has_room(self) -> bool {
        self.next <= i64::MAX
    }

    /// The table with one more row, under the next key.
    pub open spec fn with(self, name: Seq<char>, row: R) -> Table<R> {
        Table {
            rows: self.rows.insert(self.next as i64, row),
            keys: self.keys.insert(name, self.next as i64),
            next: self.next + 1,
        }
    }

    /// The keys are positive and below the next key, and every name leads
    /// to a stored row.
    pub open spec fn wf(self) -> bool {
        &&& 1 <= self.next
        &&& forall|id: i64| #[trigger] self.rows.dom().contains(id) ==> 1 <= id < self.next
        &&& forall|name: Seq<char>| #[trigger]
            self.keys.dom().contains(name) ==> self.rows.dom().contains(self.keys[name])
    }
}

/// A table of tags is well formed, no name is empty, and each tag is
/// stored under its name and its key.
pub open spec fn tags_wf(table: Table<Tag>) -> bool {
    &&& table.wf()
    &&& forall|name: Seq<char>| #[trigger] table.has(name) ==> name.len() > 0
    &&& forall|name: Seq<char>| #[trigger]
        table.has(name) ==> table.named(name).name@ == name && table.named(name).id
            == table.keys[name]
    &&& forall|id: i64| #[trigger]
        table.rows.dom().contains(id) ==> table.has(table.rows[id].name@)
            && table.keys[table.rows[id].name@] == id
}

/// The table of currencies is well formed, no name is empty, and each
/// currency is stored under its name and its key.
pub open spec fn currencies_wf(table: Table<CurrencyRecord>) -> bool {
    &&& table.wf()
    &&& forall|name: Seq<char>| #[trigger] table.has(name) ==> name.len() > 0
    &&& forall|name: Seq<char>| #[trigger]
        table.has(name) ==> table.named(name).format.name@ == name && table.named(name).id
            == table.keys[name]
    &&& forall|id: i64| #[trigger]
        table.rows.dom().contains(id) ==> table.has(table.rows[id].format.name@)
            && table.keys[table.rows[id].format.name@] == id
}

/// The table of accounts is well formed, no name is empty, and each
/// account is stored under its name and its key.
pub open spec fn accounts_wf(table: Table<Account>) -> bool {
    &&& table.wf()
    &&& forall|name: Seq<char>| #[trigger] table.has(name) ==> name.len() > 0
    &&& forall|name: Seq<char>| #[trigger]
        table.has(name) ==> table.named(name).name@ == name && table.named(name).id
            == table.keys[name]
    &&& forall|id: i64| #[trigger]
        table.rows.dom().contains(id) ==> table.has(table.rows[id].name@)
            && table.keys[table.rows[id].name@] == id
}

/// The table of transactions is well formed and each transaction is
/// stored under its key. No posted date is earlier than the date of its
/// transaction, no check number stands without a debit account, and no two
/// transactions have the same check number on the same debit account.
pub open spec fn transactions_wf(table: Table<Transaction>) -> bool {
    &&& table.wf()
    &&& forall|id: i64| #[trigger]
        table.rows.dom().contains(id) ==> {
            let row = table.rows[id];
            &&& row.id == id
            &&& !(row.posted_date matches Some(posted) && posted@.before(row.date@))
            &&& row.check_number is Some ==> row.debit_account is Some
        }
    &&& forall|a: i64, b: i64|
        #![trigger table.rows[a], table.rows[b]]
        table.rows.dom().contains(a) && table.rows.dom().contains(b) && a != b
            && table.rows[a].check_number is Some ==> table.rows[a].check_number
            != table.rows[b].check_number || table.rows[a].debit_account
            != table.rows[b].debit_account
}

/// Every account holds a stored currency and a stored account type, as
/// they are stored.
pub open spec fn accounts_refer(
    accounts: Table<Account>,
    currencies: Table<CurrencyRecord>,
    account_types: Table<Tag>,
) -> bool {
    forall|id: i64| #[trigger]
        accounts.rows.dom().contains(id) ==> {
            let account = accounts.rows[id];
            &&& currencies.rows.dom().contains(account.currency.id)
            &&& currencies.rows[account.currency.id] == account.currency
            &&& account_types.rows.dom().contains(account.account_type.tag.id)
            &&& account_types.rows[account.account_type.tag.id] == account.account_type.tag
        }
}

/// A table with one more row keeps the rows that it had.
pub proof fn lemma_with_keeps<R>(table: Table<R>, name: Seq<char>, row: R)
    requires
        table.wf(),
        !table.has(name),
        table.has_room(),
    ensures
        table.with(name, row).wf(),
        table.with(name, row).has(name),
        table.with(name, row).named(name) == row,
        table.with(name, row).keys[name] == table.next,
        table.with(name, row).rows.dom().contains(table.next as i64),
        table.with(name, row).rows[table.next as i64] == row,
        !table.rows.dom().contains(table.next as i64),
        forall|other: Seq<char>| #[trigger]
            table.has(other) ==> table.with(name, row).has(other) && table.with(
                name,
                row,
            ).named(other) == table.named(other) && table.with(name, row).keys[other]
                == table.keys[other],
        forall|other: Seq<char>| #[trigger]
            table.with(name, row).has(other) ==> table.has(other) || other == name,
        forall|id: i64| #[trigger]
            table.rows.dom().contains(id) ==> table.with(name, row).rows.dom().contains(id)
                && table.with(name, row).rows[id] == table.rows[id],
        forall|id: i64| #[trigger]
            table.with(name, row).rows.dom().contains(id) ==> table.rows.dom().contains(id)
                || id == table.next,
{
    let after = table.with(name, row);
    assert forall|other: Seq<char>| #[trigger] table.has(other) implies after.has(other)
        && after.named(other) == table.named(other) && after.keys[other]
        == table.keys[other] by {
        assert(table.keys.dom().contains(other));
        assert(table.rows.dom().contains(table.keys[other]));
    }
    if table.rows.dom().contains(table.next as i64) {
        assert(false);
    }
}

/// A table of tags with one more tag, stored under its name and the next
/// key, is well formed.
pub proof fn lemma_with_tag(table: Table<Tag>, row: Tag)
    requires
        tags_wf(table),
        row.name@.len() > 0,
        !table.has(row.name@),
        table.has_room(),
        row.id == table.next,
    ensures
        tags_wf(table.with(row.name@, row)),
{
    lemma_with_keeps(table, row.name@, row);
    let after = table.with(row.name@, row);
    assert forall|name: Seq<char>| #[trigger] after.has(name) implies after.named(name).name@
        == name && after.named(name).id == after.keys[name] by {
        if name != row.name@ {
            assert(table.has(name));
        }
    }
    assert forall|id: i64| #[trigger] after.rows.dom().contains(id) implies after.has(
        after.rows[id].name@,
    ) && after.keys[after.rows[id].name@] == id by {
        if id != table.next {
            assert(table.rows.dom().contains(id));
            assert(table.has(table.rows[id].name@));
        }
    }
}

/// The table of currencies with one more currency, stored under its name
/// and the next key, is well formed.
pub proof fn lemma_with_currency(table: Table<CurrencyRecord>, row: CurrencyRecord)
    requires
        currencies_wf(table),
        row.format.name@.len() > 0,
        !table.has(row.format.name@),
        table.has_room(),
        row.id == table.next,
    ensures
        currencies_wf(table.with(row.format.name@, row)),
{
    lemma_with_keeps(table, row.format.name@, row);
    let after = table.with(row.format.name@, row);
    assert forall|name: Seq<char>| #[trigger] after.has(name) implies after.named(
        name,
    ).format.name@ == name && after.named(name).id == after.keys[name] by {
        if name != row.format.name@ {
            assert(table.has(name));
        }
    }
    assert forall|id: i64| #[trigger] after.rows.dom().contains(id) implies after.has(
        after.rows[id].format.name@,
    ) && after.keys[after.rows[id].format.name@] == id by {
        if id != table.next {
            assert(table.rows.dom().contains(id));
            assert(table.has(table.rows[id].format.name@));
        }
    }
}

/// The table of accounts with one more account, stored under its name and
/// the next key, is well formed.
pub proof fn lemma_with_account(table: Table<Account>, row: Account)
    requires
        accounts_wf(table),
        row.name@.len() > 0,
        !table.has(row.name@),
        table.has_room(),
        row.id == table.next,
    ensures
        accounts_wf(table.with(row.name@, row)),
{
    lemma_with_keeps(table, row.name@, row);
    let after = table.with(row.name@, row);
    assert forall|name: Seq<char>| #[trigger] after.has(name) implies after.named(name).name@
        == name && after.named(name).id == after.keys[name] by {
        if name != row.name@ {
            assert(table.has(name));
        }
    }
    assert forall|id: i64| #[trigger] after.rows.dom().contains(id) implies after.has(
        after.rows[id].name@,
    ) && after.keys[after.rows[id].name@] == id by {
        if id != table.next {
            assert(table.rows.dom().contains(id));
            assert(table.has(table.rows[id].name@));
        }
    }
}

/// The table of transactions with one more transaction that breaks no
/// rule, stored under the next key, is well formed.
pub proof fn lemma_with_transaction(tables: Tables, entry: NewTransaction)
    requires
        transactions_wf(tables.transactions),
        tables.transactions.has_room(),
        broken_rule(tables, entry) is None,
    ensures
        ({
            let table = tables.transactions;
            let row = stored_transaction(entry, table.next as i64);
            transactions_wf(
                Table { rows: table.rows.insert(row.id, row), next: table.next + 1, ..table },
            )
        }),
{
    let table = tables.transactions;
    let row = stored_transaction(entry, table.next as i64);
    let after = Table { rows: table.rows.insert(row.id, row), next: table.next + 1, ..table };
    if table.rows.dom().contains(row.id) {
        assert(false);
    }
    assert forall|a: i64, b: i64|
        #![trigger after.rows[a], after.rows[b]]
        after.rows.dom().contains(a) && after.rows.dom().contains(b) && a != b
            && after.rows[a].check_number is Some implies after.rows[a].check_number
        != after.rows[b].check_number || after.rows[a].debit_account
        != after.rows[b].debit_account by {
        if a == row.id {
            assert(table.rows.dom().contains(b));
            if row.check_number == table.rows[b].check_number && row.debit_account
                == table.rows[b].debit_account {
                assert(tables.has_check(row.check_number->0, row.debit_account->0));
            }
        } else if b == row.id {
            assert(table.rows.dom().contains(a));
            if row.check_number == table.rows[a].check_number && row.debit_account
                == table.rows[a].debit_account {
                assert(tables.has_check(row.check_number->0, row.debit_account->0));
            }
        } else {
            assert(table.rows[a] == after.rows[a] && table.rows[b] == after.rows[b]);
        }
    }
}

/// The six tables of the ledger.
#[verifier::ext_equal]
pub struct Tables {
    pub account_types: Table<Tag>,
    pub categories: Table<Tag>,
    pub methods: Table<Tag>,
    pub currencies: Table<CurrencyRecord>,
    pub accounts: Table<Account>,
    pub transactions: Table<Transaction>,
}

impl Tables {
    /// The ledger without rows.
    pub open spec fn empty() -> Tables {
        Tables {
            account_types: Table::empty(),
            categories: Table::empty(),
            methods: Table::empty(),
            currencies: Table::empty(),
            accounts: Table::empty(),
            transactions: Table::empty(),
        }
    }

    /// The table of a kind of tag.
    pub open spec fn tags(self, kind: TagKind) -> Table<Tag> {
        match kind {
            TagKind::AccountType => self.account_types,
            TagKind::Category => self.categories,
            TagKind::Method => self.methods,
        }
    }

    /// The tables with another table for a kind of tag.
    pub open spec fn with_tags(self, kind: TagKind, table: Table<Tag>) -> Tables {
        match kind {
            TagKind::AccountType => Tables { account_types: table, ..self },
            TagKind::Category => Tables { categories: table, ..self },
            TagKind::Method => Tables { methods: table, ..self },
        }
    }

    /// Every table keeps the rules of the ledger, and every account
    /// refers to a stored currency and a stored account type.
    pub open spec fn wf(self) -> bool {
        &&& tags_wf(self.account_types)
        &&& tags_wf(self.categories)
        &&& tags_wf(self.methods)
        &&& currencies_wf(self.currencies)
        &&& accounts_wf(self.accounts)
        &&& transactions_wf(self.transactions)
        &&& accounts_refer(self.accounts, self.currencies, self.account_types)
    }

    /// Whether a stored transaction has this check number on this debit
    /// account.
    pub open spec fn has_check(self, check_number: u32, debit_account: i64) -> bool {
        exists|id: i64| #[trigger]
            self.transactions.rows.dom().contains(id) && self.transactions.rows[id].check_number
                == Some(check_number) && self.transactions.rows[id].debit_account == Some(
                debit_account,
            )
    }
}

/// A storage session: what is committed, and what an open transaction has
/// made of it so far.
#[verifier::ext_equal]
pub struct Session {
    pub committed: Tables,
    pub pending: Option<Tables>,
}

impl Session {
    /// A session on these tables, with no transaction open.
    pub open spec fn idle(tables: Tables) -> Session {
        Session { committed: tables, pending: None }
    }

    /// The tables that commands read and write.
    pub open spec fn current(self) -> Tables {
        match self.pending {
            Some(tables) => tables,
            None => self.committed,
        }
    }

    /// The session after a command has made `tables` of the current ones.
    pub open spec fn put(self, tables: Tables) -> Session {
        match self.pending {
            Some(_) => Session { pending: Some(tables), ..self },
            None => Session { committed: tables, ..self },
        }
    }

    /// The committed tables are well formed, and so are those of an open
    /// transaction.
    pub open spec fn wf(self) -> bool {
        self.committed.wf() && (self.pending matches Some(tables) ==> tables.wf())
    }
}

/// The transaction that the storage makes of an entry, under a key.
pub open spec fn stored_transaction(entry: NewTransaction, id: i64) -> Transaction {
    Transaction {
        id,
        date: entry.date,
        posted_date: entry.posted_date,
        category: entry.category,
        amount: entry.amount,
        debit_account: entry.debit_account,
        credit_account: entry.credit_account,
        authority: entry.authority,
        description: entry.description,
        method: entry.method,
        check_number: entry.check_number,
    }
}

/// The rule that an entry breaks, if any: a posted date before the date, a
/// check number without a debit account, or a check number that the debit
/// account has already.
pub open spec fn broken_rule(tables: Tables, entry: NewTransaction) -> Option<Constraint> {
    if entry.posted_date matches Some(posted) && posted@.before(entry.date@) {
        Some(Constraint::Check)
    } else if entry.check_number is Some && entry.debit_account is None {
        Some(Constraint::Check)
    } else if entry.check_number matches Some(check) && entry.debit_account matches Some(debit)
        && tables.has_check(check, debit) {
        Some(Constraint::Unique)
    } else {
        None
    }
}

/// What a storage session does with a command: the session afterwards, and
/// its reply. A name is stored once; a row that would break a rule is not
/// stored; a rollback restores what was committed.
pub open spec fn respond(session: Session, command: Command) -> (Session, Reply) {
    let tables = session.current();
    match command {
        Command::Begin => match session.pending {
            None => (Session { pending: Some(session.committed), ..session }, Reply::Done),
            Some(_) => (session, Reply::Failed),
        },
        Command::Commit => match session.pending {
            Some(pending) => (Session { committed: pending, pending: None }, Reply::Done),
            None => (session, Reply::Failed),
        },
        Command::Rollback => match session.pending {
            Some(_) => (Session { pending: None, ..session }, Reply::Done),
            None => (session, Reply::Failed),
        },
        Command::InsertTag { kind, name } => {
            let table = tables.tags(kind);
            if name@.len() == 0 || table.has(name@) {
                (session, Reply::Ignored)
            } else if !table.has_room() {
                (session, Reply::Failed)
            } else {
                let row = Tag { id: table.next as i64, name };
                (
                    session.put(tables.with_tags(kind, table.with(name@, row))),
                    Reply::Inserted(row.id),
                )
            }
        },
        Command::FetchTag { kind, name } => {
            let table = tables.tags(kind);
            if table.has(name@) {
                (session, Reply::Tag(table.named(name@)))
            } else {
                (session, Reply::Missing)
            }
        },
        Command::InsertCurrency { format } => {
            let table = tables.currencies;
            if format.name@.len() == 0 || table.has(format.name@) {
                (session, Reply::Ignored)
            } else if !table.has_room() {
                (session, Reply::Failed)
            } else {
                let row = CurrencyRecord { id: table.next as i64, format };
                (
                    session.put(Tables { currencies: table.with(format.name@, row), ..tables }),
                    Reply::Inserted(row.id),
                )
            }
        },
        Command::FetchCurrency { name } => {
            if tables.currencies.has(name@) {
                (session, Reply::Currency(tables.currencies.named(name@)))
            } else {
                (session, Reply::Missing)
            }
        },
        Command::InsertAccount { name, currency, account_type } => {
            let table = tables.accounts;
            if name@.len() == 0 || table.has(name@) {
                (session, Reply::Ignored)
            } else if !tables.currencies.rows.dom().contains(currency)
                || !tables.account_types.rows.dom().contains(account_type) {
                (session, Reply::Rejected(Constraint::Reference))
            } else if !table.has_room() {
                (session, Reply::Failed)
            } else {
                let row = Account {
                    id: table.next as i64,
                    name,
                    currency: tables.currencies.rows[currency],
                    balance: Decimal::whole(0),
                    posted_balance: Decimal::whole(0),
                    account_type: AccountType { tag: tables.account_types.rows[account_type] },
                };
                (
                    session.put(Tables { accounts: table.with(name@, row), ..tables }),
                    Reply::Inserted(row.id),
                )
            }
        },
        Command::FetchAccount { name } => {
            if tables.accounts.has(name@) {
                (session, Reply::Account(tables.accounts.named(name@)))
            } else {
                (session, Reply::Missing)
            }
        },
        Command::FetchAccounts => (
            session,
            Reply::Accounts(choose|listed: Vec<Account>| lists(listed@, tables.accounts)),
        ),
        Command::InsertTransaction { entry } => {
            let table = tables.transactions;
            match broken_rule(tables, entry) {
                Some(constraint) => (session, Reply::Rejected(constraint)),
                None => if !table.has_room() {
                    (session, Reply::Failed)
                } else {
                    let row = stored_transaction(entry, table.next as i64);
                    (
                        session.put(
                            Tables {
                                transactions: Table {
                                    rows: table.rows.insert(row.id, row),
                                    next: table.next + 1,
                                    ..table
                                },
                                ..tables
                            },
                        ),
                        Reply::Inserted(row.id),
                    )
                },
            }
        },
        Command::FetchTransaction { id } => {
            if tables.transactions.rows.dom().contains(id) {
                (session, Reply::Transaction(tables.transactions.rows[id]))
            } else {
                (session, Reply::Missing)
            }
        },
    }
}

/// Whatever the command, a session that keeps the rules of the ledger
/// keeps them afterwards.
pub proof fn law_rules_are_kept(session: Session, command: Command)
    requires
        session.wf(),
    ensures
        respond(session, command).0.wf(),
{
    let tables = session.current();
    match command {
        Command::InsertTag { kind, name } => {
            let table = tables.tags(kind);
            if name@.len() > 0 && !table.has(name@) && table.has_room() {
                let row = Tag { id: table.next as i64, name };
                lemma_with_tag(table, row);
                lemma_with_keeps(table, name@, row);
            }
        },
        Command::InsertCurrency { format } => {
            let table = tables.currencies;
            if format.name@.len() > 0 && !table.has(format.name@) && table.has_room() {
                let row = CurrencyRecord { id: table.next as i64, format };
                lemma_with_currency(table, row);
                lemma_with_keeps(table, format.name@, row);
            }
        },
        Command::InsertAccount { name, currency, account_type } => {
            let table = tables.accounts;
            if name@.len() > 0 && !table.has(name@) && table.has_room()
                && tables.currencies.rows.dom().contains(currency)
                && tables.account_types.rows.dom().contains(account_type) {
                let row = Account {
                    id: table.next as i64,
                    name,
                    currency: tables.currencies.rows[currency],
                    balance: Decimal::whole(0),
                    posted_balance: Decimal::whole(0),
                    account_type: AccountType { tag: tables.account_types.rows[account_type] },
                };
                lemma_with_account(table, row);
                lemma_with_keeps(table, name@, row);
            }
        },
        Command::InsertTransaction { entry } => {
            if broken_rule(tables, entry) is None && tables.transactions.has_room() {
                lemma_with_transaction(tables, entry);
            }
        },
        _ => {},
    }
}

/// Whether `listed` holds every account of the table once, in any order.
pub open spec fn lists(listed: Seq<Account>, table: Table<Account>) -> bool {
    &&& listed.len() == table.rows.dom().len()
    &&& forall|i: int| 0 <= i < listed.len() ==> table.rows.dom().contains(#[trigger] listed[i].id)
            && table.rows[listed[i].id] == listed[i]
    &&& forall|i: int, j: int| 0 <= i < j < listed.len() ==> listed[i].id != listed[j].id
}

} // verus!
