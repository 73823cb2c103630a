use roolah::date::Date;
use roolah::decimal::Decimal;
use roolah::error::{Error, Invalid, Operation};
use roolah::finance::{usd, CurrencyFormat};
use roolah::ledger::account::{create_account, get_account_by_name, get_all_accounts};
use roolah::ledger::currency::{create_currency, get_currency_by_name};
use roolah::ledger::resolver::TagResolution;
use roolah::ledger::storage::{Command, Constraint, Reply, Step};
use roolah::ledger::transaction::{create_transaction, get_transaction_by_id, TransactionArgs};
use roolah::ledger::workflow::Workflow;
use roolah::model::{Account, AccountType, CurrencyRecord, Tag, TagKind, Transaction};

/// The tables of a storage that lives in memory.
#[derive(Clone, Default)]
struct Tables {
    account_types: Vec<Tag>,
    categories: Vec<Tag>,
    methods: Vec<Tag>,
    currencies: Vec<CurrencyRecord>,
    accounts: Vec<Account>,
    transactions: Vec<Transaction>,
}

/// A storage session in memory, with a log of the commands that it ran.
#[derive(Default)]
struct Store {
    committed: Tables,
    pending: Option<Tables>,
    log: Vec<Operation>,
    fail_at: Option<Operation>,
}

fn next_key<T>(rows: &[T], key: impl Fn(&T) -> i64) -> i64 {
    rows.iter().map(key).max().unwrap_or(0) + 1
}

impl Store {
    fn tables(&mut self) -> &mut Tables {
        match &mut self.pending {
            Some(tables) => tables,
            None => &mut self.committed,
        }
    }

    fn tags(&mut self, kind: TagKind) -> &mut Vec<Tag> {
        let tables = self.tables();
        match kind {
            TagKind::AccountType => &mut tables.account_types,
            TagKind::Category => &mut tables.categories,
            TagKind::Method => &mut tables.methods,
        }
    }

    fn execute(&mut self, command: Command) -> Reply {
        let operation = command.operation();
        self.log.push(operation);
        if self.fail_at == Some(operation) {
            return Reply::Failed;
        }
        match command {
            Command::Begin => match self.pending {
                None => {
                    self.pending = Some(self.committed.clone());
                    Reply::Done
                }
                Some(_) => Reply::Failed,
            },
            Command::Commit => match self.pending.take() {
                Some(tables) => {
                    self.committed = tables;
                    Reply::Done
                }
                None => Reply::Failed,
            },
            Command::Rollback => match self.pending.take() {
                Some(_) => Reply::Done,
                None => Reply::Failed,
            },
            Command::InsertTag { kind, name } => {
                let rows = self.tags(kind);
                if name.is_empty() || rows.iter().any(|row| row.name == name) {
                    Reply::Ignored
                } else {
                    let id = next_key(rows, |row| row.id);
                    rows.push(Tag { id, name });
                    Reply::Inserted(id)
                }
            }
            Command::FetchTag { kind, name } => {
                match self.tags(kind).iter().find(|row| row.name == name) {
                    Some(row) => Reply::Tag(row.clone()),
                    None => Reply::Missing,
                }
            }
            Command::InsertCurrency { format } => {
                let rows = &mut self.tables().currencies;
                if format.name.is_empty() || rows.iter().any(|row| row.format.name == format.name) {
                    Reply::Ignored
                } else {
                    let id = next_key(rows, |row| row.id);
                    rows.push(CurrencyRecord { id, format });
                    Reply::Inserted(id)
                }
            }
            Command::FetchCurrency { name } => {
                match self.tables().currencies.iter().find(|row| row.format.name == name) {
                    Some(row) => Reply::Currency(row.clone()),
                    None => Reply::Missing,
                }
            }
            Command::InsertAccount { name, currency, account_type } => {
                let tables = self.tables();
                if name.is_empty() || tables.accounts.iter().any(|row| row.name == name) {
                    return Reply::Ignored;
                }
                let record = tables.currencies.iter().find(|row| row.id == currency).cloned();
                let tag = tables.account_types.iter().find(|row| row.id == account_type).cloned();
                match (record, tag) {
                    (Some(currency), Some(tag)) => {
                        let id = next_key(&tables.accounts, |row| row.id);
                        tables.accounts.push(Account {
                            id,
                            name,
                            currency,
                            balance: Decimal::zero(),
                            posted_balance: Decimal::zero(),
                            account_type: AccountType { tag },
                        });
                        Reply::Inserted(id)
                    }
                    _ => Reply::Rejected(Constraint::Reference),
                }
            }
            Command::FetchAccount { name } => {
                match self.tables().accounts.iter().find(|row| row.name == name) {
                    Some(row) => Reply::Account(row.clone()),
                    None => Reply::Missing,
                }
            }
            Command::FetchAccounts => Reply::Accounts(self.tables().accounts.clone()),
            Command::InsertTransaction { entry } => {
                let rows = &mut self.tables().transactions;
                if let Some(posted) = entry.posted_date {
                    if posted.is_before(&entry.date) {
                        return Reply::Rejected(Constraint::Check);
                    }
                }
                if entry.check_number.is_some() && entry.debit_account.is_none() {
                    return Reply::Rejected(Constraint::Check);
                }
                if entry.check_number.is_some()
                    && rows.iter().any(|row| {
                        row.check_number == entry.check_number
                            && row.debit_account == entry.debit_account
                    })
                {
                    return Reply::Rejected(Constraint::Unique);
                }
                let id = next_key(rows, |row| row.id);
                rows.push(Transaction {
                    id,
                    date: entry.date,
                    posted_date: entry.posted_date,
                    category: entry.category,
                    amount: entry.amount,
                    debit_account: entry.debit_account,
                    credit_account: entry.credit_account,
                    authority: entry.authority,
                    description: entry.description,
                    method: entry.method,
                    check_number: entry.check_number,
                });
                Reply::Inserted(id)
            }
            Command::FetchTransaction { id } => {
                match self.tables().transactions.iter().find(|row| row.id == id) {
                    Some(row) => Reply::Transaction(row.clone()),
                    None => Reply::Missing,
                }
            }
        }
    }

    fn run<W: Workflow>(&mut self, start: (W, Step<W::Output>)) -> Result<W::Output, Error> {
        let (mut workflow, mut step) = start;
        loop {
            match step {
                Step::Done(result) => return result,
                Step::Run(command) => {
                    let reply = self.execute(command);
                    (workflow, step) = workflow.advance(reply);
                }
            }
        }
    }

    fn resolve(&mut self, kind: TagKind, name: &str) -> Result<Tag, Error> {
        self.run(TagResolution::start(kind, name.to_string()))
    }

    fn create_account(
        &mut self,
        name: &str,
        currency: &CurrencyFormat,
        account_type: &str,
    ) -> Result<Account, Error> {
        self.run(create_account(name.to_string(), currency.clone(), account_type.to_string()))
    }

    fn create_transaction(&mut self, args: TransactionArgs) -> Result<Transaction, Error> {
        self.run(create_transaction(args))
    }
}

fn date(year: i32, month: u8, day: u8) -> Date {
    Date::new(year, month, day).unwrap()
}

fn transfer(method: &str) -> TransactionArgs {
    TransactionArgs::new(date(2022, 10, 6), Decimal::new(500, 2), 1, 2, method.to_string())
}

fn cad() -> CurrencyFormat {
    let mut cad = usd().into_owned();
    cad.name = "Canadian Dollar".to_string();
    cad
}

fn same_account(a: &Account, b: &Account) -> bool {
    a.id == b.id
        && a.name == b.name
        && a.currency.id == b.currency.id
        && a.currency.format == b.currency.format
        && a.balance.mantissa() == b.balance.mantissa()
        && a.balance.scale() == b.balance.scale()
        && a.posted_balance.mantissa() == b.posted_balance.mantissa()
        && a.posted_balance.scale() == b.posted_balance.scale()
        && a.account_type.tag.id == b.account_type.tag.id
        && a.account_type.tag.name == b.account_type.tag.name
}

#[test]
fn resolving_a_name_twice_gives_the_same_key() {
    let mut store = Store::default();
    for kind in [TagKind::AccountType, TagKind::Category, TagKind::Method] {
        let first = store.resolve(kind, "Groceries").unwrap();
        let second = store.resolve(kind, "Groceries").unwrap();
        assert_eq!(first.id, second.id);
        assert_eq!(first.name, "Groceries");
        assert_eq!(second.name, "Groceries");
    }
    assert_eq!(store.committed.categories.len(), 1);
    assert_eq!(store.committed.methods.len(), 1);
    assert_eq!(store.committed.account_types.len(), 1);
}

#[test]
fn resolving_other_names_in_between_changes_no_key() {
    let mut store = Store::default();
    let rent = store.resolve(TagKind::Category, "Rent").unwrap();
    let food = store.resolve(TagKind::Category, "Food").unwrap();
    let cash = store.resolve(TagKind::Method, "Rent").unwrap();
    let again = store.resolve(TagKind::Category, "Rent").unwrap();
    let food_again = store.resolve(TagKind::Category, "Food").unwrap();
    assert_eq!(rent.id, again.id);
    assert_eq!(food.id, food_again.id);
    assert_ne!(rent.id, food.id);
    assert_eq!(cash.name, "Rent");
    assert_eq!(store.committed.categories.len(), 2);
    assert_eq!(store.committed.methods.len(), 1);
}

#[test]
fn a_resolution_inserts_first_and_looks_up_only_on_a_miss() {
    let mut store = Store::default();
    store.resolve(TagKind::Category, "Rent").unwrap();
    assert_eq!(store.log, vec![Operation::InsertTag(TagKind::Category)]);
    store.log.clear();
    store.resolve(TagKind::Category, "Rent").unwrap();
    assert_eq!(
        store.log,
        vec![Operation::InsertTag(TagKind::Category), Operation::FetchTag(TagKind::Category)]
    );
}

#[test]
fn the_steps_of_a_resolution() {
    let (resolution, step) = TagResolution::start(TagKind::Method, "cash".to_string());
    match step {
        Step::Run(Command::InsertTag { kind, name }) => {
            assert_eq!(kind, TagKind::Method);
            assert_eq!(name, "cash");
        }
        other => panic!("unexpected step {other:?}"),
    }
    let (resolution, step) = resolution.advance(Reply::Ignored);
    match step {
        Step::Run(Command::FetchTag { kind, name }) => {
            assert_eq!(kind, TagKind::Method);
            assert_eq!(name, "cash");
        }
        other => panic!("unexpected step {other:?}"),
    }
    let (resolution, step) = resolution.advance(Reply::Tag(Tag { id: 12, name: "cash".to_string() }));
    match step {
        Step::Done(Ok(tag)) => assert_eq!((tag.id, tag.name.as_str()), (12, "cash")),
        other => panic!("unexpected step {other:?}"),
    }
    let (_, step) = resolution.advance(Reply::Done);
    assert!(matches!(step, Step::Done(Err(Error::Storage(Operation::Finished)))));
    let (resolution, _) = TagResolution::start(TagKind::Method, "cash".to_string());
    let (_, step) = resolution.advance(Reply::Inserted(5));
    match step {
        Step::Done(Ok(tag)) => assert_eq!((tag.id, tag.name.as_str()), (5, "cash")),
        other => panic!("unexpected step {other:?}"),
    }
}

#[test]
fn a_resolution_fails_where_the_storage_does() {
    let mut store = Store::default();
    assert!(matches!(
        store.resolve(TagKind::Category, ""),
        Err(Error::Validation(Invalid::EmptyName))
    ));
    assert!(store.log.is_empty());
    store.fail_at = Some(Operation::InsertTag(TagKind::Category));
    assert!(matches!(
        store.resolve(TagKind::Category, "Rent"),
        Err(Error::Storage(Operation::InsertTag(TagKind::Category)))
    ));
    let (resolution, _) = TagResolution::start(TagKind::Category, "Rent".to_string());
    let (resolution, _) = resolution.advance(Reply::Ignored);
    let (_, step) = resolution.advance(Reply::Missing);
    assert!(matches!(
        step,
        Step::Done(Err(Error::NotFound(Operation::FetchTag(TagKind::Category))))
    ));
    let (resolution, _) = TagResolution::start(TagKind::Category, "Rent".to_string());
    let (resolution, _) = resolution.advance(Reply::Ignored);
    let (_, step) = resolution.advance(Reply::Failed);
    assert!(matches!(
        step,
        Step::Done(Err(Error::Storage(Operation::FetchTag(TagKind::Category))))
    ));
}

#[test]
fn creating_a_currency_twice_gives_the_same_record() {
    let mut store = Store::default();
    let first = store.run(create_currency(usd())).unwrap();
    let second = store.run(create_currency(usd())).unwrap();
    assert_eq!(first.id, second.id);
    assert_eq!(second.format, usd());
    assert_eq!(store.committed.currencies.len(), 1);
    let other = store.run(create_currency(cad())).unwrap();
    assert_ne!(other.id, first.id);
    let found = store.run(get_currency_by_name("Canadian Dollar".to_string())).unwrap();
    assert_eq!(found.id, other.id);
    assert_eq!(found.format, cad());
    assert!(matches!(
        store.run(get_currency_by_name("Euro".to_string())),
        Err(Error::NotFound(Operation::FetchCurrency))
    ));
}

#[test]
fn a_currency_of_the_same_name_and_another_content_is_a_conflict() {
    let mut store = Store::default();
    let stored = store.run(create_currency(usd())).unwrap();
    let mut changed = usd();
    changed.precision = 3;
    match store.run(create_currency(changed)) {
        Err(Error::CurrencyAlreadyExists(existing)) => {
            assert_eq!(existing.id, stored.id);
            assert_eq!(existing.format, usd());
        }
        other => panic!("unexpected result {other:?}"),
    }
    let mut unnamed = usd();
    unnamed.name = String::new();
    assert!(matches!(
        store.run(create_currency(unnamed)),
        Err(Error::Validation(Invalid::EmptyName))
    ));
    assert_eq!(store.committed.currencies.len(), 1);
}

#[test]
fn creating_an_account_stores_it_with_zero_balances() {
    let mut store = Store::default();
    let account = store.create_account("My Checking", &usd(), "Checking").unwrap();
    assert_eq!(account.name, "My Checking");
    assert_eq!(account.currency.format.symbol, "$");
    assert_eq!(account.currency.format.name, "U.S. Dollar");
    assert_eq!(account.account_type.tag.name, "Checking");
    assert!(account.balance.is_zero());
    assert!(account.posted_balance.is_zero());
    assert_eq!(account.balance.scale(), 0);
    assert_eq!(
        store.log,
        vec![
            Operation::Begin,
            Operation::InsertTag(TagKind::AccountType),
            Operation::InsertCurrency,
            Operation::InsertAccount,
            Operation::Commit,
        ]
    );
    assert!(store.pending.is_none());
    let stored = store.run(get_account_by_name("My Checking".to_string())).unwrap();
    assert!(same_account(&stored, &account));
    let accounts = store.run(get_all_accounts()).unwrap();
    assert_eq!(accounts.len(), 1);
    assert_eq!(accounts.first(), Some(&account));
}

#[test]
fn creating_the_same_account_twice_returns_the_same_account() {
    let mut store = Store::default();
    let first = store.create_account("X", &usd(), "Checking").unwrap();
    store.log.clear();
    let second = store.create_account("X", &usd(), "Checking").unwrap();
    assert!(same_account(&first, &second));
    assert_eq!(
        store.log,
        vec![
            Operation::Begin,
            Operation::InsertTag(TagKind::AccountType),
            Operation::FetchTag(TagKind::AccountType),
            Operation::InsertCurrency,
            Operation::FetchCurrency,
            Operation::InsertAccount,
            Operation::Rollback,
            Operation::FetchAccount,
        ]
    );
    assert_eq!(store.committed.accounts.len(), 1);
    assert_eq!(store.committed.account_types.len(), 1);
    assert_eq!(store.committed.currencies.len(), 1);
    assert!(store.pending.is_none());
}

#[test]
fn another_type_or_currency_for_an_account_that_exists_is_a_conflict() {
    let mut store = Store::default();
    let first = store.create_account("My Checking", &usd(), "Checking").unwrap();
    match store.create_account("My Checking", &usd(), "Savings") {
        Err(Error::AccountAlreadyExists(existing)) => assert!(same_account(&existing, &first)),
        other => panic!("unexpected result {other:?}"),
    }
    match store.create_account("My Checking", &cad(), "Checking") {
        Err(Error::AccountAlreadyExists(existing)) => assert!(same_account(&existing, &first)),
        other => panic!("unexpected result {other:?}"),
    }
    assert_eq!(store.committed.accounts.len(), 1);
    assert_eq!(store.committed.account_types.len(), 1);
    assert_eq!(store.committed.currencies.len(), 1);
    assert!(store.pending.is_none());
}

#[test]
fn an_account_in_a_conflicting_currency_is_not_created() {
    let mut store = Store::default();
    store.create_account("My Checking", &usd(), "Checking").unwrap();
    let mut changed = usd();
    changed.symbol = "US$".to_string();
    store.log.clear();
    match store.create_account("My Savings", &changed, "Savings") {
        Err(Error::CurrencyAlreadyExists(existing)) => assert_eq!(existing.format, usd()),
        other => panic!("unexpected result {other:?}"),
    }
    assert_eq!(store.log.last(), Some(&Operation::Rollback));
    assert_eq!(store.committed.accounts.len(), 1);
    assert_eq!(store.committed.account_types.len(), 1);
    assert!(store.pending.is_none());
}

#[test]
fn an_account_with_a_balance_is_not_the_one_asked_for() {
    let mut store = Store::default();
    store.create_account("My Checking", &usd(), "Checking").unwrap();
    store.committed.accounts[0].balance = Decimal::new(1, 2);
    assert!(matches!(
        store.create_account("My Checking", &usd(), "Checking"),
        Err(Error::AccountAlreadyExists(_))
    ));
    store.committed.accounts[0].balance = Decimal::new(0, 2);
    assert!(store.create_account("My Checking", &usd(), "Checking").is_ok());
    store.committed.accounts[0].posted_balance = Decimal::new(-5, 0);
    assert!(matches!(
        store.create_account("My Checking", &usd(), "Checking"),
        Err(Error::AccountAlreadyExists(_))
    ));
}

#[test]
fn an_empty_name_is_rejected_and_nothing_is_stored() {
    let mut store = Store::default();
    assert!(matches!(
        store.create_account("", &usd(), "Checking"),
        Err(Error::Validation(Invalid::EmptyName))
    ));
    assert_eq!(
        store.log,
        vec![
            Operation::Begin,
            Operation::InsertTag(TagKind::AccountType),
            Operation::InsertCurrency,
            Operation::Rollback,
        ]
    );
    store.log.clear();
    assert!(matches!(
        store.create_account("My Checking", &usd(), ""),
        Err(Error::Validation(Invalid::EmptyName))
    ));
    assert_eq!(store.log, vec![Operation::Begin, Operation::Rollback]);
    store.log.clear();
    let mut unnamed = usd();
    unnamed.name = String::new();
    assert!(matches!(
        store.create_account("My Checking", &unnamed, "Checking"),
        Err(Error::Validation(Invalid::EmptyName))
    ));
    assert_eq!(
        store.log,
        vec![Operation::Begin, Operation::InsertTag(TagKind::AccountType), Operation::Rollback]
    );
    assert!(store.pending.is_none());
    assert!(store.committed.accounts.is_empty());
    assert!(store.committed.account_types.is_empty());
    assert!(store.committed.currencies.is_empty());
}

#[test]
fn a_currency_in_conflict_comes_before_an_empty_account_name() {
    let mut store = Store::default();
    let stored = store.run(create_currency(usd())).unwrap();
    let mut changed = usd();
    changed.precision = 3;
    match store.create_account("", &changed, "Checking") {
        Err(Error::CurrencyAlreadyExists(existing)) => {
            assert_eq!(existing.id, stored.id);
            assert_eq!(existing.format, usd());
        }
        other => panic!("unexpected result {other:?}"),
    }
    assert!(store.pending.is_none());
    assert!(store.committed.accounts.is_empty());
    assert!(store.committed.account_types.is_empty());
    assert_eq!(store.committed.currencies.len(), 1);
    assert!(matches!(
        store.create_account("", &changed, ""),
        Err(Error::Validation(Invalid::EmptyName))
    ));
    assert!(matches!(
        store.create_account("", &usd(), "Checking"),
        Err(Error::Validation(Invalid::EmptyName))
    ));
    assert!(store.committed.account_types.is_empty());
}

#[test]
fn a_failure_inside_the_creation_of_an_account_rolls_back() {
    for operation in [
        Operation::InsertTag(TagKind::AccountType),
        Operation::InsertCurrency,
        Operation::InsertAccount,
        Operation::Commit,
    ] {
        let mut store = Store::default();
        store.fail_at = Some(operation);
        match store.create_account("My Checking", &usd(), "Checking") {
            Err(Error::Storage(failed)) => assert_eq!(failed, operation),
            other => panic!("unexpected result {other:?}"),
        }
        assert_eq!(store.log.last(), Some(&Operation::Rollback));
        assert!(store.pending.is_none());
        assert!(store.committed.accounts.is_empty());
        assert!(store.committed.account_types.is_empty());
        assert!(store.committed.currencies.is_empty());
    }
    let mut store = Store::default();
    store.fail_at = Some(Operation::Begin);
    assert!(matches!(
        store.create_account("My Checking", &usd(), "Checking"),
        Err(Error::Storage(Operation::Begin))
    ));
    assert_eq!(store.log, vec![Operation::Begin]);
}

#[test]
fn lookups_of_accounts() {
    let mut store = Store::default();
    assert!(matches!(
        store.run(get_account_by_name("None".to_string())),
        Err(Error::NotFound(Operation::FetchAccount))
    ));
    assert!(store.run(get_all_accounts()).unwrap().is_empty());
    store.fail_at = Some(Operation::FetchAccount);
    assert!(matches!(
        store.run(get_account_by_name("None".to_string())),
        Err(Error::Storage(Operation::FetchAccount))
    ));
    store.fail_at = Some(Operation::FetchAccounts);
    assert!(matches!(
        store.run(get_all_accounts()),
        Err(Error::Storage(Operation::FetchAccounts))
    ));
    let (lookup, _) = get_account_by_name("X".to_string());
    let (lookup, step) = lookup.advance(Reply::Malformed);
    assert!(matches!(step, Step::Done(Err(Error::Validation(Invalid::MalformedDecimal)))));
    let (_, step) = lookup.advance(Reply::Missing);
    assert!(matches!(step, Step::Done(Err(Error::Storage(Operation::Finished)))));
    let (listing, _) = get_all_accounts();
    let (_, step) = listing.advance(Reply::Malformed);
    assert!(matches!(step, Step::Done(Err(Error::Validation(Invalid::MalformedDecimal)))));
}

#[test]
fn checking_and_savings_are_the_two_accounts() {
    let mut store = Store::default();
    let checking = store.create_account("Checking", &usd(), "Checking").unwrap();
    let savings = store.create_account("Savings", &usd(), "Savings").unwrap();
    let accounts = store.run(get_all_accounts()).unwrap();
    assert_eq!(accounts.len(), 2);
    let mut names: Vec<&str> = accounts.iter().map(|account| account.name.as_str()).collect();
    names.sort();
    assert_eq!(names, vec!["Checking", "Savings"]);
    assert!(accounts.contains(&checking));
    assert!(accounts.contains(&savings));
    for account in &accounts {
        assert_eq!(account.balance, Decimal::zero());
        assert_eq!(account.posted_balance, Decimal::zero());
        assert_eq!(account.currency.format, usd());
    }
    assert_ne!(checking.id, savings.id);
    assert_eq!(checking.currency.id, savings.currency.id);
    assert_ne!(checking.account_type.tag.id, savings.account_type.tag.id);
}

#[test]
fn creating_a_transaction_stores_and_returns_it() {
    let mut store = Store::default();
    let checking = store.create_account("My Checking", &usd(), "Checking").unwrap();
    let savings = store.create_account("My Savings", &usd(), "Savings").unwrap();
    let mut args = TransactionArgs::new(
        date(2022, 10, 6),
        Decimal::new(500, 2),
        checking.id,
        savings.id,
        "transfer".to_string(),
    );
    args.description = "deposit".to_string();
    store.log.clear();
    let transfer = store.create_transaction(args).unwrap();
    assert_eq!(transfer.date, date(2022, 10, 6));
    assert_eq!(transfer.posted_date, None);
    assert_eq!(transfer.category, None);
    assert_eq!(transfer.amount, Decimal::new(500, 2));
    assert_eq!(transfer.debit_account, Some(checking.id));
    assert_eq!(transfer.credit_account, Some(savings.id));
    assert_eq!(transfer.authority, "");
    assert_eq!(transfer.description, "deposit");
    assert_eq!(transfer.method.as_ref().map(|m| m.tag.name.as_ref()), Some("transfer"));
    assert_eq!(transfer.check_number, None);
    assert_eq!(
        store.log,
        vec![
            Operation::Begin,
            Operation::InsertTag(TagKind::Method),
            Operation::InsertTransaction,
            Operation::Commit,
            Operation::FetchTransaction,
        ]
    );
    let found = store.run(get_transaction_by_id(transfer.id)).unwrap();
    assert_eq!(found, transfer);
    assert_eq!(found.description, "deposit");
    assert!(matches!(
        store.run(get_transaction_by_id(transfer.id + 1)),
        Err(Error::NotFound(Operation::FetchTransaction))
    ));
}

#[test]
fn creating_a_transaction_leaves_the_balances_as_they_are() {
    let mut store = Store::default();
    let checking = store.create_account("My Checking", &usd(), "Checking").unwrap();
    let savings = store.create_account("My Savings", &usd(), "Savings").unwrap();
    let args = TransactionArgs::new(
        date(2022, 10, 6),
        Decimal::new(500, 2),
        checking.id,
        savings.id,
        String::new(),
    );
    store.create_transaction(args).unwrap();
    for account in store.run(get_all_accounts()).unwrap() {
        assert!(account.balance.is_zero());
        assert!(account.posted_balance.is_zero());
    }
}

#[test]
fn categories_and_methods_are_resolved_by_name() {
    let mut store = Store::default();
    let mut first = transfer("cash");
    first.category = "Groceries".to_string();
    first.authority = "shop".to_string();
    let first = store.create_transaction(first).unwrap();
    let mut second = transfer("cash");
    second.category = "Groceries".to_string();
    let second = store.create_transaction(second).unwrap();
    let third = store.create_transaction(transfer("")).unwrap();
    assert_eq!(first.category, second.category);
    assert_eq!(first.method, second.method);
    assert_eq!(first.category.as_ref().unwrap().tag.name, "Groceries");
    assert_eq!(first.method.as_ref().unwrap().tag.name, "cash");
    assert_eq!(first.authority, "shop");
    assert_eq!(third.category, None);
    assert_eq!(third.method, None);
    assert_ne!(first.id, second.id);
    assert_ne!(second.id, third.id);
    assert_eq!(store.committed.categories.len(), 1);
    assert_eq!(store.committed.methods.len(), 1);
    assert_eq!(store.committed.transactions.len(), 3);
}

#[test]
fn a_posted_date_before_the_date_is_rejected() {
    let mut store = Store::default();
    let mut args = transfer("cash");
    args.category = "Groceries".to_string();
    args.posted_date = Some(date(2022, 10, 5));
    assert!(matches!(
        store.create_transaction(args),
        Err(Error::Validation(Invalid::PostedBeforeDate))
    ));
    assert_eq!(store.log.last(), Some(&Operation::Rollback));
    assert!(store.pending.is_none());
    assert!(store.committed.transactions.is_empty());
    assert!(store.committed.categories.is_empty());
    assert!(store.committed.methods.is_empty());
    let mut same_day = transfer("cash");
    same_day.posted_date = Some(date(2022, 10, 6));
    assert_eq!(
        store.create_transaction(same_day).unwrap().posted_date,
        Some(date(2022, 10, 6))
    );
    let mut later = transfer("cash");
    later.posted_date = Some(date(2023, 1, 1));
    assert!(store.create_transaction(later).is_ok());
}

#[test]
fn a_check_number_needs_a_debit_account() {
    let mut store = Store::default();
    let mut args = transfer("check");
    args.check_number = Some(1001);
    args.debit_account = None;
    assert!(matches!(
        store.create_transaction(args),
        Err(Error::Validation(Invalid::CheckNumberWithoutDebitAccount))
    ));
    assert!(store.committed.transactions.is_empty());
    assert!(store.committed.methods.is_empty());
    let mut both = transfer("check");
    both.check_number = Some(1001);
    both.debit_account = None;
    both.posted_date = Some(date(2022, 1, 1));
    assert!(matches!(
        store.create_transaction(both),
        Err(Error::Validation(Invalid::PostedBeforeDate))
    ));
    let mut none = transfer("check");
    none.debit_account = None;
    assert!(store.create_transaction(none).is_ok());
}

#[test]
fn a_check_number_is_recorded_once_for_a_debit_account() {
    let mut store = Store::default();
    let mut first = transfer("check");
    first.check_number = Some(1001);
    let first = store.create_transaction(first).unwrap();
    assert_eq!(first.check_number, Some(1001));
    let mut second = transfer("check");
    second.check_number = Some(1001);
    second.category = "Rent".to_string();
    assert!(matches!(
        store.create_transaction(second),
        Err(Error::Validation(Invalid::DuplicateCheckNumber))
    ));
    assert_eq!(store.committed.transactions.len(), 1);
    assert!(store.committed.categories.is_empty());
    let mut other_number = transfer("check");
    other_number.check_number = Some(1002);
    assert!(store.create_transaction(other_number).is_ok());
    let mut other_account = transfer("check");
    other_account.check_number = Some(1001);
    other_account.debit_account = Some(2);
    assert!(store.create_transaction(other_account).is_ok());
    assert_eq!(store.committed.transactions.len(), 3);
}

#[test]
fn a_failure_inside_the_creation_of_a_transaction_rolls_back() {
    for operation in [
        Operation::InsertTag(TagKind::Category),
        Operation::InsertTag(TagKind::Method),
        Operation::InsertTransaction,
        Operation::Commit,
    ] {
        let mut store = Store::default();
        store.fail_at = Some(operation);
        let mut args = transfer("cash");
        args.category = "Rent".to_string();
        match store.create_transaction(args) {
            Err(Error::Storage(failed)) => assert_eq!(failed, operation),
            other => panic!("unexpected result {other:?}"),
        }
        assert_eq!(store.log.last(), Some(&Operation::Rollback));
        assert!(store.pending.is_none());
        assert!(store.committed.transactions.is_empty());
        assert!(store.committed.categories.is_empty());
        assert!(store.committed.methods.is_empty());
    }
    let mut store = Store::default();
    store.fail_at = Some(Operation::FetchTransaction);
    assert!(matches!(
        store.create_transaction(transfer("cash")),
        Err(Error::Storage(Operation::FetchTransaction))
    ));
    assert_eq!(store.committed.transactions.len(), 1);
}

#[test]
fn replies_that_a_creation_does_not_expect() {
    let (creation, _) = create_transaction(transfer(""));
    let (creation, step) = creation.advance(Reply::Done);
    assert!(matches!(step, Step::Run(Command::InsertTransaction { .. })));
    let (creation, step) = creation.advance(Reply::Rejected(Constraint::Check));
    assert!(matches!(step, Step::Run(Command::Rollback)));
    let (creation, step) = creation.advance(Reply::Failed);
    assert!(matches!(step, Step::Done(Err(Error::Validation(Invalid::Refused)))));
    let (_, step) = creation.advance(Reply::Done);
    assert!(matches!(step, Step::Done(Err(Error::Storage(Operation::Finished)))));
    let (creation, _) = create_transaction(transfer(""));
    let (creation, _) = creation.advance(Reply::Done);
    let (creation, _) = creation.advance(Reply::Rejected(Constraint::Reference));
    let (_, step) = creation.advance(Reply::Done);
    assert!(matches!(step, Step::Done(Err(Error::Validation(Invalid::Refused)))));
    let (creation, _) = create_transaction(transfer(""));
    let (creation, _) = creation.advance(Reply::Done);
    let (creation, _) = creation.advance(Reply::Inserted(4));
    let (creation, step) = creation.advance(Reply::Done);
    assert!(matches!(step, Step::Run(Command::FetchTransaction { id: 4 })));
    let (_, step) = creation.advance(Reply::Malformed);
    assert!(matches!(step, Step::Done(Err(Error::Validation(Invalid::MalformedDecimal)))));
    let (creation, _) = create_account("A".to_string(), usd(), "B".to_string());
    let (creation, _) = creation.advance(Reply::Done);
    let (creation, _) = creation.advance(Reply::Inserted(1));
    let (creation, _) = creation.advance(Reply::Inserted(1));
    let (creation, step) = creation.advance(Reply::Ignored);
    assert!(matches!(step, Step::Run(Command::Rollback)));
    let (creation, step) = creation.advance(Reply::Done);
    assert!(matches!(step, Step::Run(Command::FetchAccount { .. })));
    let (_, step) = creation.advance(Reply::Missing);
    assert!(matches!(step, Step::Done(Err(Error::NotFound(Operation::FetchAccount)))));
}

#[test]
fn new_arguments_name_both_accounts_and_nothing_else() {
    let args = transfer("cash");
    assert_eq!(args.date, date(2022, 10, 6));
    assert_eq!(args.posted_date, None);
    assert_eq!(args.category, "");
    assert_eq!(args.amount, Decimal::new(5, 0));
    assert_eq!(args.debit_account, Some(1));
    assert_eq!(args.credit_account, Some(2));
    assert_eq!(args.authority, "");
    assert_eq!(args.description, "");
    assert_eq!(args.method, "cash");
    assert_eq!(args.check_number, None);
}
