use roolah::date::Date;
use roolah::decimal::Decimal;
use roolah::error::{Error, Invalid, Operation};
use roolah::finance::usd;
use roolah::model::{
    Account, AccountRow, AccountType, Category, CurrencyRecord, CurrencyRow, DbCurrencyFormat, Method,
    Tag, Transaction, TransactionRow,
};
use std::collections::hash_map::DefaultHasher;
use std::collections::HashSet;
use std::hash::{Hash, Hasher};

fn hash_of<T: Hash>(value: &T) -> u64 {
    let mut hasher = DefaultHasher::new();
    value.hash(&mut hasher);
    hasher.finish()
}

fn tag(id: i64, name: &str) -> Tag {
    Tag { id, name: name.to_string() }
}

fn currency_row() -> CurrencyRow {
    CurrencyRow {
        currency_id: Some(7),
        id: Some(3),
        symbol: "$".to_string(),
        currency_name: Some("U.S. Dollar".to_string()),
        name: Some("My Checking".to_string()),
        precision: 2,
        thousand_separator: ",".to_string(),
        decimal_separator: ".".to_string(),
    }
}

fn account_row() -> AccountRow {
    AccountRow {
        id: 3,
        name: "My Checking".to_string(),
        currency: currency_row(),
        balance: "12.50".to_string(),
        posted_balance: "0".to_string(),
        account_type: 4,
        account_type_name: "Checking".to_string(),
    }
}

fn transaction_row() -> TransactionRow {
    TransactionRow {
        id: 11,
        date: Date::new(2022, 10, 6).unwrap(),
        posted_date: Some(Date::new(2022, 10, 8).unwrap()),
        category_id: Some(2),
        category_name: Some("Groceries".to_string()),
        amount: "5.00".to_string(),
        debit_account: Some(1),
        credit_account: None,
        authority: "bank".to_string(),
        description: "deposit".to_string(),
        method_id: Some(9),
        method_name: Some("transfer".to_string()),
        check_number: Some(1001),
    }
}

#[test]
fn tags_are_equal_where_their_keys_are() {
    assert_eq!(tag(1, "Checking"), tag(1, "Savings"));
    assert_ne!(tag(1, "Checking"), tag(2, "Checking"));
    assert_eq!(hash_of(&tag(1, "Checking")), hash_of(&tag(1, "Savings")));
    assert_ne!(hash_of(&tag(1, "Checking")), hash_of(&tag(2, "Checking")));
    let mut set = HashSet::new();
    set.insert(tag(1, "Checking"));
    set.insert(tag(1, "Savings"));
    set.insert(tag(2, "Checking"));
    assert_eq!(set.len(), 2);
    assert_eq!(tag(5, "Cash").to_string(), "Cash");
    let copy = tag(5, "Cash").clone();
    assert_eq!((copy.id, copy.name.as_str()), (5, "Cash"));
}

#[test]
fn account_types_categories_and_methods_wrap_a_tag() {
    let t = AccountType::new(4, "Checking".to_string());
    assert_eq!(t.tag.id, 4);
    assert_eq!(t.tag.name, "Checking");
    assert_eq!(t.to_string(), "Checking");
    assert_eq!(t, AccountType::from(tag(4, "Other")));
    assert_ne!(t, AccountType::new(5, "Checking".to_string()));
    assert_eq!(hash_of(&t), hash_of(&AccountType::new(4, "Other".to_string())));
    let c = Category::from(tag(2, "Groceries"));
    assert_eq!(c.to_string(), "Groceries");
    assert_eq!(c, Category { tag: tag(2, "Rent") });
    assert_ne!(c, Category { tag: tag(3, "Groceries") });
    let m = Method::from(tag(9, "transfer"));
    assert_eq!(m.to_string(), "transfer");
    assert_eq!(m, Method { tag: tag(9, "cash") });
    assert_ne!(m, Method { tag: tag(8, "transfer") });
    assert_eq!(c.clone().tag.name, "Groceries");
    assert_eq!(m.clone().tag.id, 9);
}

#[test]
fn currency_rows_prefer_the_columns_of_the_view() {
    let record = CurrencyRecord::from_row(currency_row()).unwrap();
    assert_eq!(record.id, 7);
    assert_eq!(record.format, usd());
    let mut table_row = currency_row();
    table_row.currency_id = None;
    table_row.currency_name = None;
    table_row.name = Some("U.S. Dollar".to_string());
    let record = CurrencyRecord::from_row(table_row).unwrap();
    assert_eq!(record.id, 3);
    assert_eq!(record.format, usd());
    let format = DbCurrencyFormat::from_row(currency_row()).unwrap();
    assert_eq!(format.0, usd());
}

#[test]
fn currency_rows_without_key_or_name_fail() {
    let mut no_key = currency_row();
    no_key.currency_id = None;
    no_key.id = None;
    assert!(matches!(
        CurrencyRecord::from_row(no_key),
        Err(Error::Storage(Operation::FetchCurrency))
    ));
    let mut no_name = currency_row();
    no_name.currency_name = None;
    no_name.name = None;
    assert!(matches!(
        CurrencyRecord::from_row(no_name),
        Err(Error::Storage(Operation::FetchCurrency))
    ));
    let mut no_name = currency_row();
    no_name.currency_name = None;
    no_name.name = None;
    assert!(matches!(
        DbCurrencyFormat::from_row(no_name),
        Err(Error::Storage(Operation::FetchCurrency))
    ));
}

#[test]
fn currency_records_are_equal_where_their_keys_are() {
    let a = CurrencyRecord { id: 1, format: usd() };
    let mut other = usd();
    other.precision = 3;
    let b = CurrencyRecord { id: 1, format: other };
    let c = CurrencyRecord { id: 2, format: usd() };
    assert_eq!(a, b);
    assert_ne!(a, c);
    assert_eq!(hash_of(&a), hash_of(&b));
    assert_eq!(a.clone().format, usd());
}

#[test]
fn account_rows_are_read_with_their_balances() {
    let account = Account::from_row(account_row()).unwrap();
    assert_eq!(account.id, 3);
    assert_eq!(account.name, "My Checking");
    assert_eq!(account.currency.id, 7);
    assert_eq!(account.currency.format, usd());
    assert_eq!(account.balance, Decimal::new(125, 1));
    assert_eq!(account.balance.scale(), 2);
    assert!(account.posted_balance.is_zero());
    assert_eq!(account.account_type.tag.id, 4);
    assert_eq!(account.account_type.tag.name, "Checking");
    assert_eq!(account.to_string(), "My Checking: $ 12.50");
    let copy = account.clone();
    assert_eq!(copy.name, "My Checking");
    assert_eq!(copy.balance.mantissa(), 1250);
}

#[test]
fn account_rows_with_malformed_balances_are_rejected() {
    let mut bad = account_row();
    bad.balance = "twelve".to_string();
    assert!(matches!(Account::from_row(bad), Err(Error::Validation(Invalid::MalformedDecimal))));
    let mut bad = account_row();
    bad.posted_balance = "".to_string();
    assert!(matches!(Account::from_row(bad), Err(Error::Validation(Invalid::MalformedDecimal))));
    let mut bad = account_row();
    bad.currency.currency_id = None;
    bad.currency.id = None;
    assert!(matches!(Account::from_row(bad), Err(Error::Storage(Operation::FetchCurrency))));
}

#[test]
fn accounts_are_equal_where_their_keys_are() {
    let a = Account::from_row(account_row()).unwrap();
    let mut row = account_row();
    row.name = "Other".to_string();
    row.balance = "99".to_string();
    let b = Account::from_row(row).unwrap();
    let mut row = account_row();
    row.id = 4;
    let c = Account::from_row(row).unwrap();
    assert_eq!(a, b);
    assert_ne!(a, c);
    assert_eq!(hash_of(&a), hash_of(&b));
    assert_ne!(hash_of(&a), hash_of(&c));
}

#[test]
fn negative_balances_are_shown_in_parentheses() {
    let mut row = account_row();
    row.balance = "-1234.565".to_string();
    let account = Account::from_row(row).unwrap();
    assert_eq!(account.to_string(), "My Checking: $ (1,234.56)");
}

#[test]
fn transaction_rows_are_read_with_category_and_method() {
    let t = Transaction::from_row(transaction_row()).unwrap();
    assert_eq!(t.id, 11);
    assert_eq!(t.date, Date::new(2022, 10, 6).unwrap());
    assert_eq!(t.posted_date, Some(Date::new(2022, 10, 8).unwrap()));
    let category = t.category.clone().unwrap();
    assert_eq!((category.tag.id, category.tag.name.as_str()), (2, "Groceries"));
    assert_eq!(t.amount, Decimal::new(5, 0));
    assert_eq!(t.amount.scale(), 2);
    assert_eq!(t.debit_account, Some(1));
    assert_eq!(t.credit_account, None);
    assert_eq!(t.authority, "bank");
    assert_eq!(t.description, "deposit");
    let method = t.method.clone().unwrap();
    assert_eq!((method.tag.id, method.tag.name.as_str()), (9, "transfer"));
    assert_eq!(t.check_number, Some(1001));
    let copy = t.clone();
    assert_eq!(copy.description, "deposit");
    assert_eq!(copy.category, t.category);
}

#[test]
fn a_category_needs_both_its_key_and_its_name() {
    let mut row = transaction_row();
    row.category_name = None;
    row.method_id = None;
    let t = Transaction::from_row(row).unwrap();
    assert_eq!(t.category, None);
    assert_eq!(t.method, None);
    let mut row = transaction_row();
    row.category_id = None;
    row.method_name = None;
    let t = Transaction::from_row(row).unwrap();
    assert_eq!(t.category, None);
    assert_eq!(t.method, None);
    let mut row = transaction_row();
    row.category_id = None;
    row.category_name = None;
    let t = Transaction::from_row(row).unwrap();
    assert_eq!(t.category, None);
    assert!(t.method.is_some());
}

#[test]
fn transaction_rows_with_malformed_amounts_are_rejected() {
    let mut row = transaction_row();
    row.amount = "5,00".to_string();
    assert!(matches!(
        Transaction::from_row(row),
        Err(Error::Validation(Invalid::MalformedDecimal))
    ));
}

#[test]
fn transactions_are_equal_where_their_keys_are() {
    let a = Transaction::from_row(transaction_row()).unwrap();
    let mut row = transaction_row();
    row.amount = "6".to_string();
    let b = Transaction::from_row(row).unwrap();
    let mut row = transaction_row();
    row.id = 12;
    let c = Transaction::from_row(row).unwrap();
    assert_eq!(a, b);
    assert_ne!(a, c);
    assert_eq!(hash_of(&a), hash_of(&b));
}

#[test]
fn errors_say_what_went_wrong() {
    let account = Account::from_row(account_row()).unwrap();
    assert_eq!(
        Error::CurrencyAlreadyExists(account.currency.clone()).message(),
        "existing currency has the same name"
    );
    assert_eq!(
        Error::AccountAlreadyExists(account).message(),
        "existing account has the same name"
    );
    assert_eq!(
        Error::Validation(Invalid::EmptyName).message(),
        "the input breaks a rule of the ledger"
    );
    assert_eq!(Error::NotFound(Operation::FetchAccount).message(), "no row matches");
    assert_eq!(Error::Storage(Operation::Commit).message(), "the storage failed");
}

#[test]
fn the_text_of_a_transaction() {
    let t = Transaction::from_row(transaction_row()).unwrap();
    assert_eq!(t.to_string(), "5.00 on 2022-10-06");
    let mut row = transaction_row();
    row.description = String::new();
    row.amount = "-12.5".to_string();
    let t = Transaction::from_row(row).unwrap();
    assert_eq!(t.to_string(), "-12.5 on 2022-10-06, \"\"");
}
