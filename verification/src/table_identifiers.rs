//! The tables, views and columns of the persisted schema.

use vstd::prelude::*;
use crate::column_enum::{lemma_snake_case_word, snake_case_of, ColumnEnum};
use crate::model::TagKind;

verus! {

/// The table of account types.
pub const ACCOUNT_TYPES: &'static str = "account_types";

/// The table of accounts.
pub const ACCOUNTS: &'static str = "accounts";

/// The view that joins each account with its currency and its type.
pub const ACCOUNTS_WITH_CURRENCY_AND_TYPE: &'static str = "accounts_with_currency_and_type";

/// The table of categories.
pub const CATEGORIES: &'static str = "categories";

/// The table of currencies.
pub const CURRENCIES: &'static str = "currencies";

/// The table of methods.
pub const METHODS: &'static str = "methods";

/// The table of transactions.
pub const TRANSACTIONS: &'static str = "transactions";

/// The view that joins each transaction with its category and its method.
pub const TRANSACTIONS_WITH_CATEGORY_AND_METHOD: &'static str =
    "transactions_with_category_and_method";

/// `Id` in snake case is `id`.
proof fn lemma_id()
    ensures
        snake_case_of("Id"@) == "id"@,
{
    reveal_strlit("Id");
    reveal_strlit("id");
    lemma_snake_case_word(Seq::<char>::empty(), "Id"@);
    assert(Seq::<char>::empty() + "Id"@ =~= "Id"@);
    assert(snake_case_of("Id"@) =~= "id"@);
}

/// `Name` in snake case is `name`.
proof fn lemma_name()
    ensures
        snake_case_of("Name"@) == "name"@,
{
    reveal_strlit("Name");
    reveal_strlit("name");
    lemma_snake_case_word(Seq::<char>::empty(), "Name"@);
    assert(Seq::<char>::empty() + "Name"@ =~= "Name"@);
    assert(snake_case_of("Name"@) =~= "name"@);
}

/// `Currency` in snake case is `currency`.
proof fn lemma_currency()
    ensures
        snake_case_of("Currency"@) == "currency"@,
{
    reveal_strlit("Currency");
    reveal_strlit("currency");
    lemma_snake_case_word(Seq::<char>::empty(), "Currency"@);
    assert(Seq::<char>::empty() + "Currency"@ =~= "Currency"@);
    assert(snake_case_of("Currency"@) =~= "currency"@);
}

/// `Balance` in snake case is `balance`.
proof fn lemma_balance()
    ensures
        snake_case_of("Balance"@) == "balance"@,
{
    reveal_strlit("Balance");
    reveal_strlit("balance");
    lemma_snake_case_word(Seq::<char>::empty(), "Balance"@);
    assert(Seq::<char>::empty() + "Balance"@ =~= "Balance"@);
    assert(snake_case_of("Balance"@) =~= "balance"@);
}

/// `PostedBalance` in snake case is `posted_balance`.
proof fn lemma_posted_balance()
    ensures
        snake_case_of("PostedBalance"@) == "posted_balance"@,
{
    reveal_strlit("PostedBalance");
    reveal_strlit("posted_balance");
    reveal_strlit("Posted");
    reveal_strlit("Balance");
    lemma_snake_case_word(Seq::<char>::empty(), "Posted"@);
    assert(Seq::<char>::empty() + "Posted"@ =~= "Posted"@);
    lemma_snake_case_word("Posted"@, "Balance"@);
    assert("Posted"@ + "Balance"@ =~= "PostedBalance"@);
    assert(snake_case_of("PostedBalance"@) =~= "posted_balance"@);
}

/// `AccountType` in snake case is `account_type`.
proof fn lemma_account_type()
    ensures
        snake_case_of("AccountType"@) == "account_type"@,
{
    reveal_strlit("AccountType");
    reveal_strlit("account_type");
    reveal_strlit("Account");
    reveal_strlit("Type");
    lemma_snake_case_word(Seq::<char>::empty(), "Account"@);
    assert(Seq::<char>::empty() + "Account"@ =~= "Account"@);
    lemma_snake_case_word("Account"@, "Type"@);
    assert("Account"@ + "Type"@ =~= "AccountType"@);
    assert(snake_case_of("AccountType"@) =~= "account_type"@);
}

/// `CurrencyId` in snake case is `currency_id`.
proof fn lemma_currency_id()
    ensures
        snake_case_of("CurrencyId"@) == "currency_id"@,
{
    reveal_strlit("CurrencyId");
    reveal_strlit("currency_id");
    reveal_strlit("Currency");
    reveal_strlit("Id");
    lemma_snake_case_word(Seq::<char>::empty(), "Currency"@);
    assert(Seq::<char>::empty() + "Currency"@ =~= "Currency"@);
    lemma_snake_case_word("Currency"@, "Id"@);
    assert("Currency"@ + "Id"@ =~= "CurrencyId"@);
    assert(snake_case_of("CurrencyId"@) =~= "currency_id"@);
}

/// `AccountTypeId` in snake case is `account_type_id`.
proof fn lemma_account_type_id()
    ensures
        snake_case_of("AccountTypeId"@) == "account_type_id"@,
{
    reveal_strlit("AccountTypeId");
    reveal_strlit("AccountType");
    reveal_strlit("account_type_id");
    reveal_strlit("Account");
    reveal_strlit("Type");
    reveal_strlit("Id");
    lemma_snake_case_word(Seq::<char>::empty(), "Account"@);
    assert(Seq::<char>::empty() + "Account"@ =~= "Account"@);
    lemma_snake_case_word("Account"@, "Type"@);
    assert("Account"@ + "Type"@ =~= "AccountType"@);
    lemma_snake_case_word("AccountType"@, "Id"@);
    assert("AccountType"@ + "Id"@ =~= "AccountTypeId"@);
    assert(snake_case_of("AccountTypeId"@) =~= "account_type_id"@);
}

/// `Symbol` in snake case is `symbol`.
proof fn lemma_symbol()
    ensures
        snake_case_of("Symbol"@) == "symbol"@,
{
    reveal_strlit("Symbol");
    reveal_strlit("symbol");
    lemma_snake_case_word(Seq::<char>::empty(), "Symbol"@);
    assert(Seq::<char>::empty() + "Symbol"@ =~= "Symbol"@);
    assert(snake_case_of("Symbol"@) =~= "symbol"@);
}

/// `CurrencyName` in snake case is `currency_name`.
proof fn lemma_currency_name()
    ensures
        snake_case_of("CurrencyName"@) == "currency_name"@,
{
    reveal_strlit("CurrencyName");
    reveal_strlit("currency_name");
    reveal_strlit("Currency");
    reveal_strlit("Name");
    lemma_snake_case_word(Seq::<char>::empty(), "Currency"@);
    assert(Seq::<char>::empty() + "Currency"@ =~= "Currency"@);
    lemma_snake_case_word("Currency"@, "Name"@);
    assert("Currency"@ + "Name"@ =~= "CurrencyName"@);
    assert(snake_case_of("CurrencyName"@) =~= "currency_name"@);
}

/// `Precision` in snake case is `precision`.
proof fn lemma_precision()
    ensures
        snake_case_of("Precision"@) == "precision"@,
{
    reveal_strlit("Precision");
    reveal_strlit("precision");
    lemma_snake_case_word(Seq::<char>::empty(), "Precision"@);
    assert(Seq::<char>::empty() + "Precision"@ =~= "Precision"@);
    assert(snake_case_of("Precision"@) =~= "precision"@);
}

/// `ThousandSeparator` in snake case is `thousand_separator`.
proof fn lemma_thousand_separator()
    ensures
        snake_case_of("ThousandSeparator"@) == "thousand_separator"@,
{
    reveal_strlit("ThousandSeparator");
    reveal_strlit("thousand_separator");
    reveal_strlit("Thousand");
    reveal_strlit("Separator");
    lemma_snake_case_word(Seq::<char>::empty(), "Thousand"@);
    assert(Seq::<char>::empty() + "Thousand"@ =~= "Thousand"@);
    lemma_snake_case_word("Thousand"@, "Separator"@);
    assert("Thousand"@ + "Separator"@ =~= "ThousandSeparator"@);
    assert(snake_case_of("ThousandSeparator"@) =~= "thousand_separator"@);
}

/// `DecimalSeparator` in snake case is `decimal_separator`.
proof fn lemma_decimal_separator()
    ensures
        snake_case_of("DecimalSeparator"@) == "decimal_separator"@,
{
    reveal_strlit("DecimalSeparator");
    reveal_strlit("decimal_separator");
    reveal_strlit("Decimal");
    reveal_strlit("Separator");
    lemma_snake_case_word(Seq::<char>::empty(), "Decimal"@);
    assert(Seq::<char>::empty() + "Decimal"@ =~= "Decimal"@);
    lemma_snake_case_word("Decimal"@, "Separator"@);
    assert("Decimal"@ + "Separator"@ =~= "DecimalSeparator"@);
    assert(snake_case_of("DecimalSeparator"@) =~= "decimal_separator"@);
}

/// `AccountTypeName` in snake case is `account_type_name`.
proof fn lemma_account_type_name()
    ensures
        snake_case_of("AccountTypeName"@) == "account_type_name"@,
{
    reveal_strlit("AccountTypeName");
    reveal_strlit("AccountType");
    reveal_strlit("account_type_name");
    reveal_strlit("Account");
    reveal_strlit("Type");
    reveal_strlit("Name");
    lemma_snake_case_word(Seq::<char>::empty(), "Account"@);
    assert(Seq::<char>::empty() + "Account"@ =~= "Account"@);
    lemma_snake_case_word("Account"@, "Type"@);
    assert("Account"@ + "Type"@ =~= "AccountType"@);
    lemma_snake_case_word("AccountType"@, "Name"@);
    assert("AccountType"@ + "Name"@ =~= "AccountTypeName"@);
    assert(snake_case_of("AccountTypeName"@) =~= "account_type_name"@);
}

/// `CategoryId` in snake case is `category_id`.
proof fn lemma_category_id()
    ensures
        snake_case_of("CategoryId"@) == "category_id"@,
{
    reveal_strlit("CategoryId");
    reveal_strlit("category_id");
    reveal_strlit("Category");
    reveal_strlit("Id");
    lemma_snake_case_word(Seq::<char>::empty(), "Category"@);
    assert(Seq::<char>::empty() + "Category"@ =~= "Category"@);
    lemma_snake_case_word("Category"@, "Id"@);
    assert("Category"@ + "Id"@ =~= "CategoryId"@);
    assert(snake_case_of("CategoryId"@) =~= "category_id"@);
}

/// `CategoryName` in snake case is `category_name`.
proof fn lemma_category_name()
    ensures
        snake_case_of("CategoryName"@) == "category_name"@,
{
    reveal_strlit("CategoryName");
    reveal_strlit("category_name");
    reveal_strlit("Category");
    reveal_strlit("Name");
    lemma_snake_case_word(Seq::<char>::empty(), "Category"@);
    assert(Seq::<char>::empty() + "Category"@ =~= "Category"@);
    lemma_snake_case_word("Category"@, "Name"@);
    assert("Category"@ + "Name"@ =~= "CategoryName"@);
    assert(snake_case_of("CategoryName"@) =~= "category_name"@);
}

/// `MethodId` in snake case is `method_id`.
proof fn lemma_method_id()
    ensures
        snake_case_of("MethodId"@) == "method_id"@,
{
    reveal_strlit("MethodId");
    reveal_strlit("method_id");
    reveal_strlit("Method");
    reveal_strlit("Id");
    lemma_snake_case_word(Seq::<char>::empty(), "Method"@);
    assert(Seq::<char>::empty() + "Method"@ =~= "Method"@);
    lemma_snake_case_word("Method"@, "Id"@);
    assert("Method"@ + "Id"@ =~= "MethodId"@);
    assert(snake_case_of("MethodId"@) =~= "method_id"@);
}

/// `MethodName` in snake case is `method_name`.
proof fn lemma_method_name()
    ensures
        snake_case_of("MethodName"@) == "method_name"@,
{
    reveal_strlit("MethodName");
    reveal_strlit("method_name");
    reveal_strlit("Method");
    reveal_strlit("Name");
    lemma_snake_case_word(Seq::<char>::empty(), "Method"@);
    assert(Seq::<char>::empty() + "Method"@ =~= "Method"@);
    lemma_snake_case_word("Method"@, "Name"@);
    assert("Method"@ + "Name"@ =~= "MethodName"@);
    assert(snake_case_of("MethodName"@) =~= "method_name"@);
}

/// `Date` in snake case is `date`.
proof fn lemma_date()
    ensures
        snake_case_of("Date"@) == "date"@,
{
    reveal_strlit("Date");
    reveal_strlit("date");
    lemma_snake_case_word(Seq::<char>::empty(), "Date"@);
    assert(Seq::<char>::empty() + "Date"@ =~= "Date"@);
    assert(snake_case_of("Date"@) =~= "date"@);
}

/// `PostedDate` in snake case is `posted_date`.
proof fn lemma_posted_date()
    ensures
        snake_case_of("PostedDate"@) == "posted_date"@,
{
    reveal_strlit("PostedDate");
    reveal_strlit("posted_date");
    reveal_strlit("Posted");
    reveal_strlit("Date");
    lemma_snake_case_word(Seq::<char>::empty(), "Posted"@);
    assert(Seq::<char>::empty() + "Posted"@ =~= "Posted"@);
    lemma_snake_case_word("Posted"@, "Date"@);
    assert("Posted"@ + "Date"@ =~= "PostedDate"@);
    assert(snake_case_of("PostedDate"@) =~= "posted_date"@);
}

/// `Amount` in snake case is `amount`.
proof fn lemma_amount()
    ensures
        snake_case_of("Amount"@) == "amount"@,
{
    reveal_strlit("Amount");
    reveal_strlit("amount");
    lemma_snake_case_word(Seq::<char>::empty(), "Amount"@);
    assert(Seq::<char>::empty() + "Amount"@ =~= "Amount"@);
    assert(snake_case_of("Amount"@) =~= "amount"@);
}

/// `DebitAccount` in snake case is `debit_account`.
proof fn lemma_debit_account()
    ensures
        snake_case_of("DebitAccount"@) == "debit_account"@,
{
    reveal_strlit("DebitAccount");
    reveal_strlit("debit_account");
    reveal_strlit("Debit");
    reveal_strlit("Account");
    lemma_snake_case_word(Seq::<char>::empty(), "Debit"@);
    assert(Seq::<char>::empty() + "Debit"@ =~= "Debit"@);
    lemma_snake_case_word("Debit"@, "Account"@);
    assert("Debit"@ + "Account"@ =~= "DebitAccount"@);
    assert(snake_case_of("DebitAccount"@) =~= "debit_account"@);
}

/// `CreditAccount` in snake case is `credit_account`.
proof fn lemma_credit_account()
    ensures
        snake_case_of("CreditAccount"@) == "credit_account"@,
{
    reveal_strlit("CreditAccount");
    reveal_strlit("credit_account");
    reveal_strlit("Credit");
    reveal_strlit("Account");
    lemma_snake_case_word(Seq::<char>::empty(), "Credit"@);
    assert(Seq::<char>::empty() + "Credit"@ =~= "Credit"@);
    lemma_snake_case_word("Credit"@, "Account"@);
    assert("Credit"@ + "Account"@ =~= "CreditAccount"@);
    assert(snake_case_of("CreditAccount"@) =~= "credit_account"@);
}

/// `Authority` in snake case is `authority`.
proof fn lemma_authority()
    ensures
        snake_case_of("Authority"@) == "authority"@,
{
    reveal_strlit("Authority");
    reveal_strlit("authority");
    lemma_snake_case_word(Seq::<char>::empty(), "Authority"@);
    assert(Seq::<char>::empty() + "Authority"@ =~= "Authority"@);
    assert(snake_case_of("Authority"@) =~= "authority"@);
}

/// `Description` in snake case is `description`.
proof fn lemma_description()
    ensures
        snake_case_of("Description"@) == "description"@,
{
    reveal_strlit("Description");
    reveal_strlit("description");
    lemma_snake_case_word(Seq::<char>::empty(), "Description"@);
    assert(Seq::<char>::empty() + "Description"@ =~= "Description"@);
    assert(snake_case_of("Description"@) =~= "description"@);
}

/// `CheckNumber` in snake case is `check_number`.
proof fn lemma_check_number()
    ensures
        snake_case_of("CheckNumber"@) == "check_number"@,
{
    reveal_strlit("CheckNumber");
    reveal_strlit("check_number");
    reveal_strlit("Check");
    reveal_strlit("Number");
    lemma_snake_case_word(Seq::<char>::empty(), "Check"@);
    assert(Seq::<char>::empty() + "Check"@ =~= "Check"@);
    lemma_snake_case_word("Check"@, "Number"@);
    assert("Check"@ + "Number"@ =~= "CheckNumber"@);
    assert(snake_case_of("CheckNumber"@) =~= "check_number"@);
}

/// The columns of the account types table.
#[derive(Clone, Copy, Debug, PartialEq, Eq, Hash, Structural)]
pub enum AccountTypesColumn {
    Id,
    Name,
}

impl ColumnEnum for AccountTypesColumn {
    open spec fn variant(&self) -> Seq<char> {
        match self {
            AccountTypesColumn::Id => "Id"@,
            AccountTypesColumn::Name => "Name"@,
        }
    }

    fn name(&self) -> (name: &'static str)
        ensures
            name@ == snake_case_of(self.variant()),
    {
        proof {
            lemma_id();
            lemma_name();
        }
        match self {
            AccountTypesColumn::Id => "id",
            AccountTypesColumn::Name => "name",
        }
    }
}

/// The columns of the accounts table.
#[derive(Clone, Copy, Debug, PartialEq, Eq, Hash, Structural)]
pub enum AccountsColumn {
    Id,
    Name,
    Currency,
    Balance,
    PostedBalance,
    AccountType,
}

impl ColumnEnum for AccountsColumn {
    open spec fn variant(&self) -> Seq<char> {
        match self {
            AccountsColumn::Id => "Id"@,
            AccountsColumn::Name => "Name"@,
            AccountsColumn::Currency => "Currency"@,
            AccountsColumn::Balance => "Balance"@,
            AccountsColumn::PostedBalance => "PostedBalance"@,
            AccountsColumn::AccountType => "AccountType"@,
        }
    }

    fn name(&self) -> (name: &'static str)
        ensures
            name@ == snake_case_of(self.variant()),
    {
        proof {
            lemma_id();
            lemma_name();
            lemma_currency();
            lemma_balance();
            lemma_posted_balance();
            lemma_account_type();
        }
        match self {
            AccountsColumn::Id => "id",
            AccountsColumn::Name => "name",
            AccountsColumn::Currency => "currency",
            AccountsColumn::Balance => "balance",
            AccountsColumn::PostedBalance => "posted_balance",
            AccountsColumn::AccountType => "account_type",
        }
    }
}

/// The columns of the view of the accounts with their currency and type.
#[derive(Clone, Copy, Debug, PartialEq, Eq, Hash, Structural)]
pub enum AccountsWithCurrencyAndTypeColumn {
    Id,
    Name,
    CurrencyId,
    Balance,
    PostedBalance,
    AccountTypeId,
    Symbol,
    CurrencyName,
    Precision,
    ThousandSeparator,
    DecimalSeparator,
    AccountTypeName,
}

impl ColumnEnum for AccountsWithCurrencyAndTypeColumn {
    open spec fn variant(&self) -> Seq<char> {
        match self {
            AccountsWithCurrencyAndTypeColumn::Id => "Id"@,
            AccountsWithCurrencyAndTypeColumn::Name => "Name"@,
            AccountsWithCurrencyAndTypeColumn::CurrencyId => "CurrencyId"@,
            AccountsWithCurrencyAndTypeColumn::Balance => "Balance"@,
            AccountsWithCurrencyAndTypeColumn::PostedBalance => "PostedBalance"@,
            AccountsWithCurrencyAndTypeColumn::AccountTypeId => "AccountTypeId"@,
            AccountsWithCurrencyAndTypeColumn::Symbol => "Symbol"@,
            AccountsWithCurrencyAndTypeColumn::CurrencyName => "CurrencyName"@,
            AccountsWithCurrencyAndTypeColumn::Precision => "Precision"@,
            AccountsWithCurrencyAndTypeColumn::ThousandSeparator => "ThousandSeparator"@,
            AccountsWithCurrencyAndTypeColumn::DecimalSeparator => "DecimalSeparator"@,
            AccountsWithCurrencyAndTypeColumn::AccountTypeName => "AccountTypeName"@,
        }
    }

    fn name(&self) -> (name: &'static str)
        ensures
            name@ == snake_case_of(self.variant()),
    {
        proof {
            lemma_id();
            lemma_name();
            lemma_currency_id();
            lemma_balance();
            lemma_posted_balance();
            lemma_account_type_id();
            lemma_symbol();
            lemma_currency_name();
            lemma_precision();
            lemma_thousand_separator();
            lemma_decimal_separator();
            lemma_account_type_name();
        }
        match self {
            AccountsWithCurrencyAndTypeColumn::Id => "id",
            AccountsWithCurrencyAndTypeColumn::Name => "name",
            AccountsWithCurrencyAndTypeColumn::CurrencyId => "currency_id",
            AccountsWithCurrencyAndTypeColumn::Balance => "balance",
            AccountsWithCurrencyAndTypeColumn::PostedBalance => "posted_balance",
            AccountsWithCurrencyAndTypeColumn::AccountTypeId => "account_type_id",
            AccountsWithCurrencyAndTypeColumn::Symbol => "symbol",
            AccountsWithCurrencyAndTypeColumn::CurrencyName => "currency_name",
            AccountsWithCurrencyAndTypeColumn::Precision => "precision",
            AccountsWithCurrencyAndTypeColumn::ThousandSeparator => "thousand_separator",
            AccountsWithCurrencyAndTypeColumn::DecimalSeparator => "decimal_separator",
            AccountsWithCurrencyAndTypeColumn::AccountTypeName => "account_type_name",
        }
    }
}

/// The columns of the categories table.
#[derive(Clone, Copy, Debug, PartialEq, Eq, Hash, Structural)]
pub enum CategoriesColumn {
    CategoryId,
    CategoryName,
}

impl ColumnEnum for CategoriesColumn {
    open spec fn variant(&self) -> Seq<char> {
        match self {
            CategoriesColumn::CategoryId => "CategoryId"@,
            CategoriesColumn::CategoryName => "CategoryName"@,
        }
    }

    fn name(&self) -> (name: &'static str)
        ensures
            name@ == snake_case_of(self.variant()),
    {
        proof {
            lemma_category_id();
            lemma_category_name();
        }
        match self {
            CategoriesColumn::CategoryId => "category_id",
            CategoriesColumn::CategoryName => "category_name",
        }
    }
}

/// The columns of the currencies table.
#[derive(Clone, Copy, Debug, PartialEq, Eq, Hash, Structural)]
pub enum CurrenciesColumn {
    Id,
    Symbol,
    Name,
    Precision,
    ThousandSeparator,
    DecimalSeparator,
}

impl ColumnEnum for CurrenciesColumn {
    open spec fn variant(&self) -> Seq<char> {
        match self {
            CurrenciesColumn::Id => "Id"@,
            CurrenciesColumn::Symbol => "Symbol"@,
            CurrenciesColumn::Name => "Name"@,
            CurrenciesColumn::Precision => "Precision"@,
            CurrenciesColumn::ThousandSeparator => "ThousandSeparator"@,
            CurrenciesColumn::DecimalSeparator => "DecimalSeparator"@,
        }
    }

    fn name(&self) -> (name: &'static str)
        ensures
            name@ == snake_case_of(self.variant()),
    {
        proof {
            lemma_id();
            lemma_symbol();
            lemma_name();
            lemma_precision();
            lemma_thousand_separator();
            lemma_decimal_separator();
        }
        match self {
            CurrenciesColumn::Id => "id",
            CurrenciesColumn::Symbol => "symbol",
            CurrenciesColumn::Name => "name",
            CurrenciesColumn::Precision => "precision",
            CurrenciesColumn::ThousandSeparator => "thousand_separator",
            CurrenciesColumn::DecimalSeparator => "decimal_separator",
        }
    }
}

/// The columns of the methods table.
#[derive(Clone, Copy, Debug, PartialEq, Eq, Hash, Structural)]
pub enum MethodsColumn {
    MethodId,
    MethodName,
}

impl ColumnEnum for MethodsColumn {
    open spec fn variant(&self) -> Seq<char> {
        match self {
            MethodsColumn::MethodId => "MethodId"@,
            MethodsColumn::MethodName => "MethodName"@,
        }
    }

    fn name(&self) -> (name: &'static str)
        ensures
            name@ == snake_case_of(self.variant()),
    {
        proof {
            lemma_method_id();
            lemma_method_name();
        }
        match self {
            MethodsColumn::MethodId => "method_id",
            MethodsColumn::MethodName => "method_name",
        }
    }
}

/// The columns of the transactions table.
#[derive(Clone, Copy, Debug, PartialEq, Eq, Hash, Structural)]
pub enum TransactionsColumn {
    Id,
    Date,
    PostedDate,
    CategoryId,
    Amount,
    DebitAccount,
    CreditAccount,
    Authority,
    Description,
    MethodId,
    CheckNumber,
}

impl ColumnEnum for TransactionsColumn {
    open spec fn variant(&self) -> Seq<char> {
        match self {
            TransactionsColumn::Id => "Id"@,
            TransactionsColumn::Date => "Date"@,
            TransactionsColumn::PostedDate => "PostedDate"@,
            TransactionsColumn::CategoryId => "CategoryId"@,
            TransactionsColumn::Amount => "Amount"@,
            TransactionsColumn::DebitAccount => "DebitAccount"@,
            TransactionsColumn::CreditAccount => "CreditAccount"@,
            TransactionsColumn::Authority => "Authority"@,
            TransactionsColumn::Description => "Description"@,
            TransactionsColumn::MethodId => "MethodId"@,
            TransactionsColumn::CheckNumber => "CheckNumber"@,
        }
    }

    fn name(&self) -> (name: &'static str)
        ensures
            name@ == snake_case_of(self.variant()),
    {
        proof {
            lemma_id();
            lemma_date();
            lemma_posted_date();
            lemma_category_id();
            lemma_amount();
            lemma_debit_account();
            lemma_credit_account();
            lemma_authority();
            lemma_description();
            lemma_method_id();
            lemma_check_number();
        }
        match self {
            TransactionsColumn::Id => "id",
            TransactionsColumn::Date => "date",
            TransactionsColumn::PostedDate => "posted_date",
            TransactionsColumn::CategoryId => "category_id",
            TransactionsColumn::Amount => "amount",
            TransactionsColumn::DebitAccount => "debit_account",
            TransactionsColumn::CreditAccount => "credit_account",
            TransactionsColumn::Authority => "authority",
            TransactionsColumn::Description => "description",
            TransactionsColumn::MethodId => "method_id",
            TransactionsColumn::CheckNumber => "check_number",
        }
    }
}

/// The columns of the view of the transactions with their category and method.
#[derive(Clone, Copy, Debug, PartialEq, Eq, Hash, Structural)]
pub enum TransactionsWithCategoryAndMethodColumn {
    Id,
    Date,
    PostedDate,
    CategoryId,
    CategoryName,
    Amount,
    DebitAccount,
    CreditAccount,
    Authority,
    Description,
    MethodId,
    MethodName,
    CheckNumber,
}

impl ColumnEnum for TransactionsWithCategoryAndMethodColumn {
    open spec fn variant(&self) -> Seq<char> {
        match self {
            TransactionsWithCategoryAndMethodColumn::Id => "Id"@,
            TransactionsWithCategoryAndMethodColumn::Date => "Date"@,
            TransactionsWithCategoryAndMethodColumn::PostedDate => "PostedDate"@,
            TransactionsWithCategoryAndMethodColumn::CategoryId => "CategoryId"@,
            TransactionsWithCategoryAndMethodColumn::CategoryName => "CategoryName"@,
            TransactionsWithCategoryAndMethodColumn::Amount => "Amount"@,
            TransactionsWithCategoryAndMethodColumn::DebitAccount => "DebitAccount"@,
            TransactionsWithCategoryAndMethodColumn::CreditAccount => "CreditAccount"@,
            TransactionsWithCategoryAndMethodColumn::Authority => "Authority"@,
            TransactionsWithCategoryAndMethodColumn::Description => "Description"@,
            TransactionsWithCategoryAndMethodColumn::MethodId => "MethodId"@,
            TransactionsWithCategoryAndMethodColumn::MethodName => "MethodName"@,
            TransactionsWithCategoryAndMethodColumn::CheckNumber => "CheckNumber"@,
        }
    }

    fn name(&self) -> (name: &'static str)
        ensures
            name@ == snake_case_of(self.variant()),
    {
        proof {
            lemma_id();
            lemma_date();
            lemma_posted_date();
            lemma_category_id();
            lemma_category_name();
            lemma_amount();
            lemma_debit_account();
            lemma_credit_account();
            lemma_authority();
            lemma_description();
            lemma_method_id();
            lemma_method_name();
            lemma_check_number();
        }
        match self {
            TransactionsWithCategoryAndMethodColumn::Id => "id",
            TransactionsWithCategoryAndMethodColumn::Date => "date",
            TransactionsWithCategoryAndMethodColumn::PostedDate => "posted_date",
            TransactionsWithCategoryAndMethodColumn::CategoryId => "category_id",
            TransactionsWithCategoryAndMethodColumn::CategoryName => "category_name",
            TransactionsWithCategoryAndMethodColumn::Amount => "amount",
            TransactionsWithCategoryAndMethodColumn::DebitAccount => "debit_account",
            TransactionsWithCategoryAndMethodColumn::CreditAccount => "credit_account",
            TransactionsWithCategoryAndMethodColumn::Authority => "authority",
            TransactionsWithCategoryAndMethodColumn::Description => "description",
            TransactionsWithCategoryAndMethodColumn::MethodId => "method_id",
            TransactionsWithCategoryAndMethodColumn::MethodName => "method_name",
            TransactionsWithCategoryAndMethodColumn::CheckNumber => "check_number",
        }
    }
}

/// The table that holds the tags of a kind.
pub fn table_of(kind: TagKind) -> (table: &'static str)
    ensures
        table == match kind {
            TagKind::AccountType => ACCOUNT_TYPES,
            TagKind::Category => CATEGORIES,
            TagKind::Method => METHODS,
        },
{
    match kind {
        TagKind::AccountType => ACCOUNT_TYPES,
        TagKind::Category => CATEGORIES,
        TagKind::Method => METHODS,
    }
}

/// The column that holds the key of the tags of a kind.
pub fn key_column_of(kind: TagKind) -> (column: &'static str)
    ensures
        column@ == match kind {
            TagKind::AccountType => snake_case_of(AccountTypesColumn::Id.variant()),
            TagKind::Category => snake_case_of(CategoriesColumn::CategoryId.variant()),
            TagKind::Method => snake_case_of(MethodsColumn::MethodId.variant()),
        },
{
    match kind {
        TagKind::AccountType => AccountTypesColumn::Id.name(),
        TagKind::Category => CategoriesColumn::CategoryId.name(),
        TagKind::Method => MethodsColumn::MethodId.name(),
    }
}

/// The column that holds the name of the tags of a kind.
pub fn name_column_of(kind: TagKind) -> (column: &'static str)
    ensures
        column@ == match kind {
            TagKind::AccountType => snake_case_of(AccountTypesColumn::Name.variant()),
            TagKind::Category => snake_case_of(CategoriesColumn::CategoryName.variant()),
            TagKind::Method => snake_case_of(MethodsColumn::MethodName.variant()),
        },
{
    match kind {
        TagKind::AccountType => AccountTypesColumn::Name.name(),
        TagKind::Category => CategoriesColumn::CategoryName.name(),
        TagKind::Method => MethodsColumn::MethodName.name(),
    }
}

} // verus!
