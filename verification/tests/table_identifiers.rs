use roolah::column_enum::{snake_case, to_lower, ColumnEnum};
use roolah::model::TagKind;
use roolah::table_identifiers::{
    key_column_of, name_column_of, table_of, AccountTypesColumn, AccountsColumn,
    AccountsWithCurrencyAndTypeColumn, CategoriesColumn, CurrenciesColumn, MethodsColumn,
    TransactionsColumn, TransactionsWithCategoryAndMethodColumn, ACCOUNTS, ACCOUNTS_WITH_CURRENCY_AND_TYPE,
    ACCOUNT_TYPES, CATEGORIES, CURRENCIES, METHODS, TRANSACTIONS,
    TRANSACTIONS_WITH_CATEGORY_AND_METHOD,
};

#[test]
fn snake_case_of_camel_case_names() {
    assert_eq!(snake_case(""), "");
    assert_eq!(snake_case("Id"), "id");
    assert_eq!(snake_case("id"), "id");
    assert_eq!(snake_case("PostedBalance"), "posted_balance");
    assert_eq!(snake_case("AccountTypeName"), "account_type_name");
    assert_eq!(snake_case("ThousandSeparator"), "thousand_separator");
    assert_eq!(snake_case("ABC"), "a_b_c");
    assert_eq!(snake_case("aB"), "a_b");
    assert_eq!(snake_case("With2Digits"), "with2_digits");
    assert_eq!(snake_case("already_snake"), "already_snake");
    assert_eq!(snake_case("Émile"), "Émile");
    assert_eq!(snake_case("X"), "x");
}

#[test]
fn to_lower_changes_ascii_capitals_only() {
    assert_eq!(to_lower('A'), 'a');
    assert_eq!(to_lower('Z'), 'z');
    assert_eq!(to_lower('M'), 'm');
    assert_eq!(to_lower('a'), 'a');
    assert_eq!(to_lower('@'), '@');
    assert_eq!(to_lower('['), '[');
    assert_eq!(to_lower('5'), '5');
    assert_eq!(to_lower('É'), 'É');
}

#[test]
fn column_names_are_the_variants_in_snake_case() {
    assert_eq!(AccountTypesColumn::Id.name(), "id");
    assert_eq!(AccountTypesColumn::Name.name(), "name");
    assert_eq!(AccountsColumn::Id.name(), "id");
    assert_eq!(AccountsColumn::Name.name(), "name");
    assert_eq!(AccountsColumn::Currency.name(), "currency");
    assert_eq!(AccountsColumn::Balance.name(), "balance");
    assert_eq!(AccountsColumn::PostedBalance.name(), "posted_balance");
    assert_eq!(AccountsColumn::AccountType.name(), "account_type");
    assert_eq!(AccountsWithCurrencyAndTypeColumn::CurrencyId.name(), "currency_id");
    assert_eq!(AccountsWithCurrencyAndTypeColumn::AccountTypeId.name(), "account_type_id");
    assert_eq!(AccountsWithCurrencyAndTypeColumn::Symbol.name(), "symbol");
    assert_eq!(AccountsWithCurrencyAndTypeColumn::CurrencyName.name(), "currency_name");
    assert_eq!(AccountsWithCurrencyAndTypeColumn::Precision.name(), "precision");
    assert_eq!(AccountsWithCurrencyAndTypeColumn::ThousandSeparator.name(), "thousand_separator");
    assert_eq!(AccountsWithCurrencyAndTypeColumn::DecimalSeparator.name(), "decimal_separator");
    assert_eq!(AccountsWithCurrencyAndTypeColumn::AccountTypeName.name(), "account_type_name");
    assert_eq!(CategoriesColumn::CategoryId.name(), "category_id");
    assert_eq!(CategoriesColumn::CategoryName.name(), "category_name");
    assert_eq!(CurrenciesColumn::Symbol.name(), "symbol");
    assert_eq!(CurrenciesColumn::ThousandSeparator.name(), "thousand_separator");
    assert_eq!(MethodsColumn::MethodId.name(), "method_id");
    assert_eq!(MethodsColumn::MethodName.name(), "method_name");
    assert_eq!(TransactionsColumn::Date.name(), "date");
    assert_eq!(TransactionsColumn::PostedDate.name(), "posted_date");
    assert_eq!(TransactionsColumn::Amount.name(), "amount");
    assert_eq!(TransactionsColumn::DebitAccount.name(), "debit_account");
    assert_eq!(TransactionsColumn::CreditAccount.name(), "credit_account");
    assert_eq!(TransactionsColumn::Authority.name(), "authority");
    assert_eq!(TransactionsColumn::Description.name(), "description");
    assert_eq!(TransactionsColumn::CheckNumber.name(), "check_number");
    assert_eq!(TransactionsWithCategoryAndMethodColumn::CategoryName.name(), "category_name");
    assert_eq!(TransactionsWithCategoryAndMethodColumn::MethodName.name(), "method_name");
    assert_eq!(TransactionsWithCategoryAndMethodColumn::CheckNumber.name(), "check_number");
}

#[test]
fn column_names_agree_with_snake_case() {
    let pairs = [
        (AccountsWithCurrencyAndTypeColumn::Id.name(), "Id"),
        (AccountsWithCurrencyAndTypeColumn::Name.name(), "Name"),
        (AccountsWithCurrencyAndTypeColumn::Balance.name(), "Balance"),
        (AccountsWithCurrencyAndTypeColumn::PostedBalance.name(), "PostedBalance"),
        (AccountsWithCurrencyAndTypeColumn::AccountTypeId.name(), "AccountTypeId"),
        (TransactionsWithCategoryAndMethodColumn::Id.name(), "Id"),
        (TransactionsWithCategoryAndMethodColumn::Date.name(), "Date"),
        (TransactionsWithCategoryAndMethodColumn::PostedDate.name(), "PostedDate"),
        (TransactionsWithCategoryAndMethodColumn::CategoryId.name(), "CategoryId"),
        (TransactionsWithCategoryAndMethodColumn::Amount.name(), "Amount"),
        (TransactionsWithCategoryAndMethodColumn::DebitAccount.name(), "DebitAccount"),
        (TransactionsWithCategoryAndMethodColumn::CreditAccount.name(), "CreditAccount"),
        (TransactionsWithCategoryAndMethodColumn::Authority.name(), "Authority"),
        (TransactionsWithCategoryAndMethodColumn::Description.name(), "Description"),
        (TransactionsWithCategoryAndMethodColumn::MethodId.name(), "MethodId"),
        (TransactionsColumn::Id.name(), "Id"),
        (TransactionsColumn::CategoryId.name(), "CategoryId"),
        (TransactionsColumn::MethodId.name(), "MethodId"),
        (CurrenciesColumn::Id.name(), "Id"),
        (CurrenciesColumn::Name.name(), "Name"),
        (CurrenciesColumn::Precision.name(), "Precision"),
        (CurrenciesColumn::DecimalSeparator.name(), "DecimalSeparator"),
    ];
    for (name, variant) in pairs {
        assert_eq!(name, snake_case(variant));
    }
}

#[test]
fn tables_and_views_have_their_names() {
    assert_eq!(ACCOUNT_TYPES, "account_types");
    assert_eq!(ACCOUNTS, "accounts");
    assert_eq!(ACCOUNTS_WITH_CURRENCY_AND_TYPE, "accounts_with_currency_and_type");
    assert_eq!(CATEGORIES, "categories");
    assert_eq!(CURRENCIES, "currencies");
    assert_eq!(METHODS, "methods");
    assert_eq!(TRANSACTIONS, "transactions");
    assert_eq!(TRANSACTIONS_WITH_CATEGORY_AND_METHOD, "transactions_with_category_and_method");
}

#[test]
fn each_kind_of_tag_has_its_table_and_columns() {
    assert_eq!(table_of(TagKind::AccountType), "account_types");
    assert_eq!(table_of(TagKind::Category), "categories");
    assert_eq!(table_of(TagKind::Method), "methods");
    assert_eq!(key_column_of(TagKind::AccountType), "id");
    assert_eq!(key_column_of(TagKind::Category), "category_id");
    assert_eq!(key_column_of(TagKind::Method), "method_id");
    assert_eq!(name_column_of(TagKind::AccountType), "name");
    assert_eq!(name_column_of(TagKind::Category), "category_name");
    assert_eq!(name_column_of(TagKind::Method), "method_name");
}
