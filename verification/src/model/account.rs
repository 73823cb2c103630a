//! Accounts and their types.

use vstd::prelude::*;
use vstd::std_specs::cmp::PartialEqSpecImpl;
use vstd::std_specs::convert::FromSpecImpl;
use vstd::string::StringExecFns;
use core::hash::{Hash, Hasher};
use crate::decimal::{parsed_notation, Decimal};
use crate::error::{Error, Invalid, Operation};
use crate::model::currency::{CurrencyRecord, CurrencyRow};
use crate::model::decimal::DbDecimal;
use crate::model::tag::Tag;

verus! {

/// The type of an account, such as checking or savings.
#[derive(Debug, Hash)]
pub struct AccountType {
    pub tag: Tag,
}

impl AccountType {
    /// The account type with this key and name.
    pub fn new(id: i64, name: String) -> (account_type: AccountType)
        ensures
            account_type.tag.id == id,
            account_type.tag.name == name,
    {
        AccountType { tag: Tag { id, name } }
    }

    /// The name of the account type.
    pub fn to_string(&self) -> (text: String)
        ensures
            text == self.tag.name,
    {
        self.tag.to_string()
    }
}

impl Clone for AccountType {
    fn clone(&self) -> (copy: AccountType)
        ensures
            copy == *self,
    {
        AccountType { tag: self.tag.clone() }
    }
}

impl PartialEq for AccountType {
    fn eq(&self, other: &AccountType) -> (r: bool)
        ensures
            r == (self.tag.id == other.tag.id),
    {
        self.tag.id == other.tag.id
    }
}

impl PartialEqSpecImpl for AccountType {
    open spec fn obeys_eq_spec() -> bool {
        true
    }

    open spec fn eq_spec(&self, other: &AccountType) -> bool {
        self.tag.id == other.tag.id
    }
}

impl Eq for AccountType {

}

impl From<Tag> for AccountType {
    fn from(tag: Tag) -> (account_type: AccountType)
        ensures
            account_type.tag == tag,
    {
        AccountType { tag }
    }
}

impl FromSpecImpl<Tag> for AccountType {
    open spec fn obeys_from_spec() -> bool {
        true
    }

    open spec fn from_spec(tag: Tag) -> AccountType {
        AccountType { tag }
    }
}

/// An account of the ledger. Two accounts are equal where their keys are.
#[derive(Debug)]
pub struct Account {
    pub id: i64,
    pub name: String,
    pub currency: CurrencyRecord,
    pub balance: Decimal,
    pub posted_balance: Decimal,
    pub account_type: AccountType,
}

/// A row of the accounts view, as the storage hands it out: the two
/// balances are text.
#[derive(Debug)]
pub struct AccountRow {
    pub id: i64,
    pub name: String,
    pub currency: CurrencyRow,
    pub balance: String,
    pub posted_balance: String,
    pub account_type: i64,
    pub account_type_name: String,
}

impl Account {
    /// Reads an account from a row of the accounts view. A balance that is
    /// no decimal number is rejected; a row without the key or the name of
    /// its currency is a failure of the lookup.
    pub fn from_row(row: AccountRow) -> (r: Result<Account, Error>)
        ensures
            match (
                row.currency.key(),
                row.currency.title(),
                parsed_notation(row.balance@),
                parsed_notation(row.posted_balance@),
            ) {
                (Some(key), Some(title), Some(balance), Some(posted)) => {
                    &&& r matches Ok(account)
                    &&& account.id == row.id
                    &&& account.name == row.name
                    &&& account.currency.id == key
                    &&& account.currency.format == row.currency.format(title)
                    &&& (account.balance@.mantissa, account.balance@.scale) == balance
                    &&& (account.posted_balance@.mantissa, account.posted_balance@.scale)
                        == posted
                    &&& account.account_type.tag.id == row.account_type
                    &&& account.account_type.tag.name == row.account_type_name
                },
                (Some(_), Some(_), _, _) => r matches Err(
                    Error::Validation(Invalid::MalformedDecimal),
                ),
                _ => r matches Err(Error::Storage(Operation::FetchCurrency)),
            },
    {
        let currency = match CurrencyRecord::from_row(row.currency) {
            Ok(currency) => currency,
            Err(error) => {
                return Err(error);
            },
        };
        let balance = match DbDecimal::decode(row.balance.as_str()) {
            Ok(balance) => balance.0,
            Err(error) => {
                return Err(error);
            },
        };
        let posted_balance = match DbDecimal::decode(row.posted_balance.as_str()) {
            Ok(posted_balance) => posted_balance.0,
            Err(error) => {
                return Err(error);
            },
        };
        Ok(
            Account {
                id: row.id,
                name: row.name,
                currency,
                balance,
                posted_balance,
                account_type: AccountType::new(row.account_type, row.account_type_name),
            },
        )
    }

    /// The text of the account: its name, a colon, and its balance in the
    /// format of its currency.
    pub fn to_string(&self) -> (text: String)
        ensures
            text@ == self.name@ + seq![':', ' '] + self.currency.format.displayed(self.balance@),
    {
        let mut text = self.name.clone();
        crate::text::push_char(&mut text, ':');
        crate::text::push_char(&mut text, ' ');
        let balance = self.currency.format.display_value(self.balance);
        text.append(balance.as_str());
        assert(text@ =~= self.name@ + seq![':', ' '] + self.currency.format.displayed(
            self.balance@,
        ));
        text
    }
}

impl Clone for Account {
    fn clone(&self) -> (copy: Account)
        ensures
            copy == *self,
    {
        Account {
            id: self.id,
            name: self.name.clone(),
            currency: self.currency.clone(),
            balance: self.balance,
            posted_balance: self.posted_balance,
            account_type: self.account_type.clone(),
        }
    }
}

impl PartialEq for Account {
    fn eq(&self, other: &Account) -> (r: bool)
        ensures
            r == (self.id == other.id),
    {
        self.id == other.id
    }
}

impl PartialEqSpecImpl for Account {
    open spec fn obeys_eq_spec() -> bool {
        true
    }

    open spec fn eq_spec(&self, other: &Account) -> bool {
        self.id == other.id
    }
}

impl Eq for Account {

}

impl Hash for Account {
    fn hash<H: Hasher>(&self, state: &mut H) {
        self.id.hash(state);
    }
}

} // verus!
