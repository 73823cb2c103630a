//! Transactions, their categories and methods.

use vstd::prelude::*;
use vstd::std_specs::cmp::PartialEqSpecImpl;
use vstd::std_specs::convert::FromSpecImpl;
use core::hash::{Hash, Hasher};
use vstd::string::StringExecFns;
use crate::date::{date_notation, Date};
use crate::decimal::{parsed_notation, plain_notation, Decimal};
use crate::text::push_char;
use crate::error::{Error, Invalid};
use crate::model::decimal::DbDecimal;
use crate::model::tag::Tag;

verus! {

/// What a transaction was spent on or earned by.
#[derive(Debug, Hash)]
pub struct Category {
    pub tag: Tag,
}

/// How a transaction was paid.
#[derive(Debug, Hash)]
pub struct Method {
    pub tag: Tag,
}

impl Category {
    /// The name of the category.
    pub fn to_string(&self) -> (text: String)
        ensures
            text == self.tag.name,
    {
        self.tag.to_string()
    }
}

impl Method {
    /// The name of the method.
    pub fn to_string(&self) -> (text: String)
        ensures
            text == self.tag.name,
    {
        self.tag.to_string()
    }
}

impl Clone for Category {
    fn clone(&self) -> (copy: Category)
        ensures
            copy == *self,
    {
        Category { tag: self.tag.clone() }
    }
}

impl Clone for Method {
    fn clone(&self) -> (copy: Method)
        ensures
            copy == *self,
    {
        Method { tag: self.tag.clone() }
    }
}

impl PartialEq for Category {
    fn eq(&self, other: &Category) -> (r: bool)
        ensures
            r == (self.tag.id == other.tag.id),
    {
        self.tag.id == other.tag.id
    }
}

impl PartialEqSpecImpl for Category {
    open spec fn obeys_eq_spec() -> bool {
        true
    }

    open spec fn eq_spec(&self, other: &Category) -> bool {
        self.tag.id == other.tag.id
    }
}

impl Eq for Category {

}

impl PartialEq for Method {
    fn eq(&self, other: &Method) -> (r: bool)
        ensures
            r == (self.tag.id == other.tag.id),
    {
        self.tag.id == other.tag.id
    }
}

impl PartialEqSpecImpl for Method {
    open spec fn obeys_eq_spec() -> bool {
        true
    }

    open spec fn eq_spec(&self, other: &Method) -> bool {
        self.tag.id == other.tag.id
    }
}

impl Eq for Method {

}

impl From<Tag> for Category {
    fn from(tag: Tag) -> (category: Category)
        ensures
            category.tag == tag,
    {
        Category { tag }
    }
}

impl FromSpecImpl<Tag> for Category {
    open spec fn obeys_from_spec() -> bool {
        true
    }

    open spec fn from_spec(tag: Tag) -> Category {
        Category { tag }
    }
}

impl From<Tag> for Method {
    fn from(tag: Tag) -> (method: Method)
        ensures
            method.tag == tag,
    {
        Method { tag }
    }
}

impl FromSpecImpl<Tag> for Method {
    open spec fn obeys_from_spec() -> bool {
        true
    }

    open spec fn from_spec(tag: Tag) -> Method {
        Method { tag }
    }
}

/// A movement of value between two accounts. Two transactions are equal
/// where their keys are.
#[derive(Debug)]
pub struct Transaction {
    pub id: i64,
    pub date: Date,
    pub posted_date: Option<Date>,
    pub category: Option<Category>,
    pub amount: Decimal,
    pub debit_account: Option<i64>,
    pub credit_account: Option<i64>,
    pub authority: String,
    pub description: String,
    pub method: Option<Method>,
    pub check_number: Option<u32>,
}

/// A row of the transactions view, as the storage hands it out: the amount
/// is text, and the category and the method come as a key and a name each.
#[derive(Debug)]
pub struct TransactionRow {
    pub id: i64,
    pub date: Date,
    pub posted_date: Option<Date>,
    pub category_id: Option<i64>,
    pub category_name: Option<String>,
    pub amount: String,
    pub debit_account: Option<i64>,
    pub credit_account: Option<i64>,
    pub authority: String,
    pub description: String,
    pub method_id: Option<i64>,
    pub method_name: Option<String>,
    pub check_number: Option<u32>,
}

/// The tag that a key and a name make: none where either is missing.
pub open spec fn paired(id: Option<i64>, name: Option<String>) -> Option<Tag> {
    match (id, name) {
        (Some(id), Some(name)) => Some(Tag { id, name }),
        _ => None,
    }
}

/// Makes a tag of a key and a name, where the row has both.
pub fn pair(id: Option<i64>, name: Option<String>) -> (tag: Option<Tag>)
    ensures
        tag == paired(id, name),
{
    match (id, name) {
        (Some(id), Some(name)) => Some(Tag { id, name }),
        _ => None,
    }
}

impl TransactionRow {
    /// The category of the row.
    pub open spec fn category(&self) -> Option<Category> {
        match paired(self.category_id, self.category_name) {
            Some(tag) => Some(Category { tag }),
            None => None,
        }
    }

    /// The method of the row.
    pub open spec fn method(&self) -> Option<Method> {
        match paired(self.method_id, self.method_name) {
            Some(tag) => Some(Method { tag }),
            None => None,
        }
    }
}

impl Transaction {
    /// Reads a transaction from a row of the transactions view. The
    /// category and the method are present where the row has both their
    /// key and their name; an amount that is no decimal number is rejected.
    pub fn from_row(row: TransactionRow) -> (r: Result<Transaction, Error>)
        ensures
            match parsed_notation(row.amount@) {
                Some(amount) => {
                    &&& r matches Ok(transaction)
                    &&& transaction.id == row.id
                    &&& transaction.date == row.date
                    &&& transaction.posted_date == row.posted_date
                    &&& transaction.category == row.category()
                    &&& (transaction.amount@.mantissa, transaction.amount@.scale) == amount
                    &&& transaction.debit_account == row.debit_account
                    &&& transaction.credit_account == row.credit_account
                    &&& transaction.authority == row.authority
                    &&& transaction.description == row.description
                    &&& transaction.method == row.method()
                    &&& transaction.check_number == row.check_number
                },
                None => r matches Err(Error::Validation(Invalid::MalformedDecimal)),
            },
    {
        let amount = match DbDecimal::decode(row.amount.as_str()) {
            Ok(amount) => amount.0,
            Err(error) => {
                return Err(error);
            },
        };
        let category = match pair(row.category_id, row.category_name) {
            Some(tag) => Some(Category { tag }),
            None => None,
        };
        let method = match pair(row.method_id, row.method_name) {
            Some(tag) => Some(Method { tag }),
            None => None,
        };
        Ok(
            Transaction {
                id: row.id,
                date: row.date,
                posted_date: row.posted_date,
                category,
                amount,
                debit_account: row.debit_account,
                credit_account: row.credit_account,
                authority: row.authority,
                description: row.description,
                method,
                check_number: row.check_number,
            },
        )
    }
}

impl Transaction {
    /// The text of the transaction: its amount, ` on ` and its date, and
    /// after them `, ""` where the description is empty.
    pub open spec fn text(&self) -> Seq<char> {
        let head = plain_notation(self.amount@.mantissa, self.amount@.scale) + seq![
            ' ',
            'o',
            'n',
            ' ',
        ] + date_notation(self.date@.year, self.date@.month, self.date@.day);
        if self.description@.len() == 0 {
            head + seq![',', ' ', '"', '"']
        } else {
            head
        }
    }

    /// The text of the transaction.
    pub fn to_string(&self) -> (text: String)
        ensures
            text@ == self.text(),
    {
        let mut text = self.amount.to_string();
        push_char(&mut text, ' ');
        push_char(&mut text, 'o');
        push_char(&mut text, 'n');
        push_char(&mut text, ' ');
        let date = self.date.to_string();
        text.append(date.as_str());
        let ghost head = text@;
        assert(head =~= plain_notation(self.amount@.mantissa, self.amount@.scale) + seq![
            ' ',
            'o',
            'n',
            ' ',
        ] + date_notation(self.date@.year, self.date@.month, self.date@.day));
        if self.description.as_str().is_empty() {
            push_char(&mut text, ',');
            push_char(&mut text, ' ');
            push_char(&mut text, '"');
            push_char(&mut text, '"');
            assert(text@ =~= head + seq![',', ' ', '"', '"']);
        }
        text
    }
}

impl Clone for Transaction {
    fn clone(&self) -> (copy: Transaction)
        ensures
            copy == *self,
    {
        Transaction {
            id: self.id,
            date: self.date,
            posted_date: self.posted_date,
            category: match &self.category {
                Some(category) => Some(category.clone()),
                None => None,
            },
            amount: self.amount,
            debit_account: self.debit_account,
            credit_account: self.credit_account,
            authority: self.authority.clone(),
            description: self.description.clone(),
            method: match &self.method {
                Some(method) => Some(method.clone()),
                None => None,
            },
            check_number: self.check_number,
        }
    }
}

impl PartialEq for Transaction {
    fn eq(&self, other: &Transaction) -> (r: bool)
        ensures
            r == (self.id == other.id),
    {
        self.id == other.id
    }
}

impl PartialEqSpecImpl for Transaction {
    open spec fn obeys_eq_spec() -> bool {
        true
    }

    open spec fn eq_spec(&self, other: &Transaction) -> bool {
        self.id == other.id
    }
}

impl Eq for Transaction {

}

impl Hash for Transaction {
    fn hash<H: Hasher>(&self, state: &mut H) {
        self.id.hash(state);
    }
}

} // verus!
