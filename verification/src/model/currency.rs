//! Stored currencies.

use vstd::prelude::*;
use vstd::std_specs::cmp::PartialEqSpecImpl;
use core::hash::{Hash, Hasher};
use crate::error::{Error, Operation};
use crate::finance::CurrencyFormat;

verus! {

/// A stored currency: a key and the format. Two records are equal where
/// their keys are.
#[derive(Debug)]
pub struct CurrencyRecord {
    pub id: i64,
    pub format: CurrencyFormat,
}

/// A row that holds a currency, as the storage hands it out. A row of the
/// accounts view names the key `currency_id` and the name `currency_name`;
/// a row of the currencies table names them `id` and `name`.
#[derive(Debug)]
pub struct CurrencyRow {
    pub currency_id: Option<i64>,
    pub id: Option<i64>,
    pub symbol: String,
    pub currency_name: Option<String>,
    pub name: Option<String>,
    pub precision: u8,
    pub thousand_separator: String,
    pub decimal_separator: String,
}

/// A currency format read from a row.
#[derive(Debug)]
pub struct DbCurrencyFormat(pub CurrencyFormat);

impl CurrencyRow {
    /// The key of the currency in this row: `currency_id` where the row has
    /// it, else `id`.
    pub open spec fn key(&self) -> Option<i64> {
        if self.currency_id is Some {
            self.currency_id
        } else {
            self.id
        }
    }

    /// The name of the currency in this row: `currency_name` where the row
    /// has it, else `name`.
    pub open spec fn title(&self) -> Option<String> {
        if self.currency_name is Some {
            self.currency_name
        } else {
            self.name
        }
    }

    /// The format that this row holds, given its name.
    pub open spec fn format(&self, name: String) -> CurrencyFormat {
        CurrencyFormat {
            symbol: self.symbol,
            name,
            precision: self.precision,
            thousand_separator: self.thousand_separator,
            decimal_separator: self.decimal_separator,
        }
    }
}

impl DbCurrencyFormat {
    /// Reads the format of a currency from a row. A row without a name is
    /// a failure of the lookup.
    pub fn from_row(row: CurrencyRow) -> (r: Result<DbCurrencyFormat, Error>)
        ensures
            match row.title() {
                Some(name) => r matches Ok(read) && read.0 == row.format(name),
                None => r matches Err(Error::Storage(Operation::FetchCurrency)),
            },
    {
        let name = match row.currency_name {
            Some(name) => name,
            None => match row.name {
                Some(name) => name,
                None => {
                    return Err(Error::Storage(Operation::FetchCurrency));
                },
            },
        };
        Ok(
            DbCurrencyFormat(
                CurrencyFormat {
                    symbol: row.symbol,
                    name,
                    precision: row.precision,
                    thousand_separator: row.thousand_separator,
                    decimal_separator: row.decimal_separator,
                },
            ),
        )
    }
}

impl CurrencyRecord {
    /// Reads a stored currency from a row. A row without a key or without
    /// a name is a failure of the lookup.
    pub fn from_row(row: CurrencyRow) -> (r: Result<CurrencyRecord, Error>)
        ensures
            match (row.key(), row.title()) {
                (Some(id), Some(name)) => r matches Ok(record) && record.id == id
                    && record.format == row.format(name),
                _ => r matches Err(Error::Storage(Operation::FetchCurrency)),
            },
    {
        let id = match row.currency_id {
            Some(id) => id,
            None => match row.id {
                Some(id) => id,
                None => {
                    return Err(Error::Storage(Operation::FetchCurrency));
                },
            },
        };
        match DbCurrencyFormat::from_row(row) {
            Ok(read) => Ok(CurrencyRecord { id, format: read.0 }),
            Err(error) => Err(error),
        }
    }
}

impl Clone for CurrencyRecord {
    fn clone(&self) -> (copy: CurrencyRecord)
        ensures
            copy == *self,
    {
        CurrencyRecord { id: self.id, format: self.format.clone() }
    }
}

impl PartialEq for CurrencyRecord {
    fn eq(&self, other: &CurrencyRecord) -> (r: bool)
        ensures
            r == (self.id == other.id),
    {
        self.id == other.id
    }
}

impl PartialEqSpecImpl for CurrencyRecord {
    open spec fn obeys_eq_spec() -> bool {
        true
    }

    open spec fn eq_spec(&self, other: &CurrencyRecord) -> bool {
        self.id == other.id
    }
}

impl Eq for CurrencyRecord {

}

impl Hash for CurrencyRecord {
    fn hash<H: Hasher>(&self, state: &mut H) {
        self.id.hash(state);
    }
}

} // verus!
