//! Decimals as the storage holds them: as text.

use vstd::prelude::*;
use vstd::std_specs::convert::FromSpecImpl;
use crate::decimal::{parsed_notation, plain_notation, Decimal};
use crate::error::{Error, Invalid};

verus! {

/// A decimal on its way to or from the storage, which holds it as exact
/// decimal text.
#[derive(Clone, Copy, Debug)]
pub struct DbDecimal(pub Decimal);

impl From<Decimal> for DbDecimal {
    fn from(dec: Decimal) -> (stored: DbDecimal)
        ensures
            stored.0 == dec,
    {
        DbDecimal(dec)
    }
}

impl FromSpecImpl<Decimal> for DbDecimal {
    open spec fn obeys_from_spec() -> bool {
        true
    }

    open spec fn from_spec(dec: Decimal) -> DbDecimal {
        DbDecimal(dec)
    }
}

impl From<DbDecimal> for Decimal {
    fn from(stored: DbDecimal) -> (dec: Decimal)
        ensures
            dec == stored.0,
    {
        stored.0
    }
}

impl FromSpecImpl<DbDecimal> for Decimal {
    open spec fn obeys_from_spec() -> bool {
        true
    }

    open spec fn from_spec(stored: DbDecimal) -> Decimal {
        stored.0
    }
}

impl DbDecimal {
    /// The text that the storage holds for the decimal.
    pub fn encode_by_ref(&self) -> (text: String)
        ensures
            text@ == plain_notation(self.0@.mantissa, self.0@.scale),
    {
        self.0.to_string()
    }

    /// The decimal that a stored text denotes. A text that denotes none is
    /// rejected.
    pub fn decode(value: &str) -> (r: Result<DbDecimal, Error>)
        ensures
            match parsed_notation(value@) {
                Some(parts) => r matches Ok(stored) && (stored.0@.mantissa, stored.0@.scale)
                    == parts,
                None => r matches Err(Error::Validation(Invalid::MalformedDecimal)),
            },
    {
        match Decimal::parse(value) {
            Some(dec) => Ok(DbDecimal::from(dec)),
            None => Err(Error::Validation(Invalid::MalformedDecimal)),
        }
    }
}

} // verus!
