//! The creation and the lookup of currencies.

use vstd::prelude::*;
use crate::error::{Error, Operation};
use crate::finance::CurrencyFormat;
use crate::ledger::resolver::CurrencyResolution;
use crate::ledger::storage::{Command, Reply, Step};
use crate::ledger::workflow::Workflow;
use crate::model::CurrencyRecord;

verus! {

/// Starts the create-or-get of a currency. A currency that is stored under
/// the same name with another symbol, precision or separator is a conflict.
pub fn create_currency(currency: CurrencyFormat) -> (r: (
    CurrencyResolution,
    Step<CurrencyRecord>,
))
    ensures
        r == CurrencyResolution::begin(currency),
{
    CurrencyResolution::start(currency)
}

/// The lookup of a currency by its name.
#[derive(Debug)]
pub struct CurrencyLookup {
    pub name: String,
    pub finished: bool,
}

impl CurrencyLookup {
    /// The lookup and its first step.
    pub open spec fn begin(name: String) -> (CurrencyLookup, Step<CurrencyRecord>) {
        (CurrencyLookup { name, finished: false }, Step::Run(Command::FetchCurrency { name }))
    }
}

impl Workflow for CurrencyLookup {
    type Output = CurrencyRecord;

    open spec fn next(self, reply: Reply) -> (CurrencyLookup, Step<CurrencyRecord>) {
        (
            CurrencyLookup { finished: true, ..self },
            Step::Done(
                if self.finished {
                    Err(Error::Storage(Operation::Finished))
                } else {
                    match reply {
                        Reply::Currency(currency) => Ok(currency),
                        Reply::Missing => Err(Error::NotFound(Operation::FetchCurrency)),
                        _ => Err(Error::Storage(Operation::FetchCurrency)),
                    }
                },
            ),
        )
    }

    fn advance(self, reply: Reply) -> (r: (CurrencyLookup, Step<CurrencyRecord>))
        ensures
            r == self.next(reply),
    {
        let result = if self.finished {
            Err(Error::Storage(Operation::Finished))
        } else {
            match reply {
                Reply::Currency(currency) => Ok(currency),
                Reply::Missing => Err(Error::NotFound(Operation::FetchCurrency)),
                _ => Err(Error::Storage(Operation::FetchCurrency)),
            }
        };
        (CurrencyLookup { name: self.name, finished: true }, Step::Done(result))
    }
}

/// Starts the lookup of the currency named `name`.
pub fn get_currency_by_name(name: String) -> (r: (CurrencyLookup, Step<CurrencyRecord>))
    ensures
        r == CurrencyLookup::begin(name),
{
    let command = Command::FetchCurrency { name: name.clone() };
    (CurrencyLookup { name, finished: false }, Step::Run(command))
}

} // verus!
