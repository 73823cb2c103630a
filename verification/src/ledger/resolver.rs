//! Create-or-get of the entities that are known by a unique name.
//!
//! A resolution first asks the storage to store the name unless it exists.
//! Where a row was written, that row is the result. Where none was, the
//! name exists, and the resolution looks the row up.

use vstd::prelude::*;
use crate::error::{Error, Invalid, Operation};
use crate::finance::CurrencyFormat;
use crate::ledger::storage::{Command, Reply, Step};
use crate::ledger::workflow::Workflow;
use crate::model::{CurrencyRecord, Tag, TagKind};

verus! {

/// How far a resolution has come.
#[derive(Clone, Copy, Debug, PartialEq, Eq, Structural)]
pub enum ResolutionStage {
    /// The insert is under way.
    Insert,
    /// The name existed; the lookup is under way.
    Fetch,
    /// The resolution is over.
    Finished,
}

/// The create-or-get of a tag.
#[derive(Debug)]
pub struct TagResolution {
    pub kind: TagKind,
    pub name: String,
    pub stage: ResolutionStage,
}

/// The create-or-get of a currency, which also holds the stored currency
/// to the format that was asked for.
#[derive(Debug)]
pub struct CurrencyResolution {
    pub format: CurrencyFormat,
    pub stage: ResolutionStage,
}

impl TagResolution {
    /// The resolution of `name` and its first step: an empty name is
    /// rejected, any other is handed to the storage.
    pub open spec fn begin(kind: TagKind, name: String) -> (TagResolution, Step<Tag>) {
        if name@.len() == 0 {
            (
                TagResolution { kind, name, stage: ResolutionStage::Finished },
                Step::Done(Err(Error::Validation(Invalid::EmptyName))),
            )
        } else {
            (
                TagResolution { kind, name, stage: ResolutionStage::Insert },
                Step::Run(Command::InsertTag { kind, name }),
            )
        }
    }

    /// The resolution ended with this result.
    pub open spec fn finished(self, result: Result<Tag, Error>) -> (TagResolution, Step<Tag>) {
        (TagResolution { stage: ResolutionStage::Finished, ..self }, Step::Done(result))
    }

    /// Starts the resolution of `name`.
    pub fn start(kind: TagKind, name: String) -> (r: (TagResolution, Step<Tag>))
        ensures
            r == TagResolution::begin(kind, name),
    {
        if name.as_str().is_empty() {
            (
                TagResolution { kind, name, stage: ResolutionStage::Finished },
                Step::Done(Err(Error::Validation(Invalid::EmptyName))),
            )
        } else {
            let command = Command::InsertTag { kind, name: name.clone() };
            (TagResolution { kind, name, stage: ResolutionStage::Insert }, Step::Run(command))
        }
    }
}

impl Workflow for TagResolution {
    type Output = Tag;

    open spec fn next(self, reply: Reply) -> (TagResolution, Step<Tag>) {
        match self.stage {
            ResolutionStage::Insert => match reply {
                Reply::Inserted(id) => self.finished(Ok(Tag { id, name: self.name })),
                Reply::Ignored => (
                    TagResolution { stage: ResolutionStage::Fetch, ..self },
                    Step::Run(Command::FetchTag { kind: self.kind, name: self.name }),
                ),
                _ => self.finished(Err(Error::Storage(Operation::InsertTag(self.kind)))),
            },
            ResolutionStage::Fetch => match reply {
                Reply::Tag(tag) => self.finished(Ok(tag)),
                Reply::Missing => self.finished(
                    Err(Error::NotFound(Operation::FetchTag(self.kind))),
                ),
                _ => self.finished(Err(Error::Storage(Operation::FetchTag(self.kind)))),
            },
            ResolutionStage::Finished => self.finished(Err(Error::Storage(Operation::Finished))),
        }
    }

    fn advance(self, reply: Reply) -> (r: (TagResolution, Step<Tag>))
        ensures
            r == self.next(reply),
    {
        let kind = self.kind;
        let result = match self.stage {
            ResolutionStage::Insert => match reply {
                Reply::Inserted(id) => Ok(Tag { id, name: self.name.clone() }),
                Reply::Ignored => {
                    let command = Command::FetchTag { kind, name: self.name.clone() };
                    return (
                        TagResolution { kind, name: self.name, stage: ResolutionStage::Fetch },
                        Step::Run(command),
                    );
                },
                _ => Err(Error::Storage(Operation::InsertTag(kind))),
            },
            ResolutionStage::Fetch => match reply {
                Reply::Tag(tag) => Ok(tag),
                Reply::Missing => Err(Error::NotFound(Operation::FetchTag(kind))),
                _ => Err(Error::Storage(Operation::FetchTag(kind))),
            },
            ResolutionStage::Finished => Err(Error::Storage(Operation::Finished)),
        };
        (
            TagResolution { kind, name: self.name, stage: ResolutionStage::Finished },
            Step::Done(result),
        )
    }
}

impl CurrencyResolution {
    /// The resolution of a currency and its first step: an empty name is
    /// rejected, any other format is handed to the storage.
    pub open spec fn begin(format: CurrencyFormat) -> (CurrencyResolution, Step<CurrencyRecord>) {
        if format.name@.len() == 0 {
            (
                CurrencyResolution { format, stage: ResolutionStage::Finished },
                Step::Done(Err(Error::Validation(Invalid::EmptyName))),
            )
        } else {
            (
                CurrencyResolution { format, stage: ResolutionStage::Insert },
                Step::Run(Command::InsertCurrency { format }),
            )
        }
    }

    /// The resolution ended with this result.
    pub open spec fn finished(self, result: Result<CurrencyRecord, Error>) -> (
        CurrencyResolution,
        Step<CurrencyRecord>,
    ) {
        (CurrencyResolution { stage: ResolutionStage::Finished, ..self }, Step::Done(result))
    }

    /// Starts the resolution of a currency.
    pub fn start(format: CurrencyFormat) -> (r: (CurrencyResolution, Step<CurrencyRecord>))
        ensures
            r == CurrencyResolution::begin(format),
    {
        if format.name.as_str().is_empty() {
            (
                CurrencyResolution { format, stage: ResolutionStage::Finished },
                Step::Done(Err(Error::Validation(Invalid::EmptyName))),
            )
        } else {
            let command = Command::InsertCurrency { format: format.clone() };
            (CurrencyResolution { format, stage: ResolutionStage::Insert }, Step::Run(command))
        }
    }
}

impl Workflow for CurrencyResolution {
    type Output = CurrencyRecord;

    open spec fn next(self, reply: Reply) -> (CurrencyResolution, Step<CurrencyRecord>) {
        match self.stage {
            ResolutionStage::Insert => match reply {
                Reply::Inserted(id) => self.finished(
                    Ok(CurrencyRecord { id, format: self.format }),
                ),
                Reply::Ignored => (
                    CurrencyResolution { stage: ResolutionStage::Fetch, ..self },
                    Step::Run(Command::FetchCurrency { name: self.format.name }),
                ),
                _ => self.finished(Err(Error::Storage(Operation::InsertCurrency))),
            },
            ResolutionStage::Fetch => match reply {
                Reply::Currency(stored) => if stored.format.same(&self.format) {
                    self.finished(Ok(stored))
                } else {
                    self.finished(Err(Error::CurrencyAlreadyExists(stored)))
                },
                Reply::Missing => self.finished(Err(Error::NotFound(Operation::FetchCurrency))),
                _ => self.finished(Err(Error::Storage(Operation::FetchCurrency))),
            },
            ResolutionStage::Finished => self.finished(Err(Error::Storage(Operation::Finished))),
        }
    }

    fn advance(self, reply: Reply) -> (r: (CurrencyResolution, Step<CurrencyRecord>))
        ensures
            r == self.next(reply),
    {
        let result = match self.stage {
            ResolutionStage::Insert => match reply {
                Reply::Inserted(id) => Ok(CurrencyRecord { id, format: self.format.clone() }),
                Reply::Ignored => {
                    let command = Command::FetchCurrency { name: self.format.name.clone() };
                    return (
                        CurrencyResolution { format: self.format, stage: ResolutionStage::Fetch },
                        Step::Run(command),
                    );
                },
                _ => Err(Error::Storage(Operation::InsertCurrency)),
            },
            ResolutionStage::Fetch => match reply {
                Reply::Currency(stored) => if stored.format == self.format {
                    Ok(stored)
                } else {
                    Err(Error::CurrencyAlreadyExists(stored))
                },
                Reply::Missing => Err(Error::NotFound(Operation::FetchCurrency)),
                _ => Err(Error::Storage(Operation::FetchCurrency)),
            },
            ResolutionStage::Finished => Err(Error::Storage(Operation::Finished)),
        };
        (
            CurrencyResolution { format: self.format, stage: ResolutionStage::Finished },
            Step::Done(result),
        )
    }
}

} // verus!
