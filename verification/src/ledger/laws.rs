//! What holds of the workflows on every storage session that keeps to
//! [`respond`].

use vstd::prelude::*;
use crate::decimal::Decimal;
use crate::error::{Error, Invalid, Operation};
use crate::finance::CurrencyFormat;
use crate::ledger::account::{as_requested, AccountCreation, AccountListing, AccountStage};
use crate::ledger::resolver::{CurrencyResolution, TagResolution};
use crate::ledger::storage::{
    broken_rule, lemma_with_account, lemma_with_currency, lemma_with_keeps, lemma_with_tag,
    lemma_with_transaction, lists, respond, stored_transaction, Command, Constraint,
    NewTransaction, Reply, Session, Step, Table, Tables,
};
use crate::ledger::transaction::{TransactionArgs, TransactionCreation, TransactionStage};
use crate::ledger::workflow::{run, Workflow};
use crate::model::{
    Account, AccountType, Category, CurrencyRecord, Method, Tag, TagKind, Transaction,
};

verus! {

/// The tag that a name is resolved to on these tables: the stored one, or
/// a new one under the next key.
pub open spec fn tag_of(tables: Tables, kind: TagKind, name: String) -> Tag {
    if tables.tags(kind).has(name@) {
        tables.tags(kind).named(name@)
    } else {
        Tag { id: tables.tags(kind).next as i64, name }
    }
}

/// The tables once a name is resolved on them.
pub open spec fn with_tag(tables: Tables, kind: TagKind, name: String) -> Tables {
    if tables.tags(kind).has(name@) {
        tables
    } else {
        tables.with_tags(kind, tables.tags(kind).with(name@, tag_of(tables, kind, name)))
    }
}

/// Why a name cannot be resolved on these tables, if it cannot: it is
/// empty, or it is not stored and the table has no key left for it.
pub open spec fn tag_failure(tables: Tables, kind: TagKind, name: String) -> Option<Error> {
    if name@.len() == 0 {
        Some(Error::Validation(Invalid::EmptyName))
    } else if !tables.tags(kind).has(name@) && !tables.tags(kind).has_room() {
        Some(Error::Storage(Operation::InsertTag(kind)))
    } else {
        None
    }
}

/// The number of commands that the resolution of a name takes.
pub open spec fn steps_of(tables: Tables, kind: TagKind, name: String) -> nat {
    if name@.len() == 0 {
        0
    } else if tables.tags(kind).has(name@) {
        2
    } else {
        1
    }
}

/// The record that a currency is resolved to on these tables: the stored
/// one, or a new one under the next key.
pub open spec fn currency_of(tables: Tables, format: CurrencyFormat) -> CurrencyRecord {
    if tables.currencies.has(format.name@) {
        tables.currencies.named(format.name@)
    } else {
        CurrencyRecord { id: tables.currencies.next as i64, format }
    }
}

/// The tables once a currency is resolved on them.
pub open spec fn with_currency(tables: Tables, format: CurrencyFormat) -> Tables {
    if tables.currencies.has(format.name@) {
        tables
    } else {
        Tables {
            currencies: tables.currencies.with(format.name@, currency_of(tables, format)),
            ..tables
        }
    }
}

/// Whether a currency of this name is stored with another content.
pub open spec fn conflicting(tables: Tables, format: CurrencyFormat) -> bool {
    tables.currencies.has(format.name@) && !tables.currencies.named(format.name@).format.same(
        &format,
    )
}

/// Why a currency cannot be resolved on these tables, if it cannot: its
/// name is empty, a currency of its name is stored with another content,
/// or it is not stored and the table has no key left for it.
pub open spec fn currency_failure(tables: Tables, format: CurrencyFormat) -> Option<Error> {
    if format.name@.len() == 0 {
        Some(Error::Validation(Invalid::EmptyName))
    } else if conflicting(tables, format) {
        Some(Error::CurrencyAlreadyExists(tables.currencies.named(format.name@)))
    } else if !tables.currencies.has(format.name@) && !tables.currencies.has_room() {
        Some(Error::Storage(Operation::InsertCurrency))
    } else {
        None
    }
}

/// The session and the result of resolving `name` on `session`.
pub open spec fn resolved(session: Session, kind: TagKind, name: String) -> (Session, Step<Tag>) {
    let (resolution, step) = TagResolution::begin(kind, name);
    run(resolution, step, session, 2)
}

/// What a resolution comes to. A name that is empty, or that is not stored
/// while the table has no key left, is not resolved, and the session is
/// left as it was. Any other name is resolved to the stored tag, or is
/// stored under the next key and resolved to that; afterwards it is stored
/// under the key of the tag that was returned. No other name is added, and
/// a name that was stored before keeps its row.
pub proof fn law_resolution(session: Session, kind: TagKind, name: String)
    requires
        session.wf(),
    ensures
        ({
            let (after, end) = resolved(session, kind, name);
            let tables = session.current();
            let before = tables.tags(kind);
            let table = after.current().tags(kind);
            &&& after.wf()
            &&& after.pending is Some <==> session.pending is Some
            &&& match tag_failure(tables, kind, name) {
                Some(error) => after == session && end == Step::<Tag>::Done(Err(error)),
                None => {
                    let tag = tag_of(tables, kind, name);
                    &&& end == Step::Done(Ok(tag))
                    &&& after.current() == with_tag(tables, kind, name)
                    &&& before.has(name@) ==> after == session
                    &&& table.has(name@)
                    &&& table.named(name@) == tag
                    &&& tag.id == table.keys[name@]
                    &&& tag.name@ == name@
                },
            }
            &&& forall|other: Seq<char>| #[trigger]
                before.has(other) ==> table.has(other) && table.named(other) == before.named(
                    other,
                )
            &&& forall|other: Seq<char>| #[trigger]
                table.has(other) ==> before.has(other) || other == name@
        }),
{
    reveal_with_fuel(run, 3);
    let before = session.current().tags(kind);
    if name@.len() > 0 && !before.has(name@) && before.has_room() {
        let (resolution, step) = TagResolution::begin(kind, name);
        let (s1, reply1) = respond(session, step->Run_0);
        let row = Tag { id: before.next as i64, name };
        lemma_with_tag(before, row);
        lemma_with_keeps(before, name@, row);
        assert(s1.current().tags(kind) == before.with(name@, row));
        assert(s1.current() == with_tag(session.current(), kind, name));
        assert(s1.wf());
    }
}

/// Resolving the same name twice gives the same result both times, with
/// the same key where it is a tag, and the second resolution leaves the
/// session as the first one left it: no row is stored twice.
pub proof fn law_resolution_idempotent(session: Session, kind: TagKind, name: String)
    requires
        session.wf(),
    ensures
        ({
            let (once, first) = resolved(session, kind, name);
            let (twice, second) = resolved(once, kind, name);
            &&& second == first
            &&& twice == once
        }),
{
    law_resolution(session, kind, name);
    let (once, first) = resolved(session, kind, name);
    law_resolution(once, kind, name);
}

/// Resolving another name in between changes nothing: a name that was
/// resolved is resolved to the same tag afterwards, and that leaves the
/// session as it was.
pub proof fn law_resolution_interleaved(
    session: Session,
    kind: TagKind,
    name: String,
    other_kind: TagKind,
    other: String,
)
    requires
        session.wf(),
    ensures
        ({
            let (once, first) = resolved(session, kind, name);
            let (between, middle) = resolved(once, other_kind, other);
            let (twice, second) = resolved(between, kind, name);
            first is Done && first->Done_0 is Ok ==> second == first && twice == between
        }),
{
    law_resolution(session, kind, name);
    let (once, first) = resolved(session, kind, name);
    law_resolution(once, other_kind, other);
    let (between, middle) = resolved(once, other_kind, other);
    law_resolution(between, kind, name);
    if first is Done && first->Done_0 is Ok {
        assert(once.current().tags(kind).has(name@));
        if other_kind == kind {
            assert(between.current().tags(kind).has(name@));
        } else if tag_failure(once.current(), other_kind, other) is None {
            assert(between.current().tags(kind) == once.current().tags(kind));
        }
        assert(between.current().tags(kind).has(name@));
    }
}

/// The session and the result of resolving a currency on `session`.
pub open spec fn currency_resolved(session: Session, format: CurrencyFormat) -> (
    Session,
    Step<CurrencyRecord>,
) {
    let (resolution, step) = CurrencyResolution::begin(format);
    run(resolution, step, session, 2)
}

/// What the resolution of a currency comes to. A currency without a name,
/// one that is stored under its name with another content, or one that is
/// not stored while the table has no key left, is not resolved, and the
/// session is left as it was. Any other currency is resolved to the stored
/// record, or is stored under the next key and resolved to that.
pub proof fn law_currency_resolution(session: Session, format: CurrencyFormat)
    requires
        session.wf(),
    ensures
        ({
            let (after, end) = currency_resolved(session, format);
            let tables = session.current();
            &&& after.wf()
            &&& match currency_failure(tables, format) {
                Some(error) => after == session && end == Step::<CurrencyRecord>::Done(
                    Err(error),
                ),
                None => {
                    &&& end == Step::Done(Ok(currency_of(tables, format)))
                    &&& after.current() == with_currency(tables, format)
                    &&& tables.currencies.has(format.name@) ==> after == session
                    &&& after.current().currencies.has(format.name@)
                    &&& after.current().currencies.named(format.name@) == currency_of(
                        tables,
                        format,
                    )
                    &&& currency_of(tables, format).format.same(&format)
                },
            }
        }),
{
    reveal_with_fuel(run, 3);
    let tables = session.current();
    if format.name@.len() > 0 && !tables.currencies.has(format.name@)
        && tables.currencies.has_room() {
        let (resolution, step) = CurrencyResolution::begin(format);
        let (s1, reply1) = respond(session, step->Run_0);
        let record = currency_of(tables, format);
        lemma_with_currency(tables.currencies, record);
        lemma_with_keeps(tables.currencies, format.name@, record);
        assert(s1.current() == with_currency(tables, format));
        assert(s1.wf());
    }
}

/// Resolving the same currency twice gives the same result both times,
/// and the second resolution leaves the session as the first one left it.
pub proof fn law_currency_resolution_idempotent(session: Session, format: CurrencyFormat)
    requires
        session.wf(),
    ensures
        ({
            let (once, first) = currency_resolved(session, format);
            let (twice, second) = currency_resolved(once, format);
            &&& second == first
            &&& twice == once
        }),
{
    law_currency_resolution(session, format);
    let (once, first) = currency_resolved(session, format);
    law_currency_resolution(once, format);
}

/// The session and the result of creating an account on `session`.
pub open spec fn account_created(
    session: Session,
    name: String,
    currency: CurrencyFormat,
    account_type: String,
) -> (Session, Step<Account>) {
    let (creation, step) = AccountCreation::begin(name, currency, account_type);
    run(creation, step, session, 8)
}

/// The account that a creation stores on these tables.
pub open spec fn new_account(
    tables: Tables,
    name: String,
    currency: CurrencyFormat,
    account_type: String,
) -> Account {
    Account {
        id: tables.accounts.next as i64,
        name,
        currency: currency_of(tables, currency),
        balance: Decimal::whole(0),
        posted_balance: Decimal::whole(0),
        account_type: AccountType { tag: tag_of(tables, TagKind::AccountType, account_type) },
    }
}

/// What the creation of an account returns on these tables.
///
/// It fails where the type cannot be resolved; else where the currency
/// cannot be resolved, with the stored currency where that is in conflict;
/// else where the account has no name. Else, where an account of the name
/// is stored, that account is returned if it has the currency and the type
/// that were asked for and both its balances are zero, and the creation
/// fails with it if not. Else the creation fails where the table of
/// accounts has no key left, and returns the new account where it has.
pub open spec fn account_outcome(
    tables: Tables,
    name: String,
    currency: CurrencyFormat,
    account_type: String,
) -> Result<Account, Error> {
    let resolved_type = AccountType { tag: tag_of(tables, TagKind::AccountType, account_type) };
    match tag_failure(tables, TagKind::AccountType, account_type) {
        Some(error) => Err(error),
        None => match currency_failure(tables, currency) {
            Some(error) => Err(error),
            None => if name@.len() == 0 {
                Err(Error::Validation(Invalid::EmptyName))
            } else if tables.accounts.has(name@) {
                let existing = tables.accounts.named(name@);
                if as_requested(existing, resolved_type, currency_of(tables, currency)) {
                    Ok(existing)
                } else {
                    Err(Error::AccountAlreadyExists(existing))
                }
            } else if !tables.accounts.has_room() {
                Err(Error::Storage(Operation::InsertAccount))
            } else {
                Ok(new_account(tables, name, currency, account_type))
            },
        },
    }
}

/// The tables that the creation of an account leaves: those that it found,
/// unless it stores the account, and with it its type and its currency
/// where they were not stored before.
pub open spec fn account_tables(
    tables: Tables,
    name: String,
    currency: CurrencyFormat,
    account_type: String,
) -> Tables {
    if account_outcome(tables, name, currency, account_type) is Ok && !tables.accounts.has(
        name@,
    ) {
        Tables {
            accounts: tables.accounts.with(
                name@,
                new_account(tables, name, currency, account_type),
            ),
            ..with_currency(with_tag(tables, TagKind::AccountType, account_type), currency)
        }
    } else {
        tables
    }
}

/// The creation of an account, on a session with no transaction open,
/// returns what [`account_outcome`] says and leaves no transaction open.
/// Where it fails, and where it returns an account that was stored before,
/// the session is left as it was; where it returns a new account, that
/// account is stored with both balances zero, together with its type and
/// its currency where they were not stored before.
#[verifier::rlimit(40)]
pub proof fn law_account_creation(
    session: Session,
    name: String,
    currency: CurrencyFormat,
    account_type: String,
)
    requires
        session.wf(),
        session.pending is None,
    ensures
        ({
            let (after, end) = account_created(session, name, currency, account_type);
            let tables = session.committed;
            &&& after.wf()
            &&& end == Step::Done(account_outcome(tables, name, currency, account_type))
            &&& after == Session::idle(account_tables(tables, name, currency, account_type))
        }),
{
    let tables = session.committed;
    let kind = TagKind::AccountType;
    let (w0, step0) = AccountCreation::begin(name, currency, account_type);
    lemma_type_settled(session, name, currency, account_type);
    if tag_failure(tables, kind, account_type) is None {
        lemma_currency_settled(session, name, currency, account_type);
        if currency_failure(tables, currency) is None {
            let tag = tag_of(tables, kind, account_type);
            let record = currency_of(tables, currency);
            let typed = with_tag(tables, kind, account_type);
            let resolved = with_currency(typed, currency);
            let spent = 1 + steps_of(tables, kind, account_type) + (if tables.currencies.has(
                currency.name@,
            ) {
                2nat
            } else {
                1nat
            });
            let fuel = (8 - spent) as nat;
            let (w5, step5) = w0.after_currency(
                AccountType { tag },
                (CurrencyResolution::begin(currency).0, Step::Done(Ok(record))),
            );
            let s5 = Session { committed: tables, pending: Some(resolved) };
            let (s6, r6) = respond(s5, step5->Run_0);
            let (w6, step6) = w5.next(r6);
            if name@.len() == 0 {
                assert(s6 == session);
                assert(run(w5, step5, s5, fuel) == (s6, step6)) by {
                    reveal_with_fuel(run, 2);
                }
            } else {
                let (s7, r7) = respond(s6, step6->Run_0);
                let (w7, step7) = w6.next(r7);
                if tables.accounts.has(name@) {
                    let (s8, r8) = respond(s7, step7->Run_0);
                    let (w8, step8) = w7.next(r8);
                    assert(s8 == session);
                    assert(run(w5, step5, s5, fuel) == (s8, step8)) by {
                        reveal_with_fuel(run, 4);
                    }
                } else if !tables.accounts.has_room() {
                    assert(s7 == session);
                    assert(run(w5, step5, s5, fuel) == (s7, step7)) by {
                        reveal_with_fuel(run, 3);
                    }
                } else {
                    let account = new_account(tables, name, currency, account_type);
                    lemma_with_account(tables.accounts, account);
                    lemma_with_keeps(tables.accounts, name@, account);
                    let stored = Tables {
                        accounts: tables.accounts.with(name@, account),
                        ..resolved
                    };
                    assert(s6.pending == Some(stored));
                    assert(stored.wf());
                    assert(s7 == Session::idle(stored));
                    assert(run(w5, step5, s5, fuel) == (s7, step7)) by {
                        reveal_with_fuel(run, 3);
                    }
                }
            }
        }
    }
}

/// The creation of an account either fails at the resolution of its type,
/// leaving the session as it was, or reaches the resolution of its
/// currency with the type stored in the open transaction.
#[verifier::rlimit(40)]
proof fn lemma_type_settled(
    session: Session,
    name: String,
    currency: CurrencyFormat,
    account_type: String,
)
    requires
        session.wf(),
        session.pending is None,
    ensures
        ({
            let tables = session.committed;
            let kind = TagKind::AccountType;
            let (w0, step0) = AccountCreation::begin(name, currency, account_type);
            let typed = with_tag(tables, kind, account_type);
            let (w3, step3) = w0.after_currency(
                AccountType { tag: tag_of(tables, kind, account_type) },
                CurrencyResolution::begin(currency),
            );
            let spent = 1 + steps_of(tables, kind, account_type);
            match tag_failure(tables, kind, account_type) {
                Some(error) => run(w0, step0, session, 8) == (
                    session,
                    Step::<Account>::Done(Err(error)),
                ),
                None => {
                    &&& typed.wf()
                    &&& typed.currencies == tables.currencies
                    &&& typed.accounts == tables.accounts
                    &&& typed.account_types.rows.dom().contains(
                        tag_of(tables, kind, account_type).id,
                    )
                    &&& typed.account_types.rows[tag_of(tables, kind, account_type).id]
                        == tag_of(tables, kind, account_type)
                    &&& run(w0, step0, session, 8) == run(
                        w3,
                        step3,
                        Session { committed: tables, pending: Some(typed) },
                        (8 - spent) as nat,
                    )
                },
            }
        }),
{
    let tables = session.committed;
    let kind = TagKind::AccountType;
    let (w0, step0) = AccountCreation::begin(name, currency, account_type);
    let (s1, r1) = respond(session, Command::Begin);
    let (w1, step1) = w0.next(r1);
    assert(s1.pending == Some(tables));
    reveal_with_fuel(run, 4);
    let (s2, r2) = respond(s1, step1->Run_0);
    let (w2, step2) = w1.next(r2);
    if account_type@.len() == 0 {
        assert(s2 == session);
    } else if tables.account_types.has(account_type@) {
        let (s3, r3) = respond(s2, step2->Run_0);
        let (w3, step3) = w2.next(r3);
        assert(s3 == s1);
    } else if tables.account_types.has_room() {
        let tag = tag_of(tables, kind, account_type);
        lemma_with_tag(tables.account_types, tag);
        lemma_with_keeps(tables.account_types, account_type@, tag);
        assert(s2.pending == Some(with_tag(tables, kind, account_type)));
    } else {
        let (s3, r3) = respond(s2, step2->Run_0);
        assert(s3 == session);
    }
}

/// Once its type is resolved, the creation of an account either fails at
/// the resolution of its currency, leaving the session as it was, or
/// reaches the point where the account is handed to the storage, with the
/// currency stored in the open transaction.
#[verifier::rlimit(40)]
proof fn lemma_currency_settled(
    session: Session,
    name: String,
    currency: CurrencyFormat,
    account_type: String,
)
    requires
        session.wf(),
        session.pending is None,
        tag_failure(session.committed, TagKind::AccountType, account_type) is None,
    ensures
        ({
            let tables = session.committed;
            let kind = TagKind::AccountType;
            let (w0, step0) = AccountCreation::begin(name, currency, account_type);
            let tag = tag_of(tables, kind, account_type);
            let record = currency_of(tables, currency);
            let typed = with_tag(tables, kind, account_type);
            let resolved = with_currency(typed, currency);
            let (w3, step3) = w0.after_currency(
                AccountType { tag },
                CurrencyResolution::begin(currency),
            );
            let (w5, step5) = w0.after_currency(
                AccountType { tag },
                (CurrencyResolution::begin(currency).0, Step::Done(Ok(record))),
            );
            let spent = 1 + steps_of(tables, kind, account_type);
            let used = spent + (if tables.currencies.has(currency.name@) {
                2nat
            } else {
                1nat
            });
            let s3 = Session { committed: tables, pending: Some(typed) };
            match currency_failure(tables, currency) {
                Some(error) => run(w3, step3, s3, (8 - spent) as nat) == (
                    session,
                    Step::<Account>::Done(Err(error)),
                ),
                None => {
                    &&& resolved.wf()
                    &&& resolved.accounts == tables.accounts
                    &&& resolved.currencies.rows.dom().contains(record.id)
                    &&& resolved.currencies.rows[record.id] == record
                    &&& resolved.account_types.rows.dom().contains(tag.id)
                    &&& resolved.account_types.rows[tag.id] == tag
                    &&& run(w3, step3, s3, (8 - spent) as nat) == run(
                        w5,
                        step5,
                        Session { committed: tables, pending: Some(resolved) },
                        (8 - used) as nat,
                    )
                },
            }
        }),
{
    let tables = session.committed;
    let kind = TagKind::AccountType;
    let (w0, step0) = AccountCreation::begin(name, currency, account_type);
    let tag = tag_of(tables, kind, account_type);
    let record = currency_of(tables, currency);
    let typed = with_tag(tables, kind, account_type);
    if !tables.account_types.has(account_type@) {
        lemma_with_tag(tables.account_types, tag);
        lemma_with_keeps(tables.account_types, account_type@, tag);
    }
    assert(typed.wf());
    assert(typed.currencies == tables.currencies);
    let (w3, step3) = w0.after_currency(AccountType { tag }, CurrencyResolution::begin(currency));
    let s3 = Session { committed: tables, pending: Some(typed) };
    reveal_with_fuel(run, 4);
    let (s4, r4) = respond(s3, step3->Run_0);
    let (w4, step4) = w3.next(r4);
    if currency.name@.len() == 0 {
        assert(s4 == session);
    } else if tables.currencies.has(currency.name@) {
        let (s5, r5) = respond(s4, step4->Run_0);
        let (w5, step5) = w4.next(r5);
        assert(s5 == s3);
        if conflicting(tables, currency) {
            let (s6, r6) = respond(s5, step5->Run_0);
            assert(s6 == session);
        }
    } else if tables.currencies.has_room() {
        lemma_with_currency(tables.currencies, record);
        lemma_with_keeps(tables.currencies, currency.name@, record);
        assert(s4.pending == Some(with_currency(typed, currency)));
    } else {
        let (s5, r5) = respond(s4, step4->Run_0);
        assert(s5 == session);
    }
}

/// Creating the same account twice returns the same account both times,
/// and the second creation leaves the session as the first one left it.
#[verifier::rlimit(40)]
pub proof fn law_account_creation_idempotent(
    session: Session,
    name: String,
    currency: CurrencyFormat,
    account_type: String,
)
    requires
        session.wf(),
        session.pending is None,
    ensures
        ({
            let (once, first) = account_created(session, name, currency, account_type);
            let (twice, second) = account_created(once, name, currency, account_type);
            first is Done && first->Done_0 is Ok ==> second == first && twice == once
        }),
{
    broadcast use Decimal::lemma_whole;

    law_account_creation(session, name, currency, account_type);
    let (once, first) = account_created(session, name, currency, account_type);
    let tables = session.committed;
    if first is Done && first->Done_0 is Ok && !tables.accounts.has(name@) {
        let kind = TagKind::AccountType;
        let tag = tag_of(tables, kind, account_type);
        let record = currency_of(tables, currency);
        let account = new_account(tables, name, currency, account_type);
        if !tables.account_types.has(account_type@) {
            lemma_with_keeps(tables.account_types, account_type@, tag);
        }
        if !tables.currencies.has(currency.name@) {
            lemma_with_keeps(tables.currencies, currency.name@, record);
        }
        lemma_with_keeps(tables.accounts, name@, account);
        law_account_creation(once, name, currency, account_type);
        assert(tag_of(once.committed, kind, account_type) == tag);
        assert(currency_of(once.committed, currency) == record);
        assert(record.format.same(&currency));
        assert(once.committed.accounts.named(name@) == account);
    }
}

/// Creating an account that exists under another type or in another
/// currency leaves the session as it was. It fails with the account that
/// exists, unless the other type or the other currency cannot be resolved,
/// in which case it fails with that.
#[verifier::rlimit(40)]
pub proof fn law_account_creation_conflict(
    session: Session,
    name: String,
    currency: CurrencyFormat,
    account_type: String,
    other_currency: CurrencyFormat,
    other_type: String,
)
    requires
        session.wf(),
        session.pending is None,
        other_type@ != account_type@ || other_currency.name@ != currency.name@,
    ensures
        ({
            let (once, first) = account_created(session, name, currency, account_type);
            let (twice, second) = account_created(once, name, other_currency, other_type);
            let stored = once.committed;
            first matches Step::Done(Ok(account)) ==> twice == once && second == Step::<
                Account,
            >::Done(
                Err(
                    match tag_failure(stored, TagKind::AccountType, other_type) {
                        Some(error) => error,
                        None => match currency_failure(stored, other_currency) {
                            Some(error) => error,
                            None => Error::AccountAlreadyExists(account),
                        },
                    },
                ),
            )
        }),
{
    broadcast use Decimal::lemma_whole;

    law_account_creation(session, name, currency, account_type);
    let (once, first) = account_created(session, name, currency, account_type);
    let tables = session.committed;
    let kind = TagKind::AccountType;
    if let Step::Done(Ok(account)) = first {
        let tag = tag_of(tables, kind, account_type);
        let record = currency_of(tables, currency);
        if !tables.accounts.has(name@) {
            if !tables.account_types.has(account_type@) {
                lemma_with_keeps(tables.account_types, account_type@, tag);
            }
            if !tables.currencies.has(currency.name@) {
                lemma_with_keeps(tables.currencies, currency.name@, record);
            }
            lemma_with_keeps(tables.accounts, name@, account);
        }
        let stored = once.committed;
        assert(stored.accounts.has(name@) && stored.accounts.named(name@) == account);
        assert(stored.accounts.rows.dom().contains(account.id));
        assert(stored.account_types.rows[account.account_type.tag.id]
            == account.account_type.tag);
        assert(stored.currencies.rows[account.currency.id] == account.currency);
        assert(stored.account_types.has(account_type@) && stored.account_types.named(
            account_type@,
        ).id == account.account_type.tag.id);
        assert(stored.currencies.has(currency.name@) && stored.currencies.named(
            currency.name@,
        ).id == account.currency.id);
        law_account_creation(once, name, other_currency, other_type);
        if tag_failure(stored, kind, other_type) is None && currency_failure(
            stored,
            other_currency,
        ) is None {
            let other_tag = tag_of(stored, kind, other_type);
            let other_record = currency_of(stored, other_currency);
            if other_type@ != account_type@ {
                if stored.account_types.has(other_type@) {
                    assert(stored.account_types.rows.dom().contains(other_tag.id));
                }
                assert(other_tag.id != account.account_type.tag.id);
            } else {
                if stored.currencies.has(other_currency.name@) {
                    assert(stored.currencies.rows.dom().contains(other_record.id));
                }
                assert(other_record.id != account.currency.id);
            }
        }
    }
}

/// Every reply that lists accounts is what the listing returns.
pub proof fn law_accounts_listed(listed: Vec<Account>)
    ensures
        ({
            let (listing, step) = AccountListing::begin();
            &&& step == Step::<Vec<Account>>::Run(Command::FetchAccounts)
            &&& listing.next(Reply::Accounts(listed)).1 == Step::Done(Ok(listed))
        }),
{
}

/// On a session without accounts, where the creation of two accounts of
/// different names succeeds, it leaves no transaction open and exactly
/// those two accounts, each with both balances zero; and every listing of
/// the accounts holds those two and nothing else.
#[verifier::rlimit(40)]
pub proof fn law_two_accounts(
    session: Session,
    first_name: String,
    first_currency: CurrencyFormat,
    first_type: String,
    second_name: String,
    second_currency: CurrencyFormat,
    second_type: String,
    listed: Vec<Account>,
)
    requires
        session.wf(),
        session.pending is None,
        session.committed.accounts.rows.dom() =~= Set::empty(),
        first_name@ != second_name@,
    ensures
        ({
            let (once, first) = account_created(session, first_name, first_currency, first_type);
            let (twice, second) = account_created(
                once,
                second_name,
                second_currency,
                second_type,
            );
            let accounts = twice.committed.accounts;
            let (listing, step) = AccountListing::begin();
            first matches Step::Done(Ok(one)) ==> second matches Step::Done(Ok(two)) ==> {
                &&& twice.wf()
                &&& twice.pending is None
                &&& accounts.rows.dom() =~= set![one.id, two.id]
                &&& one.id != two.id
                &&& accounts.rows[one.id] == one
                &&& accounts.rows[two.id] == two
                &&& one.name == first_name
                &&& two.name == second_name
                &&& one.balance@.is_zero() && one.posted_balance@.is_zero()
                &&& two.balance@.is_zero() && two.posted_balance@.is_zero()
                &&& lists(listed@, twice.current().accounts) ==> {
                    &&& listing.next(Reply::Accounts(listed)).1 == Step::Done(Ok(listed))
                    &&& listed.len() == 2
                    &&& (listed[0] == one && listed[1] == two) || (listed[0] == two
                        && listed[1] == one)
                }
            }
        }),
{
    broadcast use Decimal::lemma_whole;

    let tables = session.committed;
    let kind = TagKind::AccountType;
    law_account_creation(session, first_name, first_currency, first_type);
    let (once, first) = account_created(session, first_name, first_currency, first_type);
    let stored = once.committed;
    law_account_creation(once, second_name, second_currency, second_type);
    let (twice, second) = account_created(once, second_name, second_currency, second_type);
    if first is Done && first->Done_0 is Ok && second is Done && second->Done_0 is Ok {
        assert(!tables.accounts.has(first_name@)) by {
            if tables.accounts.has(first_name@) {
                assert(tables.accounts.rows.dom().contains(tables.accounts.keys[first_name@]));
            }
        }
        let one = new_account(tables, first_name, first_currency, first_type);
        lemma_with_keeps(tables.accounts, first_name@, one);
        assert(!stored.accounts.has(second_name@));
        let two = new_account(stored, second_name, second_currency, second_type);
        lemma_with_keeps(stored.accounts, second_name@, two);
        let accounts = twice.committed.accounts;
        assert(accounts.rows.dom() =~= set![one.id, two.id]);
        if lists(listed@, accounts) {
            assert(set![one.id, two.id].len() == 2) by {
                assert(set![one.id, two.id] =~= Set::<i64>::empty().insert(one.id).insert(two.id));
            }
            assert(accounts.rows.dom().contains(listed[0].id));
            assert(accounts.rows.dom().contains(listed[1].id));
        }
    }
}

/// Whatever the storage replies, the creation of an account does not end
/// with a transaction open: inside its transaction it ends only once the
/// commit has succeeded, and otherwise goes on, with a rollback where it
/// has failed or found the name taken.
pub proof fn law_account_creation_closes_its_transaction(creation: AccountCreation, reply: Reply)
    requires
        creation.in_transaction(),
    ensures
        ({
            let (next, step) = creation.next(reply);
            &&& step is Done ==> creation.stage is Commit && reply is Done && step->Done_0 is Ok
            &&& step is Run ==> next.in_transaction() || ((next.stage is Abort
                || next.stage is Undo) && step == Step::<Account>::Run(Command::Rollback))
        }),
{
}

/// Whatever the storage replies, the creation of a transaction does not
/// end with a transaction of the storage open: inside it the creation goes
/// on, with a rollback where it has failed, and after the commit it only
/// looks up what it stored.
pub proof fn law_transaction_creation_closes_its_transaction(
    creation: TransactionCreation,
    reply: Reply,
)
    requires
        creation.in_transaction(),
    ensures
        ({
            let (next, step) = creation.next(reply);
            &&& step is Run
            &&& next.in_transaction() || (next.stage is Abort && step == Step::<
                Transaction,
            >::Run(Command::Rollback)) || (creation.stage is Commit && reply is Done
                && next.stage is Fetch)
        }),
{
}

/// The session and the result of creating a transaction on `session`.
pub open spec fn transaction_created(session: Session, args: TransactionArgs) -> (
    Session,
    Step<Transaction>,
) {
    let (creation, step) = TransactionCreation::begin(args);
    run(creation, step, session, 8)
}

/// The tag that an optional name is resolved to: none for the empty name.
pub open spec fn optional_tag(tables: Tables, kind: TagKind, name: String) -> Option<Tag> {
    if name@.len() == 0 {
        None
    } else {
        Some(tag_of(tables, kind, name))
    }
}

/// The tables once an optional name is resolved on them.
pub open spec fn with_optional_tag(tables: Tables, kind: TagKind, name: String) -> Tables {
    if name@.len() == 0 {
        tables
    } else {
        with_tag(tables, kind, name)
    }
}

/// Why an optional name cannot be resolved, if it cannot: it is not empty,
/// not stored, and the table has no key left for it.
pub open spec fn optional_failure(tables: Tables, kind: TagKind, name: String) -> Option<Error> {
    if name@.len() == 0 {
        None
    } else {
        tag_failure(tables, kind, name)
    }
}

/// The category that the creation of a transaction settles on.
pub open spec fn category_of(tables: Tables, args: TransactionArgs) -> Option<Category> {
    match optional_tag(tables, TagKind::Category, args.category) {
        Some(tag) => Some(Category { tag }),
        None => None,
    }
}

/// The method that the creation of a transaction settles on.
pub open spec fn method_of(tables: Tables, args: TransactionArgs) -> Option<Method> {
    match optional_tag(tables, TagKind::Method, args.method) {
        Some(tag) => Some(Method { tag }),
        None => None,
    }
}

/// The entry that the creation of a transaction stores on these tables.
pub open spec fn new_entry(tables: Tables, args: TransactionArgs) -> NewTransaction {
    args.entry(category_of(tables, args), method_of(tables, args))
}

/// Why the category or the method of a transaction cannot be resolved, if
/// one of them cannot.
pub open spec fn naming_failure(tables: Tables, args: TransactionArgs) -> Option<Error> {
    match optional_failure(tables, TagKind::Category, args.category) {
        Some(error) => Some(error),
        None => optional_failure(tables, TagKind::Method, args.method),
    }
}

/// What the creation of a transaction returns on these tables.
///
/// It fails where its category or its method cannot be resolved. Else it
/// fails with the rule that is broken where the posted date is earlier
/// than the date, where a check number stands without a debit account, or
/// where the debit account has the check number already. Else it fails
/// where the table of transactions has no key left, and returns the
/// transaction as it is stored where it has.
pub open spec fn transaction_outcome(tables: Tables, args: TransactionArgs) -> Result<
    Transaction,
    Error,
> {
    match naming_failure(tables, args) {
        Some(error) => Err(error),
        None => match broken_rule(tables, new_entry(tables, args)) {
            Some(Constraint::Check) => Err(Error::Validation(args.broken())),
            Some(Constraint::Unique) => Err(Error::Validation(Invalid::DuplicateCheckNumber)),
            Some(Constraint::Reference) => Err(Error::Validation(Invalid::Refused)),
            None => if !tables.transactions.has_room() {
                Err(Error::Storage(Operation::InsertTransaction))
            } else {
                Ok(stored_transaction(new_entry(tables, args), tables.transactions.next as i64))
            },
        },
    }
}

/// The tables that the creation of a transaction leaves: those that it
/// found, unless it stores the transaction, and with it its category and
/// its method where they are named and were not stored before.
pub open spec fn transaction_tables(tables: Tables, args: TransactionArgs) -> Tables {
    match transaction_outcome(tables, args) {
        Ok(stored) => Tables {
            transactions: Table {
                rows: tables.transactions.rows.insert(stored.id, stored),
                next: tables.transactions.next + 1,
                ..tables.transactions
            },
            ..with_optional_tag(
                with_optional_tag(tables, TagKind::Category, args.category),
                TagKind::Method,
                args.method,
            )
        },
        Err(_) => tables,
    }
}

/// The creation of a transaction, on a session with no transaction open,
/// returns what [`transaction_outcome`] says and leaves no transaction
/// open. Where it fails, the session is left as it was; where it succeeds,
/// the transaction is stored under the next key, together with its
/// category and its method where they are named and were not stored
/// before, and no balance of an account is changed.
#[verifier::rlimit(40)]
pub proof fn law_transaction_creation(session: Session, args: TransactionArgs)
    requires
        session.wf(),
        session.pending is None,
    ensures
        ({
            let (after, end) = transaction_created(session, args);
            let tables = session.committed;
            &&& after.wf()
            &&& end == Step::Done(transaction_outcome(tables, args))
            &&& after == Session::idle(transaction_tables(tables, args))
            &&& after.committed.accounts == tables.accounts
            &&& broken_rule(tables, new_entry(tables, args)) != Some(Constraint::Reference)
            &&& broken_rule(tables, new_entry(tables, args)) == Some(Constraint::Check)
                ==> args.broken() != Invalid::Refused
        }),
{
    let tables = session.committed;
    let (w0, step0) = TransactionCreation::begin(args);
    lemma_category_settled(session, args);
    if optional_failure(tables, TagKind::Category, args.category) is None {
        lemma_method_settled(session, args);
        if optional_failure(tables, TagKind::Method, args.method) is None {
            let first = with_optional_tag(tables, TagKind::Category, args.category);
            let second = with_optional_tag(first, TagKind::Method, args.method);
            let used = 1 + steps_of(tables, TagKind::Category, args.category) + steps_of(
                tables,
                TagKind::Method,
                args.method,
            );
            let entry = new_entry(tables, args);
            let w5 = w0.at(TransactionStage::Insert);
            let step5 = Step::<Transaction>::Run(Command::InsertTransaction { entry });
            let s5 = Session { committed: tables, pending: Some(second) };
            assert(second.transactions == tables.transactions);
            assert(second.accounts == tables.accounts);
            assert(broken_rule(second, entry) == broken_rule(tables, entry)) by {
                if entry.check_number is Some && entry.debit_account is Some {
                    let check = entry.check_number->0;
                    let debit = entry.debit_account->0;
                    assert(second.has_check(check, debit) == tables.has_check(check, debit));
                }
            }
            let (s6, r6) = respond(s5, step5->Run_0);
            let (w6, step6) = w5.next(r6);
            let (s7, r7) = respond(s6, step6->Run_0);
            let (w7, step7) = w6.next(r7);
            if broken_rule(tables, entry) is Some || !tables.transactions.has_room() {
                assert(s7 == session);
                assert(run(w5, step5, s5, (8 - used) as nat) == (s7, step7)) by {
                    reveal_with_fuel(run, 3);
                }
            } else {
                let (s8, r8) = respond(s7, step7->Run_0);
                let (w8, step8) = w7.next(r8);
                let stored = stored_transaction(entry, tables.transactions.next as i64);
                assert(!tables.transactions.rows.dom().contains(stored.id)) by {
                    if tables.transactions.rows.dom().contains(stored.id) {
                        assert(false);
                    }
                }
                lemma_with_transaction(tables, entry);
                assert(s8.wf());
                assert(run(w5, step5, s5, (8 - used) as nat) == (s8, step8)) by {
                    reveal_with_fuel(run, 4);
                }
            }
        }
    }
}

/// The creation of a transaction either fails at the resolution of its
/// category, leaving the session as it was, or reaches the point where its
/// category is settled, with the category stored in the open transaction.
#[verifier::rlimit(40)]
proof fn lemma_category_settled(session: Session, args: TransactionArgs)
    requires
        session.wf(),
        session.pending is None,
    ensures
        ({
            let tables = session.committed;
            let kind = TagKind::Category;
            let (w0, step0) = TransactionCreation::begin(args);
            let first = with_optional_tag(tables, kind, args.category);
            let (w3, step3) = w0.after_category(category_of(tables, args));
            let used = 1 + steps_of(tables, kind, args.category);
            match optional_failure(tables, kind, args.category) {
                Some(error) => run(w0, step0, session, 8) == (
                    session,
                    Step::<Transaction>::Done(Err(error)),
                ),
                None => {
                    &&& first.wf()
                    &&& first.methods == tables.methods
                    &&& first.transactions == tables.transactions
                    &&& first.accounts == tables.accounts
                    &&& run(w0, step0, session, 8) == run(
                        w3,
                        step3,
                        Session { committed: tables, pending: Some(first) },
                        (8 - used) as nat,
                    )
                },
            }
        }),
{
    let tables = session.committed;
    let kind = TagKind::Category;
    let (w0, step0) = TransactionCreation::begin(args);
    let (s1, r1) = respond(session, Command::Begin);
    let (w1, step1) = w0.next(r1);
    assert(s1.pending == Some(tables));
    reveal_with_fuel(run, 4);
    if args.category@.len() > 0 {
        let tag = tag_of(tables, kind, args.category);
        let (s2, r2) = respond(s1, step1->Run_0);
        let (w2, step2) = w1.next(r2);
        if tables.categories.has(args.category@) {
            let (s3, r3) = respond(s2, step2->Run_0);
            let (w3, step3) = w2.next(r3);
            assert((w3, step3) == w0.after_category(category_of(tables, args)));
        } else if tables.categories.has_room() {
            lemma_with_tag(tables.categories, tag);
            lemma_with_keeps(tables.categories, args.category@, tag);
            assert((w2, step2) == w0.after_category(category_of(tables, args)));
        } else {
            let (s3, r3) = respond(s2, step2->Run_0);
            assert(s3 == session);
        }
    }
}

/// From the point where its category is settled, the creation of a
/// transaction either fails at the resolution of its method, leaving the
/// session as it was, or reaches the point where the transaction is handed
/// to the storage, with the method stored in the open transaction.
#[verifier::rlimit(40)]
proof fn lemma_method_settled(session: Session, args: TransactionArgs)
    requires
        session.wf(),
        session.pending is None,
        optional_failure(session.committed, TagKind::Category, args.category) is None,
    ensures
        ({
            let tables = session.committed;
            let kind = TagKind::Method;
            let (w0, step0) = TransactionCreation::begin(args);
            let first = with_optional_tag(tables, TagKind::Category, args.category);
            let second = with_optional_tag(first, kind, args.method);
            let (w3, step3) = w0.after_category(category_of(tables, args));
            let spent = 1 + steps_of(tables, TagKind::Category, args.category);
            let used = spent + steps_of(tables, kind, args.method);
            let s3 = Session { committed: tables, pending: Some(first) };
            match optional_failure(tables, kind, args.method) {
                Some(error) => run(w3, step3, s3, (8 - spent) as nat) == (
                    session,
                    Step::<Transaction>::Done(Err(error)),
                ),
                None => {
                    &&& second.wf()
                    &&& second.transactions == tables.transactions
                    &&& second.accounts == tables.accounts
                    &&& run(w3, step3, s3, (8 - spent) as nat) == run(
                        w0.at(TransactionStage::Insert),
                        Step::Run(Command::InsertTransaction { entry: new_entry(tables, args) }),
                        Session { committed: tables, pending: Some(second) },
                        (8 - used) as nat,
                    )
                },
            }
        }),
{
    let tables = session.committed;
    let kind = TagKind::Method;
    let (w0, step0) = TransactionCreation::begin(args);
    let first = with_optional_tag(tables, TagKind::Category, args.category);
    if args.category@.len() > 0 && !tables.categories.has(args.category@) {
        let tag = tag_of(tables, TagKind::Category, args.category);
        lemma_with_tag(tables.categories, tag);
        lemma_with_keeps(tables.categories, args.category@, tag);
    }
    assert(first.wf());
    assert(first.methods == tables.methods);
    let (w3, step3) = w0.after_category(category_of(tables, args));
    let s3 = Session { committed: tables, pending: Some(first) };
    reveal_with_fuel(run, 3);
    if args.method@.len() > 0 {
        let tag = tag_of(tables, kind, args.method);
        assert(tag == tag_of(first, kind, args.method));
        let (s4, r4) = respond(s3, step3->Run_0);
        let (w4, step4) = w3.next(r4);
        if tables.methods.has(args.method@) {
            let (s5, r5) = respond(s4, step4->Run_0);
            let (w5, step5) = w4.next(r5);
            assert(s5 == s3);
        } else if tables.methods.has_room() {
            lemma_with_tag(tables.methods, tag);
            lemma_with_keeps(tables.methods, args.method@, tag);
            assert(s4.pending == Some(with_tag(first, kind, args.method)));
        } else {
            let (s5, r5) = respond(s4, step4->Run_0);
            assert(s5 == session);
        }
    }
}

/// A transaction whose posted date is earlier than its date is never
/// stored: its creation fails and leaves the session as it was. It fails
/// with the rule that is broken, unless its category or its method cannot
/// be resolved, in which case it fails with that.
pub proof fn law_posted_date_not_before_date(session: Session, args: TransactionArgs)
    requires
        session.wf(),
        session.pending is None,
        args.posted_date matches Some(posted) && posted@.before(args.date@),
    ensures
        transaction_created(session, args) == (
            session,
            Step::<Transaction>::Done(
                Err(
                    match naming_failure(session.committed, args) {
                        Some(error) => error,
                        None => Error::Validation(Invalid::PostedBeforeDate),
                    },
                ),
            ),
        ),
{
    law_transaction_creation(session, args);
}

/// A transaction with a check number and without a debit account is never
/// stored: its creation fails and leaves the session as it was. It fails
/// with the rule that is broken, unless its category or its method cannot
/// be resolved, in which case it fails with that.
pub proof fn law_check_number_needs_debit_account(session: Session, args: TransactionArgs)
    requires
        session.wf(),
        session.pending is None,
        args.check_number is Some,
        args.debit_account is None,
    ensures
        transaction_created(session, args) == (
            session,
            Step::<Transaction>::Done(
                Err(
                    match naming_failure(session.committed, args) {
                        Some(error) => error,
                        None => Error::Validation(
                            if args.posted_date matches Some(posted) && posted@.before(
                                args.date@,
                            ) {
                                Invalid::PostedBeforeDate
                            } else {
                                Invalid::CheckNumberWithoutDebitAccount
                            },
                        ),
                    },
                ),
            ),
        ),
{
    law_transaction_creation(session, args);
}

/// A transaction with a check number that is stored for its debit account
/// is never stored: its creation fails and leaves the session as it was.
/// It fails with the rule that is broken, unless its category or its
/// method cannot be resolved, in which case it fails with that.
pub proof fn law_check_number_is_unique(
    session: Session,
    args: TransactionArgs,
    check_number: u32,
    debit_account: i64,
)
    requires
        session.wf(),
        session.pending is None,
        session.committed.has_check(check_number, debit_account),
        args.check_number == Some(check_number),
        args.debit_account == Some(debit_account),
    ensures
        transaction_created(session, args) == (
            session,
            Step::<Transaction>::Done(
                Err(
                    match naming_failure(session.committed, args) {
                        Some(error) => error,
                        None => Error::Validation(
                            if args.posted_date matches Some(posted) && posted@.before(
                                args.date@,
                            ) {
                                Invalid::PostedBeforeDate
                            } else {
                                Invalid::DuplicateCheckNumber
                            },
                        ),
                    },
                ),
            ),
        ),
{
    law_transaction_creation(session, args);
}

/// Once a transaction with a check number is stored, the creation of a
/// second transaction with the same check number on the same debit account
/// fails and leaves the session as the first one left it.
#[verifier::rlimit(40)]
pub proof fn law_check_number_once(
    session: Session,
    first: TransactionArgs,
    second: TransactionArgs,
)
    requires
        session.wf(),
        session.pending is None,
        first.check_number is Some,
        first.debit_account is Some,
        second.check_number == first.check_number,
        second.debit_account == first.debit_account,
    ensures
        ({
            let (once, stored) = transaction_created(session, first);
            let (twice, refused) = transaction_created(once, second);
            stored is Done && stored->Done_0 is Ok ==> twice == once && refused == Step::<
                Transaction,
            >::Done(
                Err(
                    match naming_failure(once.committed, second) {
                        Some(error) => error,
                        None => Error::Validation(
                            if second.posted_date matches Some(posted) && posted@.before(
                                second.date@,
                            ) {
                                Invalid::PostedBeforeDate
                            } else {
                                Invalid::DuplicateCheckNumber
                            },
                        ),
                    },
                ),
            )
        }),
{
    law_transaction_creation(session, first);
    let (once, stored) = transaction_created(session, first);
    if let Step::Done(Ok(row)) = stored {
        assert(once.committed.transactions.rows.dom().contains(row.id));
        assert(once.committed.has_check(first.check_number->0, first.debit_account->0));
        law_check_number_is_unique(
            once,
            second,
            first.check_number->0,
            first.debit_account->0,
        );
    }
}

} // verus!
