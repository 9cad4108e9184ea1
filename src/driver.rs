//! The workload driver: each iteration writes one fresh random key into the
//! store's table in its own transaction, and any failure along the way is
//! absorbed and ends the iteration.
use vstd::prelude::*;

use crate::entropy::draw_key;

verus! {

#[verifier::external_type_specification]
#[verifier::external_body]
pub struct ExDatabase(redb::Database);

#[verifier::external_type_specification]
#[verifier::external_body]
pub struct ExWriteTransaction(redb::WriteTransaction);

/// The store's table of `u128` keys and `bool` values, as opened inside a
/// write transaction. Verus refuses a declaration of redb's generic `Table`
/// (its parameters are bound by redb's own traits), so the handle is held
/// here, out of Verus's sight.
#[verifier::external_body]
pub struct EntryTable<'txn> {
    table: redb::Table<'txn, u128, bool>,
}

#[verifier::external_type_specification]
#[verifier::external_body]
pub struct ExTransactionError(redb::TransactionError);

#[verifier::external_type_specification]
#[verifier::external_body]
pub struct ExTableError(redb::TableError);

#[verifier::external_type_specification]
#[verifier::external_body]
pub struct ExStorageError(redb::StorageError);

#[verifier::external_type_specification]
#[verifier::external_body]
pub struct ExCommitError(redb::CommitError);

/// Relies on redb's Database::begin_write: a write transaction, or an error
/// that the engine chose; nothing more is known.
pub assume_specification[ redb::Database::begin_write ](db: &redb::Database) -> Result<
    redb::WriteTransaction,
    redb::TransactionError,
>;

/// Relies on redb's WriteTransaction::commit: the transaction is consumed and
/// either made durable or refused with an error.
pub assume_specification[ redb::WriteTransaction::commit ](txn: redb::WriteTransaction) -> Result<
    (),
    redb::CommitError,
>;

/// The entries of an open table, as a map from key to value.
pub uninterp spec fn entries_of(t: EntryTable<'_>) -> Map<u128, bool>;

/// The name that an open table was opened under.
pub uninterp spec fn table_name_of(t: EntryTable<'_>) -> Seq<char>;

/// Relies on redb's WriteTransaction::open_table, for the table of `u128`
/// keys and `bool` values called `name`; redb panics on an empty name, which
/// `requires` leaves out.
#[verifier::external_body]
fn open_table<'txn>(txn: &'txn redb::WriteTransaction, name: &'static str) -> (r: Result<
    EntryTable<'txn>,
    redb::TableError,
>)
    requires
        name@.len() > 0,
    ensures
        r is Ok ==> table_name_of(r->Ok_0) == name@,
{
    match txn.open_table(redb::TableDefinition::<u128, bool>::new(name)) {
        Ok(table) => Ok(EntryTable { table }),
        Err(e) => Err(e),
    }
}

/// Relies on redb's Table::insert: on success the table maps `key` to
/// `value`, whether or not the key was present, and keeps its name; the value
/// that the key held before is dropped.
#[verifier::external_body]
fn insert_entry(entries: &mut EntryTable<'_>, key: u128, value: bool) -> (r: Result<
    (),
    redb::StorageError,
>)
    ensures
        table_name_of(*final(entries)) == table_name_of(*old(entries)),
        r is Ok ==> entries_of(*final(entries)) == entries_of(*old(entries)).insert(key, value),
{
    match entries.table.insert(key, value) {
        Ok(_) => Ok(()),
        Err(e) => Err(e),
    }
}


/// The name of the table that the driver writes into.
pub const TABLE_NAME: &'static str = "notes";

/// Where an iteration of the driver stands. Every iteration begins at
/// `Start` and ends at `Committed` or `Failed`.
#[derive(Clone, Copy, Debug, PartialEq, Eq, Structural)]
pub enum Phase {
    Start,
    TransactionOpen,
    Inserted,
    Committed,
    Failed,
}

impl Phase {
    /// An iteration that has reached this phase is over.
    pub open spec fn is_terminal(self) -> bool {
        self is Committed || self is Failed
    }

    /// The phase after a step taken from `self`: a failed step fails the
    /// iteration, a successful one moves it on by one.
    pub open spec fn after(self, step_succeeded: bool) -> Phase {
        if !step_succeeded {
            Phase::Failed
        } else {
            match self {
                Phase::Start => Phase::TransactionOpen,
                Phase::TransactionOpen => Phase::Inserted,
                Phase::Inserted => Phase::Committed,
                other => other,
            }
        }
    }

    /// Takes one step of the iteration from a phase that is not terminal.
    pub fn advance(self, step_succeeded: bool) -> (r: Phase)
        requires
            !self.is_terminal(),
        ensures
            r == self.after(step_succeeded),
    {
        if !step_succeeded {
            Phase::Failed
        } else {
            match self {
                Phase::Start => Phase::TransactionOpen,
                Phase::TransactionOpen => Phase::Inserted,
                _ => Phase::Committed,
            }
        }
    }
}

/// What one iteration did.
pub ghost struct IterationRecord {
    /// The key that the iteration wrote.
    pub key: u128,
    /// The result of each step taken, in order: begin the transaction, open
    /// the table, insert, commit.
    pub steps: Seq<bool>,
    /// The name of the table, once it was opened.
    pub table: Seq<char>,
    /// The table's entries just before the insert, once it was taken.
    pub before: Map<u128, bool>,
    /// The table's entries just after the insert, once it was taken.
    pub after: Map<u128, bool>,
}

/// The steps of an iteration stop at the first one that fails: every step
/// but the last succeeded, and an iteration that stops early stops on a
/// failure.
pub open spec fn steps_well_formed(steps: Seq<bool>) -> bool {
    &&& 1 <= steps.len() <= 4
    &&& forall|i: int| 0 <= i < steps.len() - 1 ==> #[trigger] steps[i]
    &&& steps.len() < 4 ==> !steps.last()
}

/// The phase that an iteration with these steps ends in.
pub open spec fn outcome_of(steps: Seq<bool>) -> Phase {
    if steps.last() {
        Phase::Committed
    } else {
        Phase::Failed
    }
}

/// A record that an iteration of the driver on `key` can leave.
pub open spec fn record_valid(rec: IterationRecord, key: u128) -> bool {
    &&& rec.key == key
    &&& steps_well_formed(rec.steps)
    &&& rec.steps.len() > 1 && rec.steps[1] ==> rec.table == TABLE_NAME@
    &&& rec.steps.len() > 2 && rec.steps[2] ==> rec.after == rec.before.insert(key, true)
}

/// How many of the recorded iterations committed.
pub open spec fn committed_count(recs: Seq<IterationRecord>) -> nat
    decreases recs.len(),
{
    if recs.len() == 0 {
        0
    } else {
        committed_count(recs.drop_last()) + if outcome_of(recs.last().steps) is Committed {
            1nat
        } else {
            0nat
        }
    }
}

/// A run whose every iteration met a failing step commits nothing.
pub proof fn lemma_all_failing_commits_nothing(recs: Seq<IterationRecord>)
    requires
        forall|i: int|
            0 <= i < recs.len() ==> steps_well_formed(#[trigger] recs[i].steps) && exists|j: int|
                0 <= j < recs[i].steps.len() && !recs[i].steps[j],
    ensures
        committed_count(recs) == 0,
    decreases recs.len(),
{
    if recs.len() > 0 {
        let last = recs.len() - 1;
        assert(steps_well_formed(recs[last].steps));
        let j = choose|j: int| 0 <= j < recs[last].steps.len() && !recs[last].steps[j];
        assert(!recs.last().steps.last());
        let rest = recs.drop_last();
        assert forall|i: int| 0 <= i < rest.len() implies steps_well_formed(#[trigger] rest[i].steps)
            && exists|j: int| 0 <= j < rest[i].steps.len() && !rest[i].steps[j] by {
            assert(rest[i] == recs[i]);
        }
        lemma_all_failing_commits_nothing(rest);
    }
}

/// A run whose every iteration took all four steps, each succeeding,
/// commits every iteration.
pub proof fn lemma_all_succeeding_commits_all(recs: Seq<IterationRecord>)
    requires
        forall|i: int|
            0 <= i < recs.len() ==> (#[trigger] recs[i].steps).len() == 4 && recs[i].steps[3],
    ensures
        committed_count(recs) == recs.len(),
    decreases recs.len(),
{
    if recs.len() > 0 {
        let rest = recs.drop_last();
        assert forall|i: int| 0 <= i < rest.len() implies (#[trigger] rest[i].steps).len() == 4
            && rest[i].steps[3] by {
            assert(rest[i] == recs[i]);
        }
        lemma_all_succeeding_commits_all(rest);
    }
}

/// How the iterations of a run ended.
#[derive(Clone, Copy, Debug, PartialEq, Eq, Structural)]
pub struct Tally {
    pub committed: u64,
    pub failed: u64,
}

/// One iteration: begins a write transaction on `db`, opens the table
/// `TABLE_NAME`, inserts `key` with the value `true`, and commits. Whatever
/// error a step meets is absorbed: the iteration ends `Failed` and no later
/// step is taken. It ends `Committed` exactly when all four steps succeed.
pub fn run_iteration(db: &redb::Database, key: u128) -> (r: (Phase, Ghost<IterationRecord>))
    ensures
        record_valid(r.1@, key),
        r.0 == outcome_of(r.1@.steps),
{
    proof {
        reveal_strlit("notes");
    }
    let ghost mut rec = IterationRecord {
        key,
        steps: Seq::empty(),
        table: Seq::empty(),
        before: Map::empty(),
        after: Map::empty(),
    };
    let phase = Phase::Start;
    let txn = match db.begin_write() {
        Ok(txn) => txn,
        Err(_) => {
            proof {
                rec.steps = seq![false];
            }
            return (phase.advance(false), Ghost(rec));
        },
    };
    proof {
        rec.steps = seq![true];
    }
    let phase = phase.advance(true);
    let inserted = match open_table(&txn, TABLE_NAME) {
        Ok(mut entries) => {
            proof {
                rec.table = table_name_of(entries);
                rec.before = entries_of(entries);
            }
            let done = insert_entry(&mut entries, key, true).is_ok();
            proof {
                rec.after = entries_of(entries);
                rec.steps = seq![true, true, done];
            }
            done
        },
        Err(_) => {
            proof {
                rec.steps = seq![true, false];
            }
            false
        },
    };
    let phase = phase.advance(inserted);
    if !inserted {
        return (phase, Ghost(rec));
    }
    let committed = txn.commit().is_ok();
    proof {
        rec.steps = seq![true, true, true, committed];
    }
    (phase.advance(committed), Ghost(rec))
}

/// Runs `iterations` iterations of the driver on `db`, each with a fresh
/// random key, and returns how they ended with a record of each. No error
/// leaves the loop: every iteration is counted once, and it is counted as
/// committed exactly when all of its steps succeeded.
pub fn run(db: &redb::Database, iterations: u64) -> (r: (Tally, Ghost<Seq<IterationRecord>>))
    ensures
        r.1@.len() == iterations,
        forall|i: int| 0 <= i < iterations ==> record_valid(#[trigger] r.1@[i], r.1@[i].key),
        r.0.committed == committed_count(r.1@),
        r.0.committed + r.0.failed == iterations,
{
    let mut rng = rand::thread_rng();
    let mut tally = Tally { committed: 0, failed: 0 };
    let ghost mut recs: Seq<IterationRecord> = Seq::empty();
    let mut done: u64 = 0;
    while done < iterations
        invariant
            done <= iterations,
            recs.len() == done,
            forall|i: int| 0 <= i < done ==> record_valid(#[trigger] recs[i], recs[i].key),
            tally.committed == committed_count(recs),
            tally.committed + tally.failed == done,
        decreases iterations - done,
    {
        let key = draw_key(&mut rng);
        let (phase, rec) = run_iteration(db, key);
        proof {
            let old_recs = recs;
            recs = recs.push(rec@);
            assert(recs.drop_last() =~= old_recs);
        }
        match phase {
            Phase::Committed => tally.committed = tally.committed + 1,
            _ => tally.failed = tally.failed + 1,
        }
        done = done + 1;
    }
    (tally, Ghost(recs))
}

} // verus!
