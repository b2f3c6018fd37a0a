//! What holds of every write and of every read, whatever the caller
//! reports.
//!
//! Of a write: the destination is named only at the commit, the commit comes
//! only after the whole dump was applied, and the byte count of a success is
//! the one that was measured. Of a read: its dump is a function of the
//! catalog and the rows that were read, and it is whole or there is none.

use vstd::prelude::*;
use crate::dump::{dump_text, table_names, Entry};
use crate::error::{ReadFailure, WriteFailure};
use crate::sqlite_reader::{
    collected, proceed, read_task_of, ReadModel, ReadSignal, ReadStage,
};
use crate::sqlite_writer::{advance, task_of, JobModel, Signal, Stage, Task};
use crate::staging::lemma_staging_path_differs;
use crate::value::Datum;

verus! {

/// The stage that a write is in after the caller has reported `signals`, in
/// this order, starting from `stage`.
pub open spec fn run(stage: Stage, signals: Seq<Signal>) -> Stage
    decreases signals.len(),
{
    if signals.len() == 0 {
        stage
    } else {
        advance(run(stage, signals.drop_last()), signals.last())
    }
}

/// Whether `task` is directed at the file at `path`.
pub open spec fn names(task: Task, path: Seq<char>) -> bool {
    match task {
        Task::RemoveStale(p) => p == path,
        Task::CreateDatabase(p) => p == path,
        Task::Measure(p) => p == path,
        Task::Rename(from, to) => from == path || to == path,
        Task::ExecuteBatch(_) => false,
        Task::CloseDatabase => false,
        Task::Finish => false,
    }
}

/// The reports of a write in which every action succeeded, up to the
/// release of the database.
pub open spec fn populated(bytes: usize) -> Seq<Signal> {
    seq![
        Signal::Cleaned,
        Signal::Created,
        Signal::Executed,
        Signal::Measured(bytes),
        Signal::Closed,
    ]
}

/// One more report moves the write one step on.
pub proof fn lemma_run_push(stage: Stage, signals: Seq<Signal>, signal: Signal)
    ensures
        run(stage, signals.push(signal)) == advance(run(stage, signals), signal),
{
    assert(signals.push(signal).drop_last() =~= signals);
}

/// Atomicity: until the commit is due, no action is directed at the
/// destination. A write that is interrupted before the rename has not
/// touched the file that it was to replace.
pub proof fn lemma_destination_named_only_at_commit(job: JobModel)
    ensures
        names(task_of(job), job.destination) <==> job.stage is Committing,
{
    lemma_staging_path_differs(job.destination);
}

/// Whether the database is open in `stage`: it was created, and its
/// release has not been reported.
pub open spec fn holds_database(stage: Stage) -> bool {
    stage is Executing || stage is Measuring || stage is Closing || stage is Aborting
}

/// The database is released on every way out: a write leaves the stages in
/// which the database is open only by the report on its release, and it is
/// open in no other stage than those that follow its creation.
pub proof fn lemma_database_is_released_on_every_way_out(job: JobModel, signal: Signal)
    ensures
        holds_database(job.stage) && !holds_database(advance(job.stage, signal)) ==> task_of(
            job,
        ) is CloseDatabase,
        !holds_database(job.stage) && holds_database(advance(job.stage, signal))
            ==> job.stage is Creating && signal is Created,
{
}

/// A finished write stays finished, with the same outcome.
pub proof fn lemma_finished_is_final(outcome: Result<usize, WriteFailure>, signals: Seq<Signal>)
    ensures
        run(Stage::Finished(outcome), signals) == Stage::Finished(outcome),
    decreases signals.len(),
{
    if signals.len() > 0 {
        lemma_finished_is_final(outcome, signals.drop_last());
    }
}

proof fn lemma_reach_creating(signals: Seq<Signal>)
    ensures
        run(Stage::Cleaning, signals) == Stage::Creating <==> signals =~= seq![Signal::Cleaned],
{
    if signals.len() > 0 {
        let before = signals.drop_last();
        if before.len() > 0 {
            lemma_never_back_to_cleaning(before);
        }
    }
}

proof fn lemma_never_back_to_cleaning(signals: Seq<Signal>)
    requires
        signals.len() > 0,
    ensures
        run(Stage::Cleaning, signals) != Stage::Cleaning,
{
}

proof fn lemma_reach_executing(signals: Seq<Signal>)
    ensures
        run(Stage::Cleaning, signals) == Stage::Executing <==> signals =~= seq![
            Signal::Cleaned,
            Signal::Created,
        ],
{
    if signals.len() > 0 {
        lemma_reach_creating(signals.drop_last());
    }
}

proof fn lemma_reach_measuring(signals: Seq<Signal>)
    ensures
        run(Stage::Cleaning, signals) == Stage::Measuring <==> signals =~= seq![
            Signal::Cleaned,
            Signal::Created,
            Signal::Executed,
        ],
{
    if signals.len() > 0 {
        lemma_reach_executing(signals.drop_last());
    }
}

proof fn lemma_reach_closing(signals: Seq<Signal>, bytes: usize)
    ensures
        run(Stage::Cleaning, signals) == Stage::Closing(bytes) <==> signals =~= seq![
            Signal::Cleaned,
            Signal::Created,
            Signal::Executed,
            Signal::Measured(bytes),
        ],
{
    if signals.len() > 0 {
        lemma_reach_measuring(signals.drop_last());
    }
}

/// The commit is due exactly when the stale file was cleaned away, the
/// database was created, the whole dump was applied, the file was measured
/// and the database was released, in this order and with nothing else
/// reported.
pub proof fn lemma_commit_only_after_population(signals: Seq<Signal>, bytes: usize)
    ensures
        run(Stage::Cleaning, signals) == Stage::Committing(bytes) <==> signals =~= populated(
            bytes,
        ),
{
    if signals.len() > 0 {
        lemma_reach_closing(signals.drop_last(), bytes);
    }
}

/// Byte-count accuracy: a write succeeds with `bytes` exactly when its first
/// six reports are those of a full success that measured `bytes` and ended
/// in the rename. What follows them changes nothing.
pub proof fn lemma_success_reports_measured_size(signals: Seq<Signal>, bytes: usize)
    ensures
        run(Stage::Cleaning, signals) == Stage::Finished(Ok(bytes)) <==> signals.len() >= 6
            && signals.take(6) =~= populated(bytes).push(Signal::Renamed),
    decreases signals.len(),
{
    if signals.len() > 0 {
        let before = signals.drop_last();
        lemma_success_reports_measured_size(before, bytes);
        lemma_commit_only_after_population(before, bytes);
        if before.len() >= 6 {
            assert(signals.take(6) =~= before.take(6));
        }
        if signals.len() == 6 {
            assert(signals.take(6) =~= signals);
            assert(signals =~= before.push(signals.last()));
        }
    }
}

/// All-or-nothing: where the dump did not apply in full, the rename never
/// becomes due and the write never succeeds, whatever is reported after.
pub proof fn lemma_failed_dump_is_never_committed(signals: Seq<Signal>)
    requires
        signals.len() < 3 || signals[2] != Signal::Executed,
    ensures
        !(run(Stage::Cleaning, signals) is Committing),
        !(run(Stage::Cleaning, signals) matches Stage::Finished(Ok(_))),
{
    let stage = run(Stage::Cleaning, signals);
    if let Stage::Committing(bytes) = stage {
        lemma_commit_only_after_population(signals, bytes);
    }
    if let Stage::Finished(Ok(bytes)) = stage {
        lemma_success_reports_measured_size(signals, bytes);
        assert(signals.take(6)[2] == signals[2]);
    }
}

/// A dump that fails to apply ends the write in an execution failure with
/// the reported message, once the database is released.
pub proof fn lemma_failed_dump_is_an_execution_failure(
    message: Seq<char>,
    release: Signal,
    later: Seq<Signal>,
)
    ensures
        run(
            Stage::Cleaning,
            seq![Signal::Cleaned, Signal::Created, Signal::Failed(message), release] + later,
        ) == Stage::Finished(Err(WriteFailure::Execution(message))),
    decreases later.len(),
{
    let head = seq![Signal::Cleaned, Signal::Created, Signal::Failed(message), release];
    if later.len() == 0 {
        assert(head + later =~= head);
        lemma_reach_executing(head.drop_last().drop_last());
        assert(head.drop_last().drop_last() =~= seq![Signal::Cleaned, Signal::Created]);
        assert(run(Stage::Cleaning, head.drop_last().drop_last()) == Stage::Executing);
        assert(head.drop_last().last() == Signal::Failed(message));
        assert(run(Stage::Cleaning, head.drop_last()) == Stage::Aborting(
            WriteFailure::Execution(message),
        ));
    } else {
        lemma_failed_dump_is_an_execution_failure(message, release, later.drop_last());
        assert((head + later).drop_last() =~= head + later.drop_last());
    }
}

/// The stage that the read of the file at `source` is in after the caller has
/// reported `signals`, in this order, starting from `stage`.
pub open spec fn read_run(source: Seq<char>, stage: ReadStage, signals: Seq<ReadSignal>) -> ReadStage
    decreases signals.len(),
{
    if signals.len() == 0 {
        stage
    } else {
        proceed(source, read_run(source, stage, signals.drop_last()), signals.last())
    }
}

/// The reports of a read in which every action succeeded and the first
/// tables gave the rows `tables`, up to the last of them.
pub open spec fn gathered(catalog: Seq<Entry>, tables: Seq<Seq<Seq<Datum>>>) -> Seq<ReadSignal> {
    seq![ReadSignal::Opened, ReadSignal::Catalog(catalog)] + tables.map_values(
        |rows: Seq<Seq<Datum>>| ReadSignal::Rows(rows),
    )
}

/// Whether `text` is the dump of some database, from its first statement
/// to its last.
pub open spec fn is_whole_dump(text: Seq<char>) -> bool {
    exists|catalog: Seq<Entry>, tables: Seq<Seq<Seq<Datum>>>|
        tables.len() == table_names(catalog).len() && text == #[trigger] dump_text(
            catalog,
            tables,
        )
}

/// One more report moves the read one step on.
pub proof fn lemma_read_run_push(
    source: Seq<char>,
    stage: ReadStage,
    signals: Seq<ReadSignal>,
    signal: ReadSignal,
)
    ensures
        read_run(source, stage, signals.push(signal)) == proceed(
            source,
            read_run(source, stage, signals),
            signal,
        ),
{
    assert(signals.push(signal).drop_last() =~= signals);
}

/// Whether the database is open in `stage` of a read.
pub open spec fn read_holds_database(stage: ReadStage) -> bool {
    stage is Listing || stage is Reading || stage is Closing
}

/// The database is released on every way out of a read: a read leaves the
/// stages in which the database is open only by the report on its release,
/// and it is open in no other stage than those that follow its opening.
pub proof fn lemma_read_releases_on_every_way_out(job: ReadModel, signal: ReadSignal)
    ensures
        read_holds_database(job.stage) && !read_holds_database(
            proceed(job.source, job.stage, signal),
        ) ==> read_task_of(job) is CloseDatabase,
        !read_holds_database(job.stage) && read_holds_database(
            proceed(job.source, job.stage, signal),
        ) ==> job.stage is Opening && signal is Opened,
{
}

/// A finished read stays finished, with the same outcome.
pub proof fn lemma_read_finished_is_final(
    source: Seq<char>,
    outcome: Result<Seq<char>, ReadFailure>,
    signals: Seq<ReadSignal>,
)
    ensures
        read_run(source, ReadStage::Finished(outcome), signals) == ReadStage::Finished(outcome),
    decreases signals.len(),
{
    if signals.len() > 0 {
        lemma_read_finished_is_final(source, outcome, signals.drop_last());
    }
}

proof fn lemma_gathering(
    source: Seq<char>,
    catalog: Seq<Entry>,
    tables: Seq<Seq<Seq<Datum>>>,
)
    requires
        tables.len() <= table_names(catalog).len(),
    ensures
        read_run(source, ReadStage::Opening, gathered(catalog, tables)) == collected(
            catalog,
            tables,
        ),
    decreases tables.len(),
{
    let start = seq![ReadSignal::Opened, ReadSignal::Catalog(catalog)];
    let rows_signal = |rows: Seq<Seq<Datum>>| ReadSignal::Rows(rows);
    if tables.len() == 0 {
        let none = Seq::<ReadSignal>::empty();
        let opened = seq![ReadSignal::Opened];
        assert(gathered(catalog, tables) =~= start);
        assert(none.push(ReadSignal::Opened) =~= opened);
        assert(opened.push(ReadSignal::Catalog(catalog)) =~= start);
        lemma_read_run_push(source, ReadStage::Opening, none, ReadSignal::Opened);
        lemma_read_run_push(source, ReadStage::Opening, opened, ReadSignal::Catalog(catalog));
        assert(tables =~= Seq::empty());
    } else {
        let before = tables.drop_last();
        lemma_gathering(source, catalog, before);
        assert(gathered(catalog, tables).drop_last() =~= gathered(catalog, before));
        assert(gathered(catalog, tables).last() == ReadSignal::Rows(tables.last()));
        assert(before.push(tables.last()) =~= tables);
    }
}

/// Idempotent dump generation: a read in which every action succeeds ends
/// in the dump of the catalog and rows that were reported, whatever the
/// path of the file and whatever the release of the database reports. Two
/// reads that are told the same are given the same text.
pub proof fn lemma_full_read_gives_the_dump(
    source: Seq<char>,
    catalog: Seq<Entry>,
    tables: Seq<Seq<Seq<Datum>>>,
    release: ReadSignal,
)
    requires
        tables.len() == table_names(catalog).len(),
    ensures
        read_run(source, ReadStage::Opening, gathered(catalog, tables).push(release))
            == ReadStage::Finished(Ok(dump_text(catalog, tables))),
{
    lemma_gathering(source, catalog, tables);
    lemma_read_run_push(source, ReadStage::Opening, gathered(catalog, tables), release);
}

spec fn on_course(stage: ReadStage) -> bool {
    match stage {
        ReadStage::Reading { catalog, tables } => tables.len() < table_names(catalog).len(),
        ReadStage::Closing(Ok(text)) => is_whole_dump(text),
        ReadStage::Finished(Ok(text)) => is_whole_dump(text),
        _ => true,
    }
}

proof fn lemma_read_stays_on_course(source: Seq<char>, signals: Seq<ReadSignal>)
    ensures
        on_course(read_run(source, ReadStage::Opening, signals)),
    decreases signals.len(),
{
    if signals.len() > 0 {
        lemma_read_stays_on_course(source, signals.drop_last());
        let before = read_run(source, ReadStage::Opening, signals.drop_last());
        let after = proceed(source, before, signals.last());
        match (before, signals.last()) {
            (ReadStage::Listing, ReadSignal::Catalog(catalog)) => {
                let tables = Seq::<Seq<Seq<Datum>>>::empty();
                if !(tables.len() < table_names(catalog).len()) {
                    assert(after == ReadStage::Closing(Ok(dump_text(catalog, tables))));
                }
            },
            (ReadStage::Reading { catalog, tables }, ReadSignal::Rows(rows)) => {
                if !(tables.push(rows).len() < table_names(catalog).len()) {
                    assert(after == ReadStage::Closing(Ok(dump_text(catalog, tables.push(rows)))));
                }
            },
            _ => {},
        }
    }
}

/// A read gives a whole dump or none: whatever the caller reports, a read
/// that ends in success ends in the dump of a database, never in a part of
/// one.
pub proof fn lemma_read_gives_a_whole_dump_or_none(
    source: Seq<char>,
    signals: Seq<ReadSignal>,
    text: Seq<char>,
)
    requires
        read_run(source, ReadStage::Opening, signals) == ReadStage::Finished(Ok(text)),
    ensures
        is_whole_dump(text),
{
    lemma_read_stays_on_course(source, signals);
}

} // verus!
