//! The write path as a two-phase commit: a new database is staged beside the
//! destination, populated from the dump, measured, closed, and only then
//! renamed onto the destination.
//!
//! The library decides; the caller acts. A [`WriteJob`] names the one action
//! that is due, the caller performs it and reports a [`WriteEvent`], and the
//! job moves on. No action names the destination before the commit.

use vstd::prelude::*;
use crate::error::{out_of_turn, out_of_turn_message, WriteError, WriteFailure};
use crate::staging::{staging_path, staging_path_of};

verus! {

/// The mathematical value of a [`WriteEvent`].
pub enum Signal {
    Cleaned,
    Created,
    Executed,
    Measured(usize),
    Closed,
    Renamed,
    Failed(Seq<char>),
}

/// What the caller reports after performing the pending action.
#[derive(Debug)]
pub enum WriteEvent {
    /// No stale staging file is left: it was removed, or there was none.
    Cleaned,
    /// A new, empty database exists at the staging path and is open.
    Created,
    /// Every statement of the dump was applied to the staged database.
    Executed,
    /// The staging file holds this many bytes.
    Measured(usize),
    /// The database handle is released.
    Closed,
    /// The staging file now stands at the destination.
    Renamed,
    /// The pending action failed, with the message of the failure.
    Failed(String),
}

impl View for WriteEvent {
    type V = Signal;

    open spec fn view(&self) -> Signal {
        match self {
            WriteEvent::Cleaned => Signal::Cleaned,
            WriteEvent::Created => Signal::Created,
            WriteEvent::Executed => Signal::Executed,
            WriteEvent::Measured(n) => Signal::Measured(*n),
            WriteEvent::Closed => Signal::Closed,
            WriteEvent::Renamed => Signal::Renamed,
            WriteEvent::Failed(m) => Signal::Failed(m@),
        }
    }
}

/// How far a write has come.
pub enum Stage {
    /// A stale staging file is to be removed.
    Cleaning,
    /// The empty database is to be created at the staging path.
    Creating,
    /// The dump is to be applied.
    Executing,
    /// The staging file is to be measured.
    Measuring,
    /// The populated database, of the given size, is to be closed.
    Closing(usize),
    /// The write has failed while the database was open: it is to be closed.
    Aborting(WriteFailure),
    /// The closed staging file, of the given size, is to be renamed.
    Committing(usize),
    /// Nothing is left to do.
    Finished(Result<usize, WriteFailure>),
}

/// The mathematical value of a [`WriteAction`].
pub enum Task {
    RemoveStale(Seq<char>),
    CreateDatabase(Seq<char>),
    ExecuteBatch(Seq<char>),
    Measure(Seq<char>),
    CloseDatabase,
    Rename(Seq<char>, Seq<char>),
    Finish,
}

/// The one thing the caller has to do next.
#[derive(Debug)]
pub enum WriteAction<'a> {
    /// Remove the file at `path` if there is one; its absence is no failure.
    RemoveStale { path: &'a str },
    /// Create a new, empty database at `path` and keep it open.
    CreateDatabase { path: &'a str },
    /// Apply `sql` to the open database as one batch.
    ExecuteBatch { sql: &'a str },
    /// Report the size in bytes of the file at `path`.
    Measure { path: &'a str },
    /// Release the database handle.
    CloseDatabase,
    /// Rename the file at `from` onto `to`.
    Rename { from: &'a str, to: &'a str },
    /// Take the outcome: the job is over.
    Finish,
}

impl<'a> View for WriteAction<'a> {
    type V = Task;

    open spec fn view(&self) -> Task {
        match self {
            WriteAction::RemoveStale { path } => Task::RemoveStale(path@),
            WriteAction::CreateDatabase { path } => Task::CreateDatabase(path@),
            WriteAction::ExecuteBatch { sql } => Task::ExecuteBatch(sql@),
            WriteAction::Measure { path } => Task::Measure(path@),
            WriteAction::CloseDatabase => Task::CloseDatabase,
            WriteAction::Rename { from, to } => Task::Rename(from@, to@),
            WriteAction::Finish => Task::Finish,
        }
    }
}

/// The mathematical value of a [`WriteJob`].
pub struct JobModel {
    /// Where the database file must end up.
    pub destination: Seq<char>,
    /// The dump to apply.
    pub dump: Seq<char>,
    /// How far the write has come.
    pub stage: Stage,
}

/// The stage that follows when the pending action of `stage` fails with
/// `message`. A failure while the database is open leads to its release
/// before the job ends.
pub open spec fn fail(stage: Stage, message: Seq<char>) -> Stage {
    match stage {
        Stage::Cleaning => Stage::Finished(Err(WriteFailure::Staging(message))),
        Stage::Creating => Stage::Finished(Err(WriteFailure::Staging(message))),
        Stage::Executing => Stage::Aborting(WriteFailure::Execution(message)),
        Stage::Measuring => Stage::Aborting(WriteFailure::Staging(message)),
        Stage::Closing(_) => Stage::Finished(Err(WriteFailure::Staging(message))),
        Stage::Aborting(failure) => Stage::Finished(Err(failure)),
        Stage::Committing(_) => Stage::Finished(Err(WriteFailure::Commit(message))),
        Stage::Finished(_) => stage,
    }
}

/// The stage that follows `stage` when the caller reports `signal`.
///
/// The signal that answers the pending action leads one step on. A reported
/// failure, and any signal out of turn, fails the pending action. A failed
/// job is over once the database is released, whatever the release reports.
pub open spec fn advance(stage: Stage, signal: Signal) -> Stage {
    match (stage, signal) {
        (Stage::Finished(_), _) => stage,
        (Stage::Aborting(failure), _) => Stage::Finished(Err(failure)),
        (Stage::Cleaning, Signal::Cleaned) => Stage::Creating,
        (Stage::Creating, Signal::Created) => Stage::Executing,
        (Stage::Executing, Signal::Executed) => Stage::Measuring,
        (Stage::Measuring, Signal::Measured(n)) => Stage::Closing(n),
        (Stage::Closing(n), Signal::Closed) => Stage::Committing(n),
        (Stage::Committing(n), Signal::Renamed) => Stage::Finished(Ok(n)),
        (_, Signal::Failed(message)) => fail(stage, message),
        (_, _) => fail(stage, out_of_turn()),
    }
}

/// The action that is due in `job`.
pub open spec fn task_of(job: JobModel) -> Task {
    match job.stage {
        Stage::Cleaning => Task::RemoveStale(staging_path_of(job.destination)),
        Stage::Creating => Task::CreateDatabase(staging_path_of(job.destination)),
        Stage::Executing => Task::ExecuteBatch(job.dump),
        Stage::Measuring => Task::Measure(staging_path_of(job.destination)),
        Stage::Closing(_) => Task::CloseDatabase,
        Stage::Aborting(_) => Task::CloseDatabase,
        Stage::Committing(_) => Task::Rename(
            staging_path_of(job.destination),
            job.destination,
        ),
        Stage::Finished(_) => Task::Finish,
    }
}

enum Phase {
    Cleaning,
    Creating,
    Executing,
    Measuring,
    Closing(usize),
    Aborting(WriteError),
    Committing(usize),
    Finished(Result<usize, WriteError>),
}

impl View for Phase {
    type V = Stage;

    closed spec fn view(&self) -> Stage {
        match self {
            Phase::Cleaning => Stage::Cleaning,
            Phase::Creating => Stage::Creating,
            Phase::Executing => Stage::Executing,
            Phase::Measuring => Stage::Measuring,
            Phase::Closing(n) => Stage::Closing(*n),
            Phase::Aborting(e) => Stage::Aborting(e@),
            Phase::Committing(n) => Stage::Committing(*n),
            Phase::Finished(Ok(n)) => Stage::Finished(Ok(*n)),
            Phase::Finished(Err(e)) => Stage::Finished(Err(e@)),
        }
    }
}

/// One write of a dump to a destination, from the first action to the
/// outcome.
pub struct WriteJob {
    destination: String,
    staging: String,
    dump: String,
    phase: Phase,
}

impl View for WriteJob {
    type V = JobModel;

    closed spec fn view(&self) -> JobModel {
        JobModel { destination: self.destination@, dump: self.dump@, stage: self.phase@ }
    }
}

/// Starts the write of `sql_dump` to `out_path`. Nothing has been done yet:
/// the first action due is the removal of a stale staging file.
pub fn write_sqlite(sql_dump: &str, out_path: &str) -> (job: WriteJob)
    ensures
        job@ == (JobModel { destination: out_path@, dump: sql_dump@, stage: Stage::Cleaning }),
{
    WriteJob {
        destination: String::from_str(out_path),
        staging: staging_path(out_path),
        dump: String::from_str(sql_dump),
        phase: Phase::Cleaning,
    }
}

fn fail_phase(phase: Phase, message: String) -> (next: Phase)
    ensures
        next@ == fail(phase@, message@),
{
    match phase {
        Phase::Cleaning => Phase::Finished(Err(WriteError::Staging(message))),
        Phase::Creating => Phase::Finished(Err(WriteError::Staging(message))),
        Phase::Executing => Phase::Aborting(WriteError::Execution(message)),
        Phase::Measuring => Phase::Aborting(WriteError::Staging(message)),
        Phase::Closing(_) => Phase::Finished(Err(WriteError::Staging(message))),
        Phase::Aborting(failure) => Phase::Finished(Err(failure)),
        Phase::Committing(_) => Phase::Finished(Err(WriteError::Commit(message))),
        Phase::Finished(outcome) => Phase::Finished(outcome),
    }
}

fn advance_phase(phase: Phase, event: WriteEvent) -> (next: Phase)
    ensures
        next@ == advance(phase@, event@),
{
    match (phase, event) {
        (Phase::Finished(outcome), _) => Phase::Finished(outcome),
        (Phase::Aborting(failure), _) => Phase::Finished(Err(failure)),
        (Phase::Cleaning, WriteEvent::Cleaned) => Phase::Creating,
        (Phase::Creating, WriteEvent::Created) => Phase::Executing,
        (Phase::Executing, WriteEvent::Executed) => Phase::Measuring,
        (Phase::Measuring, WriteEvent::Measured(n)) => Phase::Closing(n),
        (Phase::Closing(n), WriteEvent::Closed) => Phase::Committing(n),
        (Phase::Committing(n), WriteEvent::Renamed) => Phase::Finished(Ok(n)),
        (phase, WriteEvent::Failed(message)) => fail_phase(phase, message),
        (phase, _) => fail_phase(phase, out_of_turn_message()),
    }
}

impl WriteJob {
    #[verifier::type_invariant]
    spec fn staged_beside_destination(self) -> bool {
        self.staging@ == staging_path_of(self.destination@)
    }

    /// The action that is due now.
    pub fn action(&self) -> (action: WriteAction<'_>)
        ensures
            action@ == task_of(self@),
    {
        proof {
            use_type_invariant(self);
        }
        match &self.phase {
            Phase::Cleaning => WriteAction::RemoveStale { path: self.staging.as_str() },
            Phase::Creating => WriteAction::CreateDatabase { path: self.staging.as_str() },
            Phase::Executing => WriteAction::ExecuteBatch { sql: self.dump.as_str() },
            Phase::Measuring => WriteAction::Measure { path: self.staging.as_str() },
            Phase::Closing(_) => WriteAction::CloseDatabase,
            Phase::Aborting(_) => WriteAction::CloseDatabase,
            Phase::Committing(_) => WriteAction::Rename {
                from: self.staging.as_str(),
                to: self.destination.as_str(),
            },
            Phase::Finished(_) => WriteAction::Finish,
        }
    }

    /// Takes the caller's report on the pending action and moves on.
    pub fn step(self, event: WriteEvent) -> (next: WriteJob)
        ensures
            next@ == (JobModel { stage: advance(self@.stage, event@), ..self@ }),
    {
        proof {
            use_type_invariant(&self);
        }
        WriteJob {
            destination: self.destination,
            staging: self.staging,
            dump: self.dump,
            phase: advance_phase(self.phase, event),
        }
    }

    /// Whether nothing is left to do.
    pub fn is_finished(&self) -> (done: bool)
        ensures
            done == (self@.stage is Finished),
    {
        match &self.phase {
            Phase::Finished(_) => true,
            _ => false,
        }
    }

    /// Ends the job. A finished job gives its outcome: the byte count of the
    /// file that now stands at the destination, or the failure. A job that
    /// is not finished gives nothing.
    pub fn outcome(self) -> (outcome: Option<Result<usize, WriteError>>)
        ensures
            match self@.stage {
                Stage::Finished(Ok(n)) => outcome == Some(Ok::<usize, WriteError>(n)),
                Stage::Finished(Err(failure)) => outcome matches Some(Err(e)) && e@ == failure,
                _ => outcome is None,
            },
    {
        match self.phase {
            Phase::Finished(outcome) => Some(outcome),
            _ => None,
        }
    }
}

} // verus!
