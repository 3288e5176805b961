//! How a run ends, and what it leaves behind.
//!
//! Every path ends in one [`ExitOutcome`]. From it, and from what was read
//! out of the piped stream, follow the one event at most that goes to the
//! telemetry store and what the caller gets back: the child's exit code, or
//! the error that the child could not be run.

use crate::dispatch::{
    is_instrumented_name, select_path, CommandError, CommandErrorModel, RunPath,
};
use crate::extract::{Findings, FindingsModel};
use crate::telemetry::{EventModel, TelemetryEvent};
use vstd::prelude::*;

verus! {

/// The exit code of a child that ended without one, and the code that
/// stands for a failure of which the operating system gave no number.
pub const DEFAULT_EXIT_CODE: i32 = 1;

/// How the child ended.
#[derive(Clone, Copy, Debug, PartialEq, Eq)]
pub enum ExitOutcome {
    /// The child ran and ended; the code is its exit code.
    Completed(i32),
    /// The child could not be started or waited for; the number is the
    /// operating system's raw error code, where it gave one.
    SpawnFailed(Option<i32>),
}

/// The outcome of a child that ended with the status code `status_code`,
/// which is absent where a signal ended it.
pub open spec fn completed_with(status_code: Option<i32>) -> ExitOutcome {
    match status_code {
        Some(code) => ExitOutcome::Completed(code),
        None => ExitOutcome::Completed(DEFAULT_EXIT_CODE),
    }
}

/// The exit code that an outcome stands for.
pub open spec fn exit_code_of(outcome: ExitOutcome) -> i32 {
    match outcome {
        ExitOutcome::Completed(code) => code,
        ExitOutcome::SpawnFailed(Some(raw)) => raw,
        ExitOutcome::SpawnFailed(None) => DEFAULT_EXIT_CODE,
    }
}

/// The event that a run leaves behind.
///
/// The plain path leaves none. The version path leaves the version it has
/// read, if the child ended and a version line was seen. The normal path
/// always leaves a record: of a child that ended, with the codes seen, if
/// any; of one that could not be run, without codes.
pub open spec fn event_of(
    path: RunPath,
    found: FindingsModel,
    outcome: ExitOutcome,
    duration_ms: u64,
) -> Option<EventModel> {
    match path {
        RunPath::PlainPassthrough => None,
        RunPath::VersionQuery => match (outcome, found.version) {
            (ExitOutcome::Completed(_), Some(info)) => Some(
                EventModel::VersionProbe {
                    version: info.version,
                    version_hash: info.version_hash,
                    build_date: info.build_date,
                },
            ),
            _ => None,
        },
        RunPath::NormalRun => Some(
            EventModel::RunRecord {
                duration_ms,
                exit_code: exit_code_of(outcome),
                errors: if outcome is Completed && found.errors.len() > 0 {
                    Some(found.errors)
                } else {
                    None
                },
            },
        ),
    }
}

/// What the caller gets back: the exit code of a child that ended, or the
/// error that `program` could not be run.
pub open spec fn result_of(outcome: ExitOutcome, program: Seq<char>) -> Result<
    i32,
    CommandErrorModel,
> {
    match outcome {
        ExitOutcome::Completed(code) => Ok(code),
        ExitOutcome::SpawnFailed(_) => Err(CommandErrorModel::RunningCommand { name: program }),
    }
}

/// A caller that does not go by the instrumented program's name takes the
/// plain path and leaves no event, whatever its arguments are, whether or
/// not telemetry is enabled, and however the child ends.
pub proof fn lemma_other_callers_leave_no_event(
    name: Seq<char>,
    args: Seq<Seq<char>>,
    telemetry_enabled: bool,
    found: FindingsModel,
    outcome: ExitOutcome,
    duration_ms: u64,
)
    requires
        !is_instrumented_name(name),
    ensures
        select_path(name, args, telemetry_enabled) == RunPath::PlainPassthrough,
        event_of(select_path(name, args, telemetry_enabled), found, outcome, duration_ms) is None,
{
}

/// With telemetry disabled no caller leaves an event.
pub proof fn lemma_disabled_telemetry_leaves_no_event(
    name: Seq<char>,
    args: Seq<Seq<char>>,
    found: FindingsModel,
    outcome: ExitOutcome,
    duration_ms: u64,
)
    ensures
        event_of(select_path(name, args, false), found, outcome, duration_ms) is None,
{
}

/// The normal path leaves exactly one record, with the length of the run
/// and the exit code that the outcome stands for, however the child ended.
pub proof fn lemma_normal_run_always_records(
    found: FindingsModel,
    outcome: ExitOutcome,
    duration_ms: u64,
)
    ensures
        event_of(RunPath::NormalRun, found, outcome, duration_ms) matches Some(
            EventModel::RunRecord { duration_ms: length, exit_code: code, .. },
        ) && length == duration_ms && code == exit_code_of(outcome),
{
}

/// A run in which no diagnostic code was seen leaves a record without a
/// list of codes, which still tells the length of the run and the exit code.
pub proof fn lemma_run_without_codes_has_no_list(
    found: FindingsModel,
    outcome: ExitOutcome,
    duration_ms: u64,
)
    requires
        found.errors.len() == 0,
    ensures
        event_of(RunPath::NormalRun, found, outcome, duration_ms) == Some(
            EventModel::RunRecord {
                duration_ms,
                exit_code: exit_code_of(outcome),
                errors: None,
            },
        ),
{
}

/// A run in which codes were seen, and whose child ended, leaves a record
/// with exactly those codes, in their order.
pub proof fn lemma_run_with_codes_lists_them(found: FindingsModel, code: i32, duration_ms: u64)
    requires
        found.errors.len() > 0,
    ensures
        event_of(RunPath::NormalRun, found, ExitOutcome::Completed(code), duration_ms) == Some(
            EventModel::RunRecord { duration_ms, exit_code: code, errors: Some(found.errors) },
        ),
{
}

/// A child that could not be run leaves, on the normal path, a record with
/// the operating system's error code, or the default where there is none,
/// and without codes; and the caller gets the error on top.
pub proof fn lemma_failed_normal_run_is_recorded(
    found: FindingsModel,
    raw_os_error: Option<i32>,
    duration_ms: u64,
    program: Seq<char>,
)
    ensures
        event_of(
            RunPath::NormalRun,
            found,
            ExitOutcome::SpawnFailed(raw_os_error),
            duration_ms,
        ) == Some(
            EventModel::RunRecord {
                duration_ms,
                exit_code: match raw_os_error {
                    Some(raw) => raw,
                    None => DEFAULT_EXIT_CODE,
                },
                errors: None,
            },
        ),
        result_of(ExitOutcome::SpawnFailed(raw_os_error), program) == Err::<
            i32,
            CommandErrorModel,
        >(CommandErrorModel::RunningCommand { name: program }),
{
}

/// A child that ended hands its exit code to the caller on every path, and
/// a child that could not be run gives the caller an error on every path.
pub proof fn lemma_exit_code_is_the_childs(outcome: ExitOutcome, program: Seq<char>)
    ensures
        outcome matches ExitOutcome::Completed(code) ==> result_of(outcome, program) == Ok::<
            i32,
            CommandErrorModel,
        >(code),
        outcome is SpawnFailed ==> result_of(outcome, program) == Err::<i32, CommandErrorModel>(
            CommandErrorModel::RunningCommand { name: program },
        ),
{
}

/// The end of a run: the event to store, if any, and the caller's result.
#[derive(Debug, PartialEq, Eq)]
pub struct Conclusion {
    pub event: Option<TelemetryEvent>,
    pub result: Result<i32, CommandError>,
}

/// A [`Conclusion`] with its texts as characters.
pub struct ConclusionModel {
    pub event: Option<EventModel>,
    pub result: Result<i32, CommandErrorModel>,
}

impl View for Conclusion {
    type V = ConclusionModel;

    open spec fn view(&self) -> ConclusionModel {
        ConclusionModel {
            event: self.event.deep_view(),
            result: match self.result {
                Ok(code) => Ok(code),
                Err(error) => Err(error@),
            },
        }
    }
}

impl ExitOutcome {
    /// The outcome of a child that ended. `status_code` is its status code,
    /// absent where it was ended without one.
    pub fn completed(status_code: Option<i32>) -> (outcome: ExitOutcome)
        ensures
            outcome == completed_with(status_code),
    {
        match status_code {
            Some(code) => ExitOutcome::Completed(code),
            None => ExitOutcome::Completed(DEFAULT_EXIT_CODE),
        }
    }

    /// The outcome of a child that could not be started or waited for.
    pub fn spawn_failed(raw_os_error: Option<i32>) -> (outcome: ExitOutcome)
        ensures
            outcome == ExitOutcome::SpawnFailed(raw_os_error),
    {
        ExitOutcome::SpawnFailed(raw_os_error)
    }

    /// The exit code that this outcome stands for.
    pub fn exit_code(&self) -> (code: i32)
        ensures
            code == exit_code_of(*self),
    {
        match self {
            ExitOutcome::Completed(code) => *code,
            ExitOutcome::SpawnFailed(Some(raw)) => *raw,
            ExitOutcome::SpawnFailed(None) => DEFAULT_EXIT_CODE,
        }
    }
}

/// Ends a run on `path`: says which event goes to the store and what the
/// caller gets back. `duration_ms` is read on the normal path only.
pub fn conclude(
    path: RunPath,
    found: Findings,
    outcome: ExitOutcome,
    duration_ms: u64,
    program: &str,
) -> (end: Conclusion)
    ensures
        end@.event == event_of(path, found@, outcome, duration_ms),
        end@.result == result_of(outcome, program@),
{
    let Findings { version, errors } = found;
    let event = match path {
        RunPath::PlainPassthrough => None,
        RunPath::VersionQuery => match (outcome, version) {
            (ExitOutcome::Completed(_), Some(info)) => Some(
                TelemetryEvent::VersionProbe {
                    version: info.version,
                    version_hash: info.version_hash,
                    build_date: info.build_date,
                },
            ),
            _ => None,
        },
        RunPath::NormalRun => {
            let seen = match outcome {
                ExitOutcome::Completed(_) => if errors.len() > 0 {
                    Some(errors)
                } else {
                    None
                },
                ExitOutcome::SpawnFailed(_) => None,
            };
            Some(
                TelemetryEvent::RunRecord {
                    duration_ms,
                    exit_code: outcome.exit_code(),
                    errors: seen,
                },
            )
        },
    };
    let result = match outcome {
        ExitOutcome::Completed(code) => Ok(code),
        ExitOutcome::SpawnFailed(_) => Err(CommandError::RunningCommand { name: program.to_owned() }),
    };
    Conclusion { event, result }
}

} // verus!
