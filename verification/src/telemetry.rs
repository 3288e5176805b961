//! The events that a run leaves behind, and what follows an attempt to
//! store one.

use vstd::prelude::*;

verus! {

/// One record for the telemetry store.
#[derive(Clone, Debug, PartialEq, Eq)]
pub enum TelemetryEvent {
    /// The version that the instrumented program reported of itself.
    VersionProbe { version: String, version_hash: String, build_date: String },
    /// One run of the instrumented program. `errors` is absent where no
    /// diagnostic code was seen, which is not the same as an empty list.
    RunRecord { duration_ms: u64, exit_code: i32, errors: Option<Vec<String>> },
}

/// A [`TelemetryEvent`] with its texts as characters.
pub enum EventModel {
    VersionProbe { version: Seq<char>, version_hash: Seq<char>, build_date: Seq<char> },
    RunRecord { duration_ms: u64, exit_code: i32, errors: Option<Seq<Seq<char>>> },
}

impl View for TelemetryEvent {
    type V = EventModel;

    open spec fn view(&self) -> EventModel {
        match self {
            TelemetryEvent::VersionProbe { version, version_hash, build_date } => {
                EventModel::VersionProbe {
                    version: version@,
                    version_hash: version_hash@,
                    build_date: build_date@,
                }
            },
            TelemetryEvent::RunRecord { duration_ms, exit_code, errors } => EventModel::RunRecord {
                duration_ms: *duration_ms,
                exit_code: *exit_code,
                errors: errors.deep_view(),
            },
        }
    }
}

impl DeepView for TelemetryEvent {
    type V = EventModel;

    open spec fn deep_view(&self) -> EventModel {
        self@
    }
}

/// What the notification handler is told.
#[derive(Clone, Debug, PartialEq, Eq)]
pub enum Notification {
    /// The telemetry store failed; the text is the store's own account.
    TelemetryCleanupError(String),
}

/// A [`Notification`] with its text as characters.
pub enum NotificationModel {
    TelemetryCleanupError(Seq<char>),
}

impl View for Notification {
    type V = NotificationModel;

    open spec fn view(&self) -> NotificationModel {
        match self {
            Notification::TelemetryCleanupError(cause) => NotificationModel::TelemetryCleanupError(
                cause@,
            ),
        }
    }
}

impl DeepView for Notification {
    type V = NotificationModel;

    open spec fn deep_view(&self) -> NotificationModel {
        self@
    }
}

/// Whole milliseconds in a span of `secs` seconds and `subsec_nanos`
/// nanoseconds; what is left of a millisecond is dropped.
pub open spec fn millis_of(secs: int, subsec_nanos: int) -> int {
    secs * 1000 + subsec_nanos / 1_000_000
}

/// The length of a run in milliseconds.
pub fn elapsed_millis(secs: u64, subsec_nanos: u32) -> (ms: u64)
    requires
        millis_of(secs as int, subsec_nanos as int) <= u64::MAX,
    ensures
        ms == millis_of(secs as int, subsec_nanos as int),
{
    let whole: u64 = secs * 1000;
    let part: u64 = (subsec_nanos / 1_000_000) as u64;
    whole + part
}

/// The length of a run in milliseconds, where 64 bits hold it.
pub fn checked_elapsed_millis(secs: u64, subsec_nanos: u32) -> (ms: Option<u64>)
    ensures
        ms == if millis_of(secs as int, subsec_nanos as int) <= u64::MAX {
            Some(millis_of(secs as int, subsec_nanos as int) as u64)
        } else {
            None
        },
{
    let part: u64 = (subsec_nanos / 1_000_000) as u64;
    if secs <= (u64::MAX - part) / 1000 {
        Some(elapsed_millis(secs, subsec_nanos))
    } else {
        None
    }
}

/// What follows an attempt to append an event to the store: a failure is
/// made known and goes no further, a success needs nothing.
pub fn after_append(appended: Result<(), String>) -> (notice: Option<Notification>)
    ensures
        notice.deep_view() == match appended {
            Ok(_) => None::<NotificationModel>,
            Err(cause) => Some(NotificationModel::TelemetryCleanupError(cause@)),
        },
{
    match appended {
        Ok(_) => None,
        Err(cause) => Some(Notification::TelemetryCleanupError(cause)),
    }
}

} // verus!
