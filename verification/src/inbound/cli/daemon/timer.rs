//! The decisions of the synchronisation daemon: when to synchronise, how
//! long to wait, and retrying a failed synchronisation. The daemon loop
//! performs the actions and reports what happened as events.

use vstd::prelude::*;

use crate::domain::services::synchronisation::{SynchronisationError, SynchronisationReport};

verus! {

/// Seconds between two checks of the synchronisation state.
pub const CHECK_INTERVAL_SECONDS: u64 = 60;

/// Seconds to wait before retrying a failed synchronisation.
pub const RETRY_DELAY_SECONDS: u64 = 120;

/// Where the daemon is in its cycle.
#[derive(Clone, Copy, PartialEq, Eq, Structural, Debug)]
pub enum TimerState {
    /// Waiting for the state of the last synchronisation.
    Checking,
    /// Waiting for a synchronisation to finish.
    Syncing,
    /// Sleeping before retrying a failed synchronisation.
    WaitingToRetry,
    /// Sleeping until the next check.
    WaitingForNextCheck,
}

/// What the daemon loop must do next.
#[derive(Clone, Copy, PartialEq, Eq, Structural, Debug)]
pub enum TimerAction {
    /// Ask for the state of the last synchronisation.
    CheckLastSync,
    /// Synchronise now.
    Synchronise,
    /// Sleep for this many seconds.
    Sleep(u64),
}

/// What happened since the last action.
pub enum TimerEvent {
    /// The state of the last synchronisation was read at time `now`
    /// (nanoseconds relative to the UNIX epoch).
    LastSyncChecked { report: Result<SynchronisationReport, SynchronisationError>, now: i128 },
    /// A synchronisation finished.
    SyncFinished { result: Result<SynchronisationReport, SynchronisationError> },
    /// A sleep ended.
    SleepFinished,
}

/// The nanoseconds per second.
pub open spec fn nanos_per_second() -> int {
    1_000_000_000
}

/// Whether the last synchronisation, at `last`, is more than
/// `sync_delay_hours` whole hours before `now`, counting whole seconds
/// elapsed; a last synchronisation in the future (clock skew) counts as too
/// old.
pub open spec fn too_long_since(last: i128, now: i128, sync_delay_hours: u64) -> bool {
    now < last || (now - last) / nanos_per_second() > sync_delay_hours * 3600
}

/// Whether the daemon must synchronise, given the state of the last
/// synchronisation: when there are pending changes or the last one is too
/// old; on a first synchronisation; and not when the state could not be
/// read for another reason.
pub open spec fn sync_needed(
    report: Result<SynchronisationReport, SynchronisationError>,
    now: i128,
    sync_delay_hours: u64,
) -> bool {
    match report {
        Ok(r) => r.pending_changes > 0 || too_long_since(r.last_sync_time, now, sync_delay_hours),
        Err(SynchronisationError::FirstTimeSync) => true,
        Err(_) => false,
    }
}

/// `d / n > k` exactly when `d >= (k + 1) * n`, for `d >= 0` and `n > 0`.
proof fn lemma_quotient_exceeds(d: int, n: int, k: int)
    requires
        d >= 0,
        n > 0,
        k >= 0,
    ensures
        (d / n > k) == (d >= (k + 1) * n),
{
    assert((d / n > k) == (d >= (k + 1) * n)) by (nonlinear_arith)
        requires
            d >= 0,
            n > 0,
            k >= 0,
    {
        let q = d / n;
        let r = d % n;
        assert(d == q * n + r);
        assert(0 <= r < n);
        if q > k {
            assert(q >= k + 1);
            assert(q * n >= (k + 1) * n);
        } else {
            assert(q <= k);
            assert(q * n <= k * n);
        }
    }
}

/// Whether the daemon must synchronise.
pub fn needs_sync(
    report: &Result<SynchronisationReport, SynchronisationError>,
    now: i128,
    sync_delay_hours: u64,
) -> (r: bool)
    requires
        sync_delay_hours * 3600 <= u64::MAX,
    ensures
        r == sync_needed(*report, now, sync_delay_hours),
{
    match report {
        Ok(r) => {
            if r.pending_changes > 0 {
                return true;
            }
            let last = r.last_sync_time;
            if now < last {
                return true;
            }
            let limit: i128 = ((sync_delay_hours as i128) * 3600 + 1) * 1_000_000_000;
            proof {
                lemma_quotient_exceeds(now - last, nanos_per_second(), sync_delay_hours * 3600);
            }
            match last.checked_add(limit) {
                Some(bound) => now >= bound,
                None => false,
            }
        },
        Err(SynchronisationError::FirstTimeSync) => true,
        Err(_) => false,
    }
}

/// The daemon's first state and action: check the last synchronisation.
pub fn start() -> (r: (TimerState, TimerAction))
    ensures
        r == (TimerState::Checking, TimerAction::CheckLastSync),
{
    (TimerState::Checking, TimerAction::CheckLastSync)
}

/// The action that a state waits on.
pub open spec fn pending_action(state: TimerState) -> TimerAction {
    match state {
        TimerState::Checking => TimerAction::CheckLastSync,
        TimerState::Syncing => TimerAction::Synchronise,
        TimerState::WaitingToRetry => TimerAction::Sleep(RETRY_DELAY_SECONDS),
        TimerState::WaitingForNextCheck => TimerAction::Sleep(CHECK_INTERVAL_SECONDS),
    }
}

/// The next state and action after an event. After a check, synchronise
/// when `sync_needed`, else sleep until the next check. After a
/// synchronisation, sleep until the next check if it succeeded, else sleep
/// before retrying. After a sleep, retry or check again. An event that the
/// state does not wait for leaves the state and repeats its action.
pub open spec fn next(state: TimerState, event: TimerEvent, sync_delay_hours: u64) -> (
    TimerState,
    TimerAction,
) {
    match (state, event) {
        (TimerState::Checking, TimerEvent::LastSyncChecked { report, now }) => {
            if sync_needed(report, now, sync_delay_hours) {
                (TimerState::Syncing, TimerAction::Synchronise)
            } else {
                (TimerState::WaitingForNextCheck, TimerAction::Sleep(CHECK_INTERVAL_SECONDS))
            }
        },
        (TimerState::Syncing, TimerEvent::SyncFinished { result }) => {
            if result is Ok {
                (TimerState::WaitingForNextCheck, TimerAction::Sleep(CHECK_INTERVAL_SECONDS))
            } else {
                (TimerState::WaitingToRetry, TimerAction::Sleep(RETRY_DELAY_SECONDS))
            }
        },
        (TimerState::WaitingToRetry, TimerEvent::SleepFinished) => (
            TimerState::Syncing,
            TimerAction::Synchronise,
        ),
        (TimerState::WaitingForNextCheck, TimerEvent::SleepFinished) => (
            TimerState::Checking,
            TimerAction::CheckLastSync,
        ),
        _ => (state, pending_action(state)),
    }
}

/// Decides the next state and action of the daemon after an event.
pub fn step(state: TimerState, event: TimerEvent, sync_delay_hours: u64) -> (r: (
    TimerState,
    TimerAction,
))
    requires
        sync_delay_hours * 3600 <= u64::MAX,
    ensures
        r == next(state, event, sync_delay_hours),
{
    match (state, event) {
        (TimerState::Checking, TimerEvent::LastSyncChecked { report, now }) => {
            if needs_sync(&report, now, sync_delay_hours) {
                (TimerState::Syncing, TimerAction::Synchronise)
            } else {
                (TimerState::WaitingForNextCheck, TimerAction::Sleep(CHECK_INTERVAL_SECONDS))
            }
        },
        (TimerState::Syncing, TimerEvent::SyncFinished { result }) => {
            if result.is_ok() {
                (TimerState::WaitingForNextCheck, TimerAction::Sleep(CHECK_INTERVAL_SECONDS))
            } else {
                (TimerState::WaitingToRetry, TimerAction::Sleep(RETRY_DELAY_SECONDS))
            }
        },
        (TimerState::WaitingToRetry, TimerEvent::SleepFinished) => (
            TimerState::Syncing,
            TimerAction::Synchronise,
        ),
        (TimerState::WaitingForNextCheck, TimerEvent::SleepFinished) => (
            TimerState::Checking,
            TimerAction::CheckLastSync,
        ),
        (s, _) => {
            let action = match s {
                TimerState::Checking => TimerAction::CheckLastSync,
                TimerState::Syncing => TimerAction::Synchronise,
                TimerState::WaitingToRetry => TimerAction::Sleep(RETRY_DELAY_SECONDS),
                TimerState::WaitingForNextCheck => TimerAction::Sleep(CHECK_INTERVAL_SECONDS),
            };
            (s, action)
        },
    }
}

// ───────────────────────── laws ─────────────────────────

/// A failed synchronisation is retried: the daemon sleeps for the retry
/// delay and then synchronises again.
pub proof fn law_failed_sync_is_retried(error: SynchronisationError, sync_delay_hours: u64)
    ensures
        next(
            TimerState::Syncing,
            TimerEvent::SyncFinished { result: Err(error) },
            sync_delay_hours,
        ) == (TimerState::WaitingToRetry, TimerAction::Sleep(RETRY_DELAY_SECONDS)),
        next(TimerState::WaitingToRetry, TimerEvent::SleepFinished, sync_delay_hours) == (
            TimerState::Syncing,
            TimerAction::Synchronise,
        ),
{
}

/// After a successful synchronisation the daemon sleeps until the next
/// check and then checks again.
pub proof fn law_successful_sync_waits_for_next_check(
    report: SynchronisationReport,
    sync_delay_hours: u64,
)
    ensures
        next(
            TimerState::Syncing,
            TimerEvent::SyncFinished { result: Ok(report) },
            sync_delay_hours,
        ) == (TimerState::WaitingForNextCheck, TimerAction::Sleep(CHECK_INTERVAL_SECONDS)),
        next(TimerState::WaitingForNextCheck, TimerEvent::SleepFinished, sync_delay_hours) == (
            TimerState::Checking,
            TimerAction::CheckLastSync,
        ),
{
}

/// A repository never synchronised before is synchronised at once.
pub proof fn law_first_sync_happens_at_once(now: i128, sync_delay_hours: u64)
    ensures
        next(
            TimerState::Checking,
            TimerEvent::LastSyncChecked { report: Err(SynchronisationError::FirstTimeSync), now },
            sync_delay_hours,
        ) == (TimerState::Syncing, TimerAction::Synchronise),
{
}

/// Pending changes are synchronised at the next check, however recent the
/// last synchronisation.
pub proof fn law_pending_changes_are_synchronised(
    report: SynchronisationReport,
    now: i128,
    sync_delay_hours: u64,
)
    requires
        report.pending_changes > 0,
    ensures
        next(
            TimerState::Checking,
            TimerEvent::LastSyncChecked { report: Ok(report), now },
            sync_delay_hours,
        ) == (TimerState::Syncing, TimerAction::Synchronise),
{
}

/// With nothing pending and a recent enough last synchronisation, the
/// daemon only waits for the next check.
pub proof fn law_recent_clean_state_waits(
    report: SynchronisationReport,
    now: i128,
    sync_delay_hours: u64,
)
    requires
        report.pending_changes == 0,
        report.last_sync_time <= now,
        now - report.last_sync_time < (sync_delay_hours * 3600 + 1) * nanos_per_second(),
    ensures
        next(
            TimerState::Checking,
            TimerEvent::LastSyncChecked { report: Ok(report), now },
            sync_delay_hours,
        ) == (TimerState::WaitingForNextCheck, TimerAction::Sleep(CHECK_INTERVAL_SECONDS)),
{
    lemma_quotient_exceeds(
        now - report.last_sync_time,
        nanos_per_second(),
        sync_delay_hours * 3600,
    );
}

/// A last synchronisation older than the delay is always renewed: when
/// more than `sync_delay_hours` whole hours have passed since it, the check
/// asks for a synchronisation, whatever the delay and whatever is pending.
pub proof fn law_old_sync_is_renewed(
    report: SynchronisationReport,
    now: i128,
    sync_delay_hours: u64,
)
    requires
        report.last_sync_time <= now,
        now - report.last_sync_time >= (sync_delay_hours * 3600 + 1) * nanos_per_second(),
    ensures
        sync_needed(Ok(report), now, sync_delay_hours),
        next(
            TimerState::Checking,
            TimerEvent::LastSyncChecked { report: Ok(report), now },
            sync_delay_hours,
        ) == (TimerState::Syncing, TimerAction::Synchronise),
{
    lemma_quotient_exceeds(
        now - report.last_sync_time,
        nanos_per_second(),
        sync_delay_hours * 3600,
    );
}

} // verus!
