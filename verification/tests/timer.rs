use synker::domain::services::synchronisation::{SynchronisationError, SynchronisationReport};
use synker::inbound::cli::daemon::timer::{
    needs_sync, start, step, TimerAction, TimerEvent, TimerState, CHECK_INTERVAL_SECONDS,
    RETRY_DELAY_SECONDS,
};

const SECOND: i128 = 1_000_000_000;
const HOUR: i128 = 3600 * SECOND;

fn report(last: i128, pending: usize) -> SynchronisationReport {
    SynchronisationReport { commit_name: "c".to_string(), last_sync_time: last, pending_changes: pending }
}

#[test]
fn daemon_starts_by_checking() {
    assert_eq!(start(), (TimerState::Checking, TimerAction::CheckLastSync));
}

#[test]
fn pending_changes_need_a_sync() {
    assert!(needs_sync(&Ok(report(100 * HOUR, 1)), 100 * HOUR, 24));
}

#[test]
fn old_sync_needs_a_sync_only_past_the_delay() {
    let last = 1_000 * HOUR;
    // Exactly 24 hours: not more than the delay.
    assert!(!needs_sync(&Ok(report(last, 0)), last + 24 * HOUR, 24));
    // 24 hours and 999999999 ns: still 86400 whole seconds.
    assert!(!needs_sync(&Ok(report(last, 0)), last + 24 * HOUR + SECOND - 1, 24));
    // One second more.
    assert!(needs_sync(&Ok(report(last, 0)), last + 24 * HOUR + SECOND, 24));
}

#[test]
fn clock_skew_needs_a_sync() {
    assert!(needs_sync(&Ok(report(10 * HOUR, 0)), 9 * HOUR, 24));
}

#[test]
fn first_time_sync_and_other_errors() {
    assert!(needs_sync(&Err(SynchronisationError::FirstTimeSync), 0, 24));
    assert!(!needs_sync(&Err(SynchronisationError::SyncToolError("x".to_string())), 0, 24));
}

#[test]
fn extreme_times_do_not_overflow() {
    assert!(!needs_sync(&Ok(report(i128::MAX - 5, 0)), i128::MAX, u64::MAX / 3600));
    assert!(needs_sync(&Ok(report(i128::MIN, 0)), i128::MAX, u64::MAX / 3600));
}

#[test]
fn a_failed_sync_is_retried_after_the_delay() {
    let (s, a) = step(
        TimerState::Syncing,
        TimerEvent::SyncFinished { result: Err(SynchronisationError::NetworkError("down".to_string())) },
        24,
    );
    assert_eq!((s, a), (TimerState::WaitingToRetry, TimerAction::Sleep(RETRY_DELAY_SECONDS)));
    assert_eq!(RETRY_DELAY_SECONDS, 120);
    let (s, a) = step(s, TimerEvent::SleepFinished, 24);
    assert_eq!((s, a), (TimerState::Syncing, TimerAction::Synchronise));
}

#[test]
fn a_full_cycle() {
    let (s, a) = start();
    assert_eq!(a, TimerAction::CheckLastSync);
    let (s, a) = step(s, TimerEvent::LastSyncChecked { report: Ok(report(0, 3)), now: 5 }, 24);
    assert_eq!((s, a), (TimerState::Syncing, TimerAction::Synchronise));
    let (s, a) = step(s, TimerEvent::SyncFinished { result: Ok(report(5, 0)) }, 24);
    assert_eq!((s, a), (TimerState::WaitingForNextCheck, TimerAction::Sleep(CHECK_INTERVAL_SECONDS)));
    assert_eq!(CHECK_INTERVAL_SECONDS, 60);
    let (s, a) = step(s, TimerEvent::SleepFinished, 24);
    assert_eq!((s, a), (TimerState::Checking, TimerAction::CheckLastSync));
    let (s, a) = step(s, TimerEvent::LastSyncChecked { report: Ok(report(5, 0)), now: 6 }, 24);
    assert_eq!((s, a), (TimerState::WaitingForNextCheck, TimerAction::Sleep(60)));
}

#[test]
fn unexpected_events_repeat_the_pending_action() {
    let (s, a) = step(TimerState::Checking, TimerEvent::SleepFinished, 24);
    assert_eq!((s, a), (TimerState::Checking, TimerAction::CheckLastSync));
    let (s, a) = step(TimerState::WaitingToRetry, TimerEvent::SyncFinished { result: Ok(report(0, 0)) }, 24);
    assert_eq!((s, a), (TimerState::WaitingToRetry, TimerAction::Sleep(120)));
}
