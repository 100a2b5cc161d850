use synker::outbound::git_synchronizer::{commits_changes, remote_ref_found};
use synker::domain::services::synchronisation::SynchronisationError;
use synker::outbound::git_synchronizer::{
    commit_message, judge_rebase_step, last_sync_report, GitSynchronizer, RebaseStep,
};

fn sync() -> GitSynchronizer {
    GitSynchronizer::new(
        "origin".to_string(),
        "master".to_string(),
        "/repo".to_string(),
        "test@example.com".to_string(),
    )
}

#[test]
fn references_and_refspecs() {
    let s = sync();
    assert_eq!(s.remote_tracking_ref(), "refs/remotes/origin/master");
    assert_eq!(s.push_refspec(), "refs/heads/master:refs/heads/master");
    assert_eq!(s.remote(), "origin");
    assert_eq!(s.branch(), "master");
    assert_eq!(s.repo_path(), "/repo");
    assert_eq!(s.user_email(), "test@example.com");
}

#[test]
fn commit_messages_start_with_auto_sync() {
    let m = commit_message("2024-05-01 10:00:00");
    assert_eq!(m, "Auto-sync: 2024-05-01 10:00:00");
    assert!(m.starts_with("Auto-sync:"));
}

#[test]
fn rebase_steps() {
    assert!(judge_rebase_step(RebaseStep::Applied { conflicts: false }).is_ok());
    match judge_rebase_step(RebaseStep::Applied { conflicts: true }) {
        Err(SynchronisationError::FileConflict(m)) => assert_eq!(m, "Merge conflict detected during rebase"),
        _ => panic!("expected a conflict"),
    }
    match judge_rebase_step(RebaseStep::Failed("boom".to_string())) {
        Err(SynchronisationError::SyncToolError(m)) => assert_eq!(m, "boom"),
        _ => panic!("expected a tool error"),
    }
}

#[test]
fn last_sync_report_totals_pending_bytes() {
    let r = last_sync_report("abc".to_string(), 10, &vec![3, 4, 5]);
    assert_eq!(r.commit_name, "abc");
    assert_eq!(r.last_sync_time, 10 * 1_000_000_000);
    assert_eq!(r.pending_changes, 12);
    let r = last_sync_report("abc".to_string(), -5, &vec![]);
    assert_eq!(r.last_sync_time, 0);
    assert_eq!(r.pending_changes, 0);
}

#[test]
fn commits_only_when_changes_are_listed() {
    assert!(!commits_changes(0));
    assert!(commits_changes(3));
}

#[test]
fn a_missing_remote_ref_means_a_first_sync() {
    assert!(matches!(remote_ref_found::<u8>(None), Err(SynchronisationError::FirstTimeSync)));
    assert!(matches!(remote_ref_found(Some(7u8)), Ok(7)));
}
