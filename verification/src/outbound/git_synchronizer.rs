//! The rules of Git-based synchronisation: the references and refspecs it
//! uses, the commit message, how a rebase step is judged, and the report of
//! the last synchronisation. The repository work itself is done by the
//! Git adapter.

use vstd::prelude::*;

use crate::domain::services::synchronisation::{SynchronisationError, SynchronisationReport};

verus! {

/// Configuration of a Git synchronisation: stage changes, commit, pull with
/// rebase, and push to `remote`/`branch` from the repository at
/// `repo_path`, committing as `user_email`.
pub struct GitSynchronizer {
    remote: String,
    branch: String,
    repo_path: String,
    user_email: String,
}

impl GitSynchronizer {
    /// The name of the remote.
    pub closed spec fn remote_spec(&self) -> Seq<char> {
        self.remote@
    }

    /// The branch that is synchronised.
    pub closed spec fn branch_spec(&self) -> Seq<char> {
        self.branch@
    }

    /// The path of the repository.
    pub closed spec fn repo_path_spec(&self) -> Seq<char> {
        self.repo_path@
    }

    /// The e-mail address that commits are signed with.
    pub closed spec fn user_email_spec(&self) -> Seq<char> {
        self.user_email@
    }

    /// Creates a new Git synchronisation configuration.
    pub fn new(remote: String, branch: String, repo_path: String, user_email: String) -> (r: Self)
        ensures
            r.remote_spec() == remote@,
            r.branch_spec() == branch@,
            r.repo_path_spec() == repo_path@,
            r.user_email_spec() == user_email@,
    {
        GitSynchronizer { remote, branch, repo_path, user_email }
    }

    /// The name of the remote.
    pub fn remote(&self) -> (r: &str)
        ensures
            r@ == self.remote_spec(),
    {
        self.remote.as_str()
    }

    /// The branch that is synchronised.
    pub fn branch(&self) -> (r: &str)
        ensures
            r@ == self.branch_spec(),
    {
        self.branch.as_str()
    }

    /// The path of the repository.
    pub fn repo_path(&self) -> (r: &str)
        ensures
            r@ == self.repo_path_spec(),
    {
        self.repo_path.as_str()
    }

    /// The e-mail address that commits are signed with.
    pub fn user_email(&self) -> (r: &str)
        ensures
            r@ == self.user_email_spec(),
    {
        self.user_email.as_str()
    }

    /// The remote-tracking reference whose commit is the last successful
    /// synchronisation: `refs/remotes/{remote}/{branch}`.
    pub fn remote_tracking_ref(&self) -> (r: String)
        ensures
            r@ == "refs/remotes/"@ + self.remote_spec() + "/"@ + self.branch_spec(),
    {
        let mut r = String::from_str("refs/remotes/");
        r.append(self.remote.as_str());
        r.append("/");
        r.append(self.branch.as_str());
        r
    }

    /// The refspec that pushes the branch to the same branch of the remote:
    /// `refs/heads/{branch}:refs/heads/{branch}`.
    pub fn push_refspec(&self) -> (r: String)
        ensures
            r@ == "refs/heads/"@ + self.branch_spec() + ":refs/heads/"@ + self.branch_spec(),
    {
        let mut r = String::from_str("refs/heads/");
        r.append(self.branch.as_str());
        r.append(":refs/heads/");
        r.append(self.branch.as_str());
        r
    }
}

/// The message of an automatic commit made at the given local time text.
pub fn commit_message(timestamp: &str) -> (r: String)
    ensures
        r@ == "Auto-sync: "@ + timestamp@,
{
    let mut r = String::from_str("Auto-sync: ");
    r.append(timestamp);
    r
}

/// Whether a synchronisation commits before it pulls: only when the
/// repository's status lists changed entries.
pub fn commits_changes(changed_entries: usize) -> (r: bool)
    ensures
        r == (changed_entries > 0),
{
    changed_entries > 0
}

/// The lookup of the remote-tracking reference, judged: a missing
/// reference means that the first synchronisation is still to come.
pub fn remote_ref_found<R>(found: Option<R>) -> (r: Result<R, SynchronisationError>)
    ensures
        found matches Some(x) ==> r == Ok::<R, SynchronisationError>(x),
        found is None ==> r == Err::<R, SynchronisationError>(SynchronisationError::FirstTimeSync),
{
    match found {
        Some(x) => Ok(x),
        None => Err(SynchronisationError::FirstTimeSync),
    }
}

/// What one step of a rebase did.
pub enum RebaseStep {
    /// The step applied a commit; `conflicts` tells whether the index then
    /// holds conflicts.
    Applied { conflicts: bool },
    /// The step failed with this message.
    Failed(String),
}

/// The judgement of a rebase step: `Ok` to commit the step and go on, or
/// the error to abort the rebase with.
pub fn judge_rebase_step(step: RebaseStep) -> (r: Result<(), SynchronisationError>)
    ensures
        match step {
            RebaseStep::Applied { conflicts: false } => r is Ok,
            RebaseStep::Applied { conflicts: true } => r matches Err(
                SynchronisationError::FileConflict(m),
            ) && m@ == "Merge conflict detected during rebase"@,
            RebaseStep::Failed(e) => r == Err::<(), SynchronisationError>(
                SynchronisationError::SyncToolError(e),
            ),
        },
{
    match step {
        RebaseStep::Applied { conflicts } => {
            if conflicts {
                Err(
                    SynchronisationError::FileConflict(
                        String::from_str("Merge conflict detected during rebase"),
                    ),
                )
            } else {
                Ok(())
            }
        },
        RebaseStep::Failed(e) => Err(SynchronisationError::SyncToolError(e)),
    }
}

/// The total of a list of sizes.
pub open spec fn total(sizes: Seq<u64>) -> int
    decreases sizes.len(),
{
    if sizes.len() == 0 {
        0
    } else {
        total(sizes.drop_last()) + sizes.last()
    }
}

/// The nanoseconds per second.
pub const NANOS_PER_SECOND: i128 = 1_000_000_000;

/// The report of the last synchronisation: the commit that the remote
/// branch points to, its commit time (seconds since the UNIX epoch, times
/// before the epoch counted as the epoch), and as pending changes the total
/// size of the files that differ from it.
pub fn last_sync_report(
    commit_name: String,
    commit_time_seconds: i64,
    pending_file_sizes: &Vec<u64>,
) -> (r: SynchronisationReport)
    requires
        total(pending_file_sizes@) <= u64::MAX,
    ensures
        r.commit_name == commit_name,
        r.last_sync_time == (if commit_time_seconds < 0 {
            0
        } else {
            commit_time_seconds
        }) * NANOS_PER_SECOND,
        r.pending_changes == total(pending_file_sizes@) as u64 as usize,
{
    let seconds: i64 = if commit_time_seconds < 0 {
        0
    } else {
        commit_time_seconds
    };
    let mut pending: u64 = 0;
    let mut i: usize = 0;
    while i < pending_file_sizes.len()
        invariant
            i <= pending_file_sizes.len(),
            total(pending_file_sizes@) <= u64::MAX,
            pending == total(pending_file_sizes@.take(i as int)),
        decreases pending_file_sizes.len() - i,
    {
        proof {
            assert(pending_file_sizes@.take(i + 1).drop_last() =~= pending_file_sizes@.take(i as int));
            lemma_total_prefix(pending_file_sizes@, i + 1);
        }
        pending = pending + pending_file_sizes[i];
        i = i + 1;
    }
    proof {
        assert(pending_file_sizes@.take(i as int) =~= pending_file_sizes@);
    }
    SynchronisationReport {
        commit_name,
        last_sync_time: (seconds as i128) * NANOS_PER_SECOND,
        pending_changes: pending as usize,
    }
}

/// The total of a prefix of the sizes is at most the total of them all.
proof fn lemma_total_prefix(sizes: Seq<u64>, n: int)
    requires
        0 <= n <= sizes.len(),
    ensures
        total(sizes.take(n)) <= total(sizes),
    decreases sizes.len() - n,
{
    if n < sizes.len() {
        lemma_total_prefix(sizes, n + 1);
        assert(sizes.take(n + 1).drop_last() =~= sizes.take(n));
    } else {
        assert(sizes.take(n) =~= sizes);
    }
}

} // verus!
