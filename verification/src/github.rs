//! The repository sync loop's decisions: where a working tree lives,
//! which actions a tick runs over it, how a pull's outcome is read, and
//! the status the loop posts. The loop's I/O — spawning the commands,
//! touching the filesystem — is the driver's; every choice is made here.

use vstd::prelude::*;

use crate::common::{AppName, AppStatus, Status};
use crate::git::GitAction;
use crate::git_data::GitAuth;
use crate::hashing::{service_id_of, sha256_hex_of};
use crate::strutil::contains_seq;
use crate::version::{code_suffix_spec, local_version_code, local_version_number, Version};

verus! {

/// The identity string a repository hashes to: user, repository and
/// branch joined by dashes.
pub open spec fn git_identity_spec(user: Seq<char>, repo: Seq<char>, branch: Seq<char>) -> Seq<
    char,
> {
    user + "-"@ + repo + "-"@ + branch
}

/// The identity string of a repository's credentials.
pub fn git_identity(auth: &GitAuth) -> (r: String)
    ensures
        r@ == git_identity_spec(auth.user@, auth.repo@, auth.branch@),
{
    let mut out = auth.user.clone();
    out.append("-");
    out.append(auth.repo.as_str());
    out.append("-");
    out.append(auth.branch.as_str());
    out
}

/// The service id of a repository: the first eight hex digits of the
/// hash of its identity string.
pub open spec fn repo_service_id_spec(auth: GitAuth) -> Seq<char> {
    sha256_hex_of(git_identity_spec(auth.user@, auth.repo@, auth.branch@)).take(8)
}

/// The service id every derived artifact of a repository is named by.
pub fn repo_service_id(auth: &GitAuth) -> (r: String)
    ensures
        r@ == repo_service_id_spec(*auth),
        r@.len() == 8,
{
    let identity = git_identity(auth);
    service_id_of(identity.as_str())
}

/// The working tree of a repository: its service id under the project
/// base.
pub fn generate_git_project_path(auth: &GitAuth) -> (r: String)
    ensures
        r@ == "/var/www/ais/"@ + repo_service_id_spec(*auth),
{
    let mut out = String::from_str("/var/www/ais/");
    let sid = repo_service_id(auth);
    out.append(sid.as_str());
    out
}

/// The actions that set up a fresh working tree: clone it, mark it
/// safe, and fetch its tracking metadata. Between the clone and the
/// safe mark the driver hands the tree to the web user.
pub fn new_repo_plan(auth: &GitAuth, project_path: &str) -> (r: Vec<GitAction>)
    ensures
        r@.len() == 3,
        match r@[0] {
            GitAction::Clone { repo_name, repo_owner, destination } => repo_name@ == auth.repo@
                && repo_owner@ == auth.user@ && destination@ == project_path@,
            _ => false,
        },
        match r@[1] {
            GitAction::SetSafe(d) => d@ == project_path@,
            _ => false,
        },
        match r@[2] {
            GitAction::Fetch { destination } => destination@ == project_path@,
            _ => false,
        },
{
    let mut out: Vec<GitAction> = Vec::new();
    out.push(
        GitAction::Clone {
            repo_name: auth.repo.clone(),
            repo_owner: auth.user.clone(),
            destination: project_path.to_owned(),
        },
    );
    out.push(GitAction::SetSafe(project_path.to_owned()));
    out.push(GitAction::Fetch { destination: project_path.to_owned() });
    out
}

/// The actions that precede the pull over an existing working tree:
/// mark it safe, then fetch.
pub fn existing_repo_plan(project_path: &str) -> (r: Vec<GitAction>)
    ensures
        r@.len() == 2,
        match r@[0] {
            GitAction::SetSafe(d) => d@ == project_path@,
            _ => false,
        },
        match r@[1] {
            GitAction::Fetch { destination } => destination@ == project_path@,
            _ => false,
        },
{
    let mut out: Vec<GitAction> = Vec::new();
    out.push(GitAction::SetSafe(project_path.to_owned()));
    out.push(GitAction::Fetch { destination: project_path.to_owned() });
    out
}

/// The pull over a working tree, onto the configured branch.
pub fn pull_action(auth: &GitAuth, project_path: &str) -> (r: GitAction)
    ensures
        match r {
            GitAction::Pull { target_branch, destination } => target_branch@ == auth.branch@
                && destination@ == project_path@,
            _ => false,
        },
{
    GitAction::Pull {
        target_branch: auth.branch.clone(),
        destination: project_path.to_owned(),
    }
}

/// The actions run after new commits were applied: set up tracking
/// branches, then switch to the configured branch. The restart of the
/// repository's unit follows, under [`crate::systemd::should_restart`].
pub fn finalize_plan(auth: &GitAuth, project_path: &str) -> (r: Vec<GitAction>)
    ensures
        r@.len() == 2,
        match r@[0] {
            GitAction::SetTrack(d) => d@ == project_path@,
            _ => false,
        },
        match r@[1] {
            GitAction::Switch { branch, destination } => branch@ == auth.branch@ && destination@
                == project_path@,
            _ => false,
        },
{
    let mut out: Vec<GitAction> = Vec::new();
    out.push(GitAction::SetTrack(project_path.to_owned()));
    out.push(
        GitAction::Switch { branch: auth.branch.clone(), destination: project_path.to_owned() },
    );
    out
}

/// What the pull of one repository came back with.
pub enum PullResult {
    /// The pull printed this output.
    Output(String),
    /// The pull ran but printed nothing.
    NoOutput,
    /// The pull failed; `general` marks a non-critical failure.
    CommandError { general: bool, message: String },
}

/// What the loop does with a pull's outcome.
#[derive(Debug, Clone, Copy, PartialEq, Eq, Structural)]
pub enum PullDecision {
    /// New commits were applied: finalize and restart.
    Changed,
    /// Nothing new: leave the tree alone.
    Unchanged,
    /// The safe-directory protection interfered: mark the tree safe,
    /// fetch, and pull once more.
    RetryAfterSafeMark,
    /// The repository fails for this tick.
    Fail,
}

/// Reads a pull's outcome. Output other than the up-to-date notice
/// counts as a change; a non-critical failure is treated as a change; a
/// safe-directory failure earns exactly one retry; anything else fails
/// the repository for this tick.
pub fn decide_pull(result: &PullResult, retries_used: u8) -> (r: PullDecision)
    ensures
        match result {
            PullResult::Output(s) => r == (if contains_seq(s@, "Already up to date."@) {
                PullDecision::Unchanged
            } else {
                PullDecision::Changed
            }),
            PullResult::NoOutput => r == PullDecision::Unchanged,
            PullResult::CommandError { general, message } => r == (if *general {
                PullDecision::Changed
            } else if contains_seq(message@, "safe directory"@) && retries_used == 0 {
                PullDecision::RetryAfterSafeMark
            } else {
                PullDecision::Fail
            }),
        },
{
    match result {
        PullResult::Output(s) => {
            if crate::git::pull_made_changes(s.as_str()) {
                PullDecision::Changed
            } else {
                PullDecision::Unchanged
            }
        },
        PullResult::NoOutput => PullDecision::Unchanged,
        PullResult::CommandError { general, message } => {
            if *general {
                PullDecision::Changed
            } else if crate::git::is_safe_directory_error(message.as_str()) && retries_used == 0 {
                PullDecision::RetryAfterSafeMark
            } else {
                PullDecision::Fail
            }
        },
    }
}

/// Relies on rand's SliceRandom::shuffle: the tick order is a
/// permutation of the credentials; which permutation is the generator's
/// choice, so only the multiset of items is promised.
#[verifier::external_body]
pub fn tick_order(credentials: Vec<GitAuth>) -> (r: Vec<GitAuth>)
    ensures
        r@.to_multiset() == credentials@.to_multiset(),
        r@.len() == credentials@.len(),
{
    let mut shuffled = credentials;
    let mut rng: rand::rngs::StdRng =
        <rand::rngs::StdRng as rand::SeedableRng>::from_entropy();
    rand::seq::SliceRandom::shuffle(shuffled.as_mut_slice(), &mut rng);
    shuffled
}

/// The status the sync loop posts after a tick: `Running` on full
/// success, `Warning` when any repository failed.
pub fn tick_status(all_ok: bool, now: u64) -> (r: Status)
    ensures
        r.app_name == AppName::Github,
        r.app_status == (if all_ok {
            AppStatus::Running
        } else {
            AppStatus::Warning
        }),
        r.timestamp == now,
        r.version@ == local_version_number() + code_suffix_spec(local_version_code()),
{
    Status {
        app_name: AppName::Github,
        app_status: if all_ok {
            AppStatus::Running
        } else {
            AppStatus::Warning
        },
        timestamp: now,
        version: Version::get(),
    }
}

} // verus!
