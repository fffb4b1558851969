use ais_common::git::clone_url;
use ais_common::git::is_safe_directory_error;
use ais_common::git::pull_made_changes;
use ais_common::git::remote_ahead;
use ais_common::git::tracking_track_commands;
use ais_common::git::GitAction;
use ais_common::git_data::GitAuth;
use ais_common::git_data::GitCredentials;
use ais_common::git_data::strip_newlines;
use ais_common::github::decide_pull;
use ais_common::github::existing_repo_plan;
use ais_common::github::finalize_plan;
use ais_common::github::generate_git_project_path;
use ais_common::github::new_repo_plan;
use ais_common::github::pull_action;
use ais_common::github::repo_service_id;
use ais_common::github::tick_order;
use ais_common::github::tick_status;
use ais_common::github::PullDecision;
use ais_common::github::PullResult;
use ais_common::common::AppName;
use ais_common::common::AppStatus;
use ais_common::systemd::should_restart;

fn auth(user: &str, repo: &str, branch: &str) -> GitAuth {
    GitAuth {
        user: user.to_string(),
        repo: repo.to_string(),
        branch: branch.to_string(),
        token: "plain-token-string".to_string(),
    }
}

#[test]
fn pull_change_detection() {
    // The up-to-date notice means no change; anything else is a change.
    assert!(!pull_made_changes("Already up to date.\n"));
    assert!(!pull_made_changes("Already up to date."));
    assert!(pull_made_changes("Updating 1a2b3c..4d5e6f\nFast-forward\n"));
    assert!(pull_made_changes(""));
}

#[test]
fn pull_noop_issues_no_restart() {
    let changed = pull_made_changes("Already up to date.\n");
    assert!(!should_restart(changed, true));
    // any other output restarts exactly when the unit exists
    let changed2 = pull_made_changes("Fast-forward\n");
    assert!(should_restart(changed2, true));
    assert!(!should_restart(changed2, false));
}

#[test]
fn pull_decisions() {
    assert_eq!(
        decide_pull(&PullResult::Output("Already up to date.\n".to_string()), 0),
        PullDecision::Unchanged
    );
    assert_eq!(
        decide_pull(&PullResult::Output("Fast-forward\n".to_string()), 0),
        PullDecision::Changed
    );
    assert_eq!(decide_pull(&PullResult::NoOutput, 0), PullDecision::Unchanged);
    assert_eq!(
        decide_pull(&PullResult::CommandError { general: true, message: "hiccup".to_string() }, 0),
        PullDecision::Changed
    );
    let safe = PullResult::CommandError {
        general: false,
        message: "fatal: detected dubious ownership, use safe directory".to_string(),
    };
    // one retry after a safe-directory failure, and only one
    assert_eq!(decide_pull(&safe, 0), PullDecision::RetryAfterSafeMark);
    assert_eq!(decide_pull(&safe, 1), PullDecision::Fail);
    let other = PullResult::CommandError { general: false, message: "network down".to_string() };
    assert_eq!(decide_pull(&other, 0), PullDecision::Fail);
}

#[test]
fn safe_directory_errors_are_recognized() {
    assert!(is_safe_directory_error("fatal: unsafe repository, add safe directory"));
    assert!(!is_safe_directory_error("fatal: repository not found"));
}

#[test]
fn remote_ahead_compares_hashes() {
    assert!(!remote_ahead("abc123", "abc123"));
    assert!(remote_ahead("abc123", "def456"));
}

#[test]
fn clone_urls() {
    assert_eq!(clone_url("artisan", "dummy"), "https://github.com/artisan/dummy.git");
}

#[test]
fn git_command_plans() {
    let pull = GitAction::Pull {
        target_branch: "main".to_string(),
        destination: "/var/www/ais/ab12cd34".to_string(),
    };
    let plan = pull.command_plan();
    assert_eq!(plan.len(), 2);
    assert_eq!(plan[0], vec!["-C", "/var/www/ais/ab12cd34", "pull"]);
    assert_eq!(plan[1], vec!["-C", "/var/www/ais/ab12cd34", "switch", "main"]);

    let clone = GitAction::Clone {
        repo_name: "dummy".to_string(),
        repo_owner: "artisan".to_string(),
        destination: "/tmp/tree".to_string(),
    };
    let cplan = clone.command_plan();
    assert_eq!(cplan.len(), 1);
    assert_eq!(cplan[0], vec!["clone", "https://github.com/artisan/dummy.git", "/tmp/tree"]);

    let safe = GitAction::SetSafe("/tmp/tree".to_string());
    assert_eq!(
        safe.command_plan(),
        vec![vec!["config", "--global", "--add", "safe.directory", "/tmp/tree"]]
    );

    let ahead = GitAction::CheckRemoteAhead("/tmp/tree".to_string());
    let aplan = ahead.command_plan();
    assert_eq!(aplan.len(), 3);
    assert_eq!(aplan[1], vec!["-C", "/tmp/tree", "rev-parse", "@"]);
    assert_eq!(aplan[2], vec!["-C", "/tmp/tree", "rev-parse", "@{u}"]);
}

#[test]
fn tracking_commands_from_branch_listing() {
    let listing = "  origin/HEAD -> origin/main\n  origin/main\n  origin/feature";
    let cmds = tracking_track_commands("/tmp/tree", listing);
    // the arrow alias line and the default branch clean away
    assert_eq!(cmds.len(), 1);
    assert_eq!(cmds[0], vec!["-C", "/tmp/tree", "branch", "--track", "feature", "  origin/feature"]);
}

#[test]
fn service_ids_are_short_hex() {
    let a = auth("user", "repo", "main");
    let sid = repo_service_id(&a);
    assert_eq!(sid.len(), 8);
    assert!(sid.chars().all(|c| c.is_ascii_hexdigit() && !c.is_ascii_uppercase()));
    // the id is a digest, not a prefix of the identity text
    assert_ne!(sid, "user-rep");
    let path = generate_git_project_path(&a);
    assert_eq!(path, format!("/var/www/ais/{}", sid));
    // distinct identities get distinct trees
    let b = auth("user", "repo", "dev");
    assert_ne!(generate_git_project_path(&b), path);
}

#[test]
fn repo_plans() {
    let a = auth("user", "repo", "main");
    let path = "/var/www/ais/ab12cd34";

    let fresh = new_repo_plan(&a, path);
    assert_eq!(fresh.len(), 3);
    assert!(matches!(&fresh[0], GitAction::Clone { repo_name, repo_owner, destination }
        if repo_name == "repo" && repo_owner == "user" && destination == path));
    assert!(matches!(&fresh[1], GitAction::SetSafe(d) if d == path));
    assert!(matches!(&fresh[2], GitAction::Fetch { destination } if destination == path));

    let existing = existing_repo_plan(path);
    assert_eq!(existing.len(), 2);
    assert!(matches!(&existing[0], GitAction::SetSafe(d) if d == path));
    assert!(matches!(&existing[1], GitAction::Fetch { destination } if destination == path));

    let pull = pull_action(&a, path);
    assert!(matches!(&pull, GitAction::Pull { target_branch, destination }
        if target_branch == "main" && destination == path));

    let done = finalize_plan(&a, path);
    assert_eq!(done.len(), 2);
    assert!(matches!(&done[0], GitAction::SetTrack(d) if d == path));
    assert!(matches!(&done[1], GitAction::Switch { branch, destination }
        if branch == "main" && destination == path));
}

#[test]
fn tick_order_keeps_every_repo() {
    let items = vec![auth("a", "r1", "main"), auth("b", "r2", "main"), auth("c", "r3", "dev")];
    let shuffled = tick_order(items.clone());
    assert_eq!(shuffled.len(), 3);
    for it in &items {
        assert!(shuffled.iter().any(|s| s == it));
    }
}

#[test]
fn tick_statuses() {
    let ok = tick_status(true, 4242);
    assert_eq!(ok.app_name, AppName::Github);
    assert_eq!(ok.app_status, AppStatus::Running);
    assert_eq!(ok.timestamp, 4242);
    let bad = tick_status(false, 4243);
    assert_eq!(bad.app_status, AppStatus::Warning);
}

#[test]
fn credentials_list_operations() {
    let mut creds = GitCredentials { auth_items: vec![] };
    creds.add_auth(auth("a", "r1", "main"));
    creds.add_auth(auth("b", "r2", "dev"));
    assert_eq!(creds.auth_items.len(), 2);
    let items = creds.clone().to_vec();
    assert_eq!(items.len(), 2);
    assert_eq!(items[1].repo, "r2");
    let rebuilt = GitCredentials::from_items(items);
    assert_eq!(rebuilt.auth_items[0].user, "a");
}

#[test]
fn credentials_plaintext_loses_newlines() {
    assert_eq!(strip_newlines("{\"auth_items\":\n[]}\n"), "{\"auth_items\":[]}");
    assert_eq!(strip_newlines("no newlines"), "no newlines");
}
