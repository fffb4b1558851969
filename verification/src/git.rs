//! Source-control actions: the exact command lines each action runs,
//! and the decisions read off their output. Spawning the commands is
//! the driver's work; every argument and every decision is fixed here.

use vstd::prelude::*;

use crate::strutil::{
    contains_seq, replace_all, replace_seq, split_char, split_seq, str_contains, trim_ascii,
    trim_spec,
};

verus! {

/// An action against a working tree.
#[derive(Debug)]
pub enum GitAction {
    Clone { repo_name: String, repo_owner: String, destination: String },
    Pull { target_branch: String, destination: String },
    Push { directory: String },
    Stage { directory: String, files: Vec<String> },
    Commit { directory: String, message: String },
    CheckRemoteAhead(String),
    Switch { branch: String, destination: String },
    SetSafe(String),
    SetTrack(String),
    Branch(String),
    Fetch { destination: String },
}

/// The clone URL of a repository.
pub open spec fn clone_url_spec(owner: Seq<char>, name: Seq<char>) -> Seq<char> {
    "https://github.com/"@ + owner + "/"@ + name + ".git"@
}

/// Builds the clone URL of a repository.
pub fn clone_url(repo_owner: &str, repo_name: &str) -> (r: String)
    ensures
        r@ == clone_url_spec(repo_owner@, repo_name@),
{
    let mut out = String::from_str("https://github.com/");
    out.append(repo_owner);
    out.append("/");
    out.append(repo_name);
    out.append(".git");
    out
}

/// The command lines an action runs, in order. Interactive actions
/// (`CheckRemoteAhead`, `SetTrack`) list only their opening commands;
/// what follows depends on output and is decided by
/// [`remote_ahead`] and [`tracking_track_commands`].
pub open spec fn git_plan_spec(a: GitAction) -> Seq<Seq<Seq<char>>> {
    match a {
        GitAction::Clone { repo_name, repo_owner, destination } => seq![
            seq!["clone"@, clone_url_spec(repo_owner@, repo_name@), destination@],
        ],
        GitAction::Pull { target_branch, destination } => seq![
            seq!["-C"@, destination@, "pull"@],
            seq!["-C"@, destination@, "switch"@, target_branch@],
        ],
        GitAction::Push { directory } => seq![seq!["-C"@, directory@, "push"@]],
        GitAction::Stage { directory, files } => seq![
            seq!["-C"@, directory@, "stage"@, "--all"@] + files.deep_view(),
        ],
        GitAction::Commit { directory, message } => seq![
            seq!["-C"@, directory@, "commit"@, "-m"@, message@],
        ],
        GitAction::CheckRemoteAhead(directory) => seq![
            seq!["-C"@, directory@, "fetch"@],
            seq!["-C"@, directory@, "rev-parse"@, "@"@],
            seq!["-C"@, directory@, "rev-parse"@, "@{u}"@],
        ],
        GitAction::Switch { branch, destination } => seq![
            seq!["-C"@, destination@, "switch"@, branch@],
        ],
        GitAction::SetSafe(directory) => seq![
            seq!["config"@, "--global"@, "--add"@, "safe.directory"@, directory@],
        ],
        GitAction::SetTrack(directory) => seq![
            seq!["-C"@, directory@, "fetch"@],
            seq!["-C"@, directory@, "branch"@, "-r"@],
        ],
        GitAction::Branch(directory) => seq![seq!["-C"@, directory@, "branch"@, "-r"@]],
        GitAction::Fetch { destination } => seq![seq!["-C"@, destination@, "fetch"@]],
    }
}

fn push_str_vec(out: &mut Vec<Vec<String>>, cmd: Vec<String>)
    ensures
        final(out).deep_view() == old(out).deep_view().push(cmd.deep_view()),
{
    let ghost before = out.deep_view();
    out.push(cmd);
    proof {
        assert(out.deep_view() =~= before.push(out@[out@.len() - 1].deep_view()));
    }
}

impl GitAction {
    /// The command lines this action runs, each a list of arguments to
    /// the source-control tool.
    pub fn command_plan(&self) -> (r: Vec<Vec<String>>)
        ensures
            r.deep_view() == git_plan_spec(*self),
    {
        let mut out: Vec<Vec<String>> = Vec::new();
        proof {
            assert(out.deep_view() =~= Seq::<Seq<Seq<char>>>::empty());
        }
        match self {
            GitAction::Clone { repo_name, repo_owner, destination } => {
                let mut cmd: Vec<String> = Vec::new();
                cmd.push(String::from_str("clone"));
                cmd.push(clone_url(repo_owner.as_str(), repo_name.as_str()));
                cmd.push(destination.clone());
                proof {
                    assert(cmd.deep_view() =~= seq![
                        "clone"@,
                        clone_url_spec(repo_owner@, repo_name@),
                        destination@,
                    ]);
                }
                push_str_vec(&mut out, cmd);
            },
            GitAction::Pull { target_branch, destination } => {
                let mut cmd: Vec<String> = Vec::new();
                cmd.push(String::from_str("-C"));
                cmd.push(destination.clone());
                cmd.push(String::from_str("pull"));
                proof {
                    assert(cmd.deep_view() =~= seq!["-C"@, destination@, "pull"@]);
                }
                push_str_vec(&mut out, cmd);
                let mut cmd2: Vec<String> = Vec::new();
                cmd2.push(String::from_str("-C"));
                cmd2.push(destination.clone());
                cmd2.push(String::from_str("switch"));
                cmd2.push(target_branch.clone());
                proof {
                    assert(cmd2.deep_view() =~= seq![
                        "-C"@,
                        destination@,
                        "switch"@,
                        target_branch@,
                    ]);
                }
                push_str_vec(&mut out, cmd2);
            },
            GitAction::Push { directory } => {
                let mut cmd: Vec<String> = Vec::new();
                cmd.push(String::from_str("-C"));
                cmd.push(directory.clone());
                cmd.push(String::from_str("push"));
                proof {
                    assert(cmd.deep_view() =~= seq!["-C"@, directory@, "push"@]);
                }
                push_str_vec(&mut out, cmd);
            },
            GitAction::Stage { directory, files } => {
                let mut cmd: Vec<String> = Vec::new();
                cmd.push(String::from_str("-C"));
                cmd.push(directory.clone());
                cmd.push(String::from_str("stage"));
                cmd.push(String::from_str("--all"));
                proof {
                    assert(cmd.deep_view() =~= seq!["-C"@, directory@, "stage"@, "--all"@]);
                }
                let mut i: usize = 0;
                while i < files.len()
                    invariant
                        0 <= i <= files@.len(),
                        cmd.deep_view() == seq!["-C"@, directory@, "stage"@, "--all"@]
                            + files.deep_view().take(i as int),
                    decreases files@.len() - i,
                {
                    let ghost before = cmd.deep_view();
                    cmd.push(files[i].clone());
                    proof {
                        assert(cmd.deep_view() =~= before.push(files.deep_view()[i as int]));
                        assert(seq!["-C"@, directory@, "stage"@, "--all"@] + files.deep_view().take(
                            i as int + 1,
                        ) =~= before.push(files.deep_view()[i as int]));
                    }
                    i = i + 1;
                }
                proof {
                    assert(files.deep_view().take(files@.len() as int) =~= files.deep_view());
                }
                push_str_vec(&mut out, cmd);
            },
            GitAction::Commit { directory, message } => {
                let mut cmd: Vec<String> = Vec::new();
                cmd.push(String::from_str("-C"));
                cmd.push(directory.clone());
                cmd.push(String::from_str("commit"));
                cmd.push(String::from_str("-m"));
                cmd.push(message.clone());
                proof {
                    assert(cmd.deep_view() =~= seq!["-C"@, directory@, "commit"@, "-m"@, message@]);
                }
                push_str_vec(&mut out, cmd);
            },
            GitAction::CheckRemoteAhead(directory) => {
                let mut cmd: Vec<String> = Vec::new();
                cmd.push(String::from_str("-C"));
                cmd.push(directory.clone());
                cmd.push(String::from_str("fetch"));
                proof {
                    assert(cmd.deep_view() =~= seq!["-C"@, directory@, "fetch"@]);
                }
                push_str_vec(&mut out, cmd);
                let mut cmd2: Vec<String> = Vec::new();
                cmd2.push(String::from_str("-C"));
                cmd2.push(directory.clone());
                cmd2.push(String::from_str("rev-parse"));
                cmd2.push(String::from_str("@"));
                proof {
                    assert(cmd2.deep_view() =~= seq!["-C"@, directory@, "rev-parse"@, "@"@]);
                }
                push_str_vec(&mut out, cmd2);
                let mut cmd3: Vec<String> = Vec::new();
                cmd3.push(String::from_str("-C"));
                cmd3.push(directory.clone());
                cmd3.push(String::from_str("rev-parse"));
                cmd3.push(String::from_str("@{u}"));
                proof {
                    assert(cmd3.deep_view() =~= seq!["-C"@, directory@, "rev-parse"@, "@{u}"@]);
                }
                push_str_vec(&mut out, cmd3);
            },
            GitAction::Switch { branch, destination } => {
                let mut cmd: Vec<String> = Vec::new();
                cmd.push(String::from_str("-C"));
                cmd.push(destination.clone());
                cmd.push(String::from_str("switch"));
                cmd.push(branch.clone());
                proof {
                    assert(cmd.deep_view() =~= seq!["-C"@, destination@, "switch"@, branch@]);
                }
                push_str_vec(&mut out, cmd);
            },
            GitAction::SetSafe(directory) => {
                let mut cmd: Vec<String> = Vec::new();
                cmd.push(String::from_str("config"));
                cmd.push(String::from_str("--global"));
                cmd.push(String::from_str("--add"));
                cmd.push(String::from_str("safe.directory"));
                cmd.push(directory.clone());
                proof {
                    assert(cmd.deep_view() =~= seq![
                        "config"@,
                        "--global"@,
                        "--add"@,
                        "safe.directory"@,
                        directory@,
                    ]);
                }
                push_str_vec(&mut out, cmd);
            },
            GitAction::SetTrack(directory) => {
                let mut cmd: Vec<String> = Vec::new();
                cmd.push(String::from_str("-C"));
                cmd.push(directory.clone());
                cmd.push(String::from_str("fetch"));
                proof {
                    assert(cmd.deep_view() =~= seq!["-C"@, directory@, "fetch"@]);
                }
                push_str_vec(&mut out, cmd);
                let mut cmd2: Vec<String> = Vec::new();
                cmd2.push(String::from_str("-C"));
                cmd2.push(directory.clone());
                cmd2.push(String::from_str("branch"));
                cmd2.push(String::from_str("-r"));
                proof {
                    assert(cmd2.deep_view() =~= seq!["-C"@, directory@, "branch"@, "-r"@]);
                }
                push_str_vec(&mut out, cmd2);
            },
            GitAction::Branch(directory) => {
                let mut cmd: Vec<String> = Vec::new();
                cmd.push(String::from_str("-C"));
                cmd.push(directory.clone());
                cmd.push(String::from_str("branch"));
                cmd.push(String::from_str("-r"));
                proof {
                    assert(cmd.deep_view() =~= seq!["-C"@, directory@, "branch"@, "-r"@]);
                }
                push_str_vec(&mut out, cmd);
            },
            GitAction::Fetch { destination } => {
                let mut cmd: Vec<String> = Vec::new();
                cmd.push(String::from_str("-C"));
                cmd.push(destination.clone());
                cmd.push(String::from_str("fetch"));
                proof {
                    assert(cmd.deep_view() =~= seq!["-C"@, destination@, "fetch"@]);
                }
                push_str_vec(&mut out, cmd);
            },
        }
        proof {
            assert(out.deep_view() =~= git_plan_spec(*self));
        }
        out
    }
}

/// Whether a pull applied new commits: any output other than the
/// literal up-to-date notice counts as a change.
pub fn pull_made_changes(stdout: &str) -> (r: bool)
    ensures
        r == !contains_seq(stdout@, "Already up to date."@),
{
    !str_contains(stdout, "Already up to date.")
}

/// Whether the remote is ahead: the two revision hashes differ.
pub fn remote_ahead(local_hash: &str, remote_hash: &str) -> (r: bool)
    ensures
        r == (local_hash@ != remote_hash@),
{
    !crate::strutil::str_eq(local_hash, remote_hash)
}

/// Whether a failure names the safe-directory protection.
pub fn is_safe_directory_error(message: &str) -> (r: bool)
    ensures
        r == contains_seq(message@, "safe directory"@),
{
    str_contains(message, "safe directory")
}

/// A remote-branch listing line with terminal escape codes removed.
pub open spec fn clean_remote_spec(l: Seq<char>) -> Seq<char> {
    replace_seq(replace_seq(l, "\u{1b}"@, ""@), "[0m"@, ""@)
}

/// The local branch name a listing line tracks: the cleaned line,
/// trimmed, with the remote prefix and the default branch names
/// removed.
pub open spec fn branch_name_spec(l: Seq<char>) -> Seq<char> {
    replace_seq(
        replace_seq(
            replace_seq(trim_spec(clean_remote_spec(l)), "origin/"@, ""@),
            "main"@,
            ""@,
        ),
        "master"@,
        ""@,
    )
}

/// The tracking commands a branch listing calls for: one per line that
/// names no arrow alias and leaves a non-empty branch name.
pub open spec fn track_cmds_lines(dir: Seq<char>, ls: Seq<Seq<char>>) -> Seq<Seq<Seq<char>>>
    decreases ls.len(),
{
    if ls.len() == 0 {
        Seq::empty()
    } else {
        let rest = track_cmds_lines(dir, ls.drop_last());
        let l = ls.last();
        if contains_seq(l, "->"@) {
            rest
        } else if branch_name_spec(l).len() == 0 {
            rest
        } else {
            rest.push(
                seq!["-C"@, dir, "branch"@, "--track"@, branch_name_spec(l), clean_remote_spec(l)],
            )
        }
    }
}

/// The tracking commands the lines of a branch listing call for.
pub open spec fn track_cmds_spec(dir: Seq<char>, stdout: Seq<char>) -> Seq<Seq<Seq<char>>> {
    track_cmds_lines(dir, split_seq(stdout, '\n'))
}

/// Reads a remote-branch listing and builds the commands that set up a
/// local tracking branch for each remote branch it names. Lines that
/// carry an arrow alias, or whose branch name cleans away to nothing,
/// set up no branch.
pub fn tracking_track_commands(directory: &str, stdout: &str) -> (r: Vec<Vec<String>>)
    ensures
        r.deep_view() == track_cmds_spec(directory@, stdout@),
{
    let parts = split_char(stdout, '\n');
    let ghost pview = parts.deep_view();
    let mut out: Vec<Vec<String>> = Vec::new();
    let mut i: usize = 0;
    proof {
        reveal_strlit("\u{1b}");
        reveal_strlit("[0m");
        reveal_strlit("origin/");
        reveal_strlit("main");
        reveal_strlit("master");
        assert(pview.take(0) =~= Seq::<Seq<char>>::empty());
        assert(out.deep_view() =~= Seq::<Seq<Seq<char>>>::empty());
        assert(track_cmds_lines(directory@, pview.take(0)) =~= Seq::<Seq<Seq<char>>>::empty());
    }
    while i < parts.len()
        invariant
            0 <= i <= parts.len(),
            pview == parts.deep_view(),
            pview.len() == parts.len(),
            out.deep_view() == track_cmds_lines(directory@, pview.take(i as int)),
            "\u{1b}"@.len() > 0,
            "[0m"@.len() > 0,
            "origin/"@.len() > 0,
            "main"@.len() > 0,
            "master"@.len() > 0,
        decreases parts.len() - i,
    {
        proof {
            assert(parts@[i as int]@ == pview[i as int]);
            let t1 = pview.take(i as int + 1);
            assert(t1.drop_last() =~= pview.take(i as int));
            assert(t1.last() == pview[i as int]);
        }
        let line = parts[i].as_str();
        if !str_contains(line, "->") {
            let cleaned_esc = replace_all(line, "\u{1b}", "");
            let cleaned = replace_all(cleaned_esc.as_str(), "[0m", "");
            let trimmed = trim_ascii(cleaned.as_str());
            let no_origin = replace_all(trimmed.as_str(), "origin/", "");
            let no_main = replace_all(no_origin.as_str(), "main", "");
            let branch_name = replace_all(no_main.as_str(), "master", "");
            if branch_name.as_str().unicode_len() > 0 {
                let mut cmd: Vec<String> = Vec::new();
                cmd.push(String::from_str("-C"));
                cmd.push(directory.to_owned());
                cmd.push(String::from_str("branch"));
                cmd.push(String::from_str("--track"));
                cmd.push(branch_name);
                cmd.push(cleaned);
                proof {
                    assert(cmd.deep_view() =~= seq![
                        "-C"@,
                        directory@,
                        "branch"@,
                        "--track"@,
                        branch_name_spec(pview[i as int]),
                        clean_remote_spec(pview[i as int]),
                    ]);
                }
                push_str_vec(&mut out, cmd);
            }
        }
        i = i + 1;
    }
    proof {
        assert(pview.take(parts.len() as int) =~= pview);
    }
    out
}

} // verus!
