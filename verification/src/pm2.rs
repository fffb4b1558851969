//! Node.js deployments under the process manager: the project record,
//! and the exact command lines that start, stop, restart and rebuild
//! one. Running the commands is the caller's work.

use vstd::prelude::*;

verus! {

/// What kind of Node.js application a project is.
#[derive(Debug, Clone, Copy, PartialEq, Eq, Structural)]
pub enum AppType {
    NextJs,
    React,
    VueJs,
    Other,
}

/// A Node.js project under the process manager.
#[derive(Debug)]
pub struct NodeProject {
    pub name: String,
    pub path: String,
    pub app_type: AppType,
}

impl NodeProject {
    /// Builds a project record.
    pub fn new(name: &str, path: &str, app_type: AppType) -> (r: NodeProject)
        ensures
            r.name@ == name@,
            r.path@ == path@,
            r.app_type == app_type,
    {
        NodeProject { name: name.to_owned(), path: path.to_owned(), app_type }
    }
}

/// The command that starts a project under the process manager.
pub open spec fn start_cmd_spec(name: Seq<char>) -> Seq<Seq<char>> {
    seq!["pm2"@, "start"@, "npm"@, "--name"@, name, "--"@, "run"@, "start"@]
}

/// The command that restarts a project.
pub open spec fn restart_cmd_spec(name: Seq<char>) -> Seq<Seq<char>> {
    seq!["pm2"@, "restart"@, name]
}

/// The command that stops a project.
pub open spec fn stop_cmd_spec(name: Seq<char>) -> Seq<Seq<char>> {
    seq!["pm2"@, "stop"@, name]
}

/// The install command every rebuild opens with.
pub open spec fn install_cmd_spec() -> Seq<Seq<char>> {
    seq!["npm"@, "install"@]
}

/// The build command of the frameworks that need one.
pub open spec fn build_cmd_spec() -> Seq<Seq<char>> {
    seq!["npm"@, "run"@, "build"@]
}

/// The command sequence that rebuilds and restarts a project: install
/// dependencies, build where the framework needs it, then start or
/// restart under the process manager.
pub open spec fn rebuild_plan_spec(t: AppType, name: Seq<char>) -> Seq<Seq<Seq<char>>> {
    match t {
        AppType::NextJs => seq![install_cmd_spec(), build_cmd_spec(), start_cmd_spec(name)],
        AppType::React => seq![install_cmd_spec(), build_cmd_spec(), restart_cmd_spec(name)],
        AppType::VueJs => seq![install_cmd_spec(), build_cmd_spec(), restart_cmd_spec(name)],
        AppType::Other => seq![install_cmd_spec(), restart_cmd_spec(name)],
    }
}

/// Planner of process-manager deployments.
pub struct Pm2Manager;

fn push_cmd(out: &mut Vec<Vec<String>>, cmd: Vec<String>)
    ensures
        final(out).deep_view() == old(out).deep_view().push(cmd.deep_view()),
{
    let ghost before = out.deep_view();
    out.push(cmd);
    proof {
        assert(out.deep_view() =~= before.push(out@[out@.len() - 1].deep_view()));
    }
}

impl Pm2Manager {
    /// The command that starts a project.
    pub fn start_command(project: &NodeProject) -> (r: Vec<String>)
        ensures
            r.deep_view() == start_cmd_spec(project.name@),
    {
        let mut cmd: Vec<String> = Vec::new();
        cmd.push(String::from_str("pm2"));
        cmd.push(String::from_str("start"));
        cmd.push(String::from_str("npm"));
        cmd.push(String::from_str("--name"));
        cmd.push(project.name.clone());
        cmd.push(String::from_str("--"));
        cmd.push(String::from_str("run"));
        cmd.push(String::from_str("start"));
        proof {
            assert(cmd.deep_view() =~= start_cmd_spec(project.name@));
        }
        cmd
    }

    /// The command that restarts a project.
    pub fn restart_command(project: &NodeProject) -> (r: Vec<String>)
        ensures
            r.deep_view() == restart_cmd_spec(project.name@),
    {
        let mut cmd: Vec<String> = Vec::new();
        cmd.push(String::from_str("pm2"));
        cmd.push(String::from_str("restart"));
        cmd.push(project.name.clone());
        proof {
            assert(cmd.deep_view() =~= restart_cmd_spec(project.name@));
        }
        cmd
    }

    /// The command that stops a project.
    pub fn stop_command(project: &NodeProject) -> (r: Vec<String>)
        ensures
            r.deep_view() == stop_cmd_spec(project.name@),
    {
        let mut cmd: Vec<String> = Vec::new();
        cmd.push(String::from_str("pm2"));
        cmd.push(String::from_str("stop"));
        cmd.push(project.name.clone());
        proof {
            assert(cmd.deep_view() =~= stop_cmd_spec(project.name@));
        }
        cmd
    }

    /// The command sequence that rebuilds and restarts a project,
    /// chosen by its framework.
    pub fn rebuild_plan(project: &NodeProject) -> (r: Vec<Vec<String>>)
        ensures
            r.deep_view() == rebuild_plan_spec(project.app_type, project.name@),
    {
        let mut out: Vec<Vec<String>> = Vec::new();
        proof {
            assert(out.deep_view() =~= Seq::<Seq<Seq<char>>>::empty());
        }
        let mut install: Vec<String> = Vec::new();
        install.push(String::from_str("npm"));
        install.push(String::from_str("install"));
        proof {
            assert(install.deep_view() =~= install_cmd_spec());
        }
        push_cmd(&mut out, install);
        let needs_build = match project.app_type {
            AppType::NextJs => true,
            AppType::React => true,
            AppType::VueJs => true,
            AppType::Other => false,
        };
        if needs_build {
            let mut build: Vec<String> = Vec::new();
            build.push(String::from_str("npm"));
            build.push(String::from_str("run"));
            build.push(String::from_str("build"));
            proof {
                assert(build.deep_view() =~= build_cmd_spec());
            }
            push_cmd(&mut out, build);
        }
        let launch = match project.app_type {
            AppType::NextJs => Self::start_command(project),
            _ => Self::restart_command(project),
        };
        push_cmd(&mut out, launch);
        proof {
            assert(out.deep_view() =~= rebuild_plan_spec(project.app_type, project.name@));
        }
        out
    }
}

} // verus!
