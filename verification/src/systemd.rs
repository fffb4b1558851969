//! Init-system vocabulary: the watched units, their printed names, the
//! status an agent reads off them, the rendered service unit, and the
//! restart decisions the agents make.

use vstd::prelude::*;

use crate::common::AppStatus;
use crate::directive::{restart_stanza_spec, RestartPolicy};
use crate::strutil::dec_str;
use crate::strutil::u64_to_dec;

verus! {

/// The host services the platform watches or drives.
#[derive(Debug, Clone, Copy, PartialEq, Eq, Hash, Structural)]
pub enum Services {
    PhpProcessor,
    WebServer,
    SshServer,
    Monitor,
    Firewall,
    Locker,
    Database,
    Docker,
}

/// Unit name of a watched service.
pub open spec fn service_unit_spec(s: Services) -> Seq<char> {
    match s {
        Services::PhpProcessor => "php7.4-fpm.service"@,
        Services::WebServer => "apache2.service"@,
        Services::SshServer => "sshd.service"@,
        Services::Monitor => "netdata.service"@,
        Services::Firewall => "ufw.service"@,
        Services::Locker => "dusad.service"@,
        Services::Database => "mysql.service"@,
        Services::Docker => "docker.service"@,
    }
}

impl Services {
    /// The unit name the init system knows this service by.
    pub fn unit_name(&self) -> (r: &'static str)
        ensures
            r@ == service_unit_spec(*self),
    {
        match self {
            Services::PhpProcessor => "php7.4-fpm.service",
            Services::WebServer => "apache2.service",
            Services::SshServer => "sshd.service",
            Services::Monitor => "netdata.service",
            Services::Firewall => "ufw.service",
            Services::Locker => "dusad.service",
            Services::Database => "mysql.service",
            Services::Docker => "docker.service",
        }
    }
}

/// What a probe of a unit reported.
#[derive(Debug, Clone, Copy, PartialEq, Eq, Structural)]
pub enum Status {
    Running,
    Stopped,
    Error,
}

/// Printed form of a probe result.
pub open spec fn status_text_spec(s: Status) -> Seq<char> {
    match s {
        Status::Running => "active"@,
        Status::Stopped => "stopped"@,
        Status::Error => "Error occurred while checking"@,
    }
}

impl Status {
    /// The text a probe result prints as.
    pub fn label(&self) -> (r: &'static str)
        ensures
            r@ == status_text_spec(*self),
    {
        match self {
            Status::Running => "active",
            Status::Stopped => "stopped",
            Status::Error => "Error occurred while checking",
        }
    }
}

/// Memory a unit reported consuming.
#[derive(Debug, PartialEq, Eq)]
pub enum Memory {
    MemoryConsumed(String),
}

impl Memory {
    /// The reported figure, as text.
    pub fn label(&self) -> (r: String)
        ensures
            match *self {
                Memory::MemoryConsumed(ref d) => r@ == d@,
            },
    {
        match self {
            Memory::MemoryConsumed(d) => d.clone(),
        }
    }
}

/// The process count a unit reported: a task count when one was given,
/// a bare pid otherwise.
#[derive(Debug, Clone, Copy, PartialEq, Eq, Structural)]
pub enum SubProcesses {
    Pid(u64),
    Tasks(u64),
}

/// Printed form of a process count.
pub open spec fn subprocesses_text_spec(s: SubProcesses) -> Seq<char> {
    match s {
        SubProcesses::Pid(p) => dec_str(p as nat),
        SubProcesses::Tasks(t) => dec_str(t as nat),
    }
}

impl SubProcesses {
    /// The count, as decimal text.
    pub fn label(&self) -> (r: String)
        ensures
            r@ == subprocesses_text_spec(*self),
    {
        match self {
            SubProcesses::Pid(p) => u64_to_dec(*p),
            SubProcesses::Tasks(t) => u64_to_dec(*t),
        }
    }
}

/// One probed unit: its name, identity, status and resource figures.
#[derive(Debug)]
pub struct ProcessInfo {
    pub service: String,
    pub refered: Services,
    pub status: Status,
    pub memory: Memory,
    pub children: SubProcesses,
    pub timestamp: String,
    pub optional: bool,
}

/// Every probed unit reported `Running`.
pub open spec fn all_running_spec(infos: Seq<ProcessInfo>) -> bool {
    forall|i: int| 0 <= i < infos.len() ==> (#[trigger] infos[i]).status == Status::Running
}

/// The status the host-services agent posts: `Running` when every
/// watched unit is active, `Warning` otherwise.
pub fn summarize_services(infos: &Vec<ProcessInfo>) -> (r: AppStatus)
    ensures
        r == AppStatus::Running <==> all_running_spec(infos@),
        r == AppStatus::Running || r == AppStatus::Warning,
{
    let mut i: usize = 0;
    while i < infos.len()
        invariant
            0 <= i <= infos@.len(),
            forall|j: int| 0 <= j < i ==> (#[trigger] infos@[j]).status == Status::Running,
        decreases infos@.len() - i,
    {
        let running = match infos[i].status {
            Status::Running => true,
            _ => false,
        };
        if !running {
            assert(infos@[i as int].status != Status::Running);
            return AppStatus::Warning;
        }
        i = i + 1;
    }
    AppStatus::Running
}

/// The `true`/`false` word of a flag.
pub open spec fn bool_text_spec(b: bool) -> Seq<char> {
    if b {
        "true"@
    } else {
        "false"@
    }
}

/// The service unit rendered for a manifest: start commands, the
/// permissions flag, the running user and group, the working directory
/// and the restart stanza.
pub open spec fn service_file_spec(
    exec_start: Seq<char>,
    exec_pre: Option<Seq<char>>,
    description: Seq<char>,
    working_dir: Seq<char>,
    user: Seq<char>,
    group: Seq<char>,
    policy: RestartPolicy,
    permissions_start_only: bool,
) -> Seq<char> {
    "[Unit]\nDescription="@ + description + "\nAfter=network.target\n\n[Service]\nPermissionsStartOnly="@
        + bool_text_spec(permissions_start_only) + "\nExecStart="@ + exec_start + "\n"@ + (match exec_pre {
        Some(pre) => "ExecStartPre="@ + pre + "\n"@,
        None => ""@,
    }) + restart_stanza_spec(policy) + "\nUser="@ + user + "\nGroup="@ + group
        + "\nEnvironment=PATH=/usr/bin:/usr/local/bin\nWorkingDirectory="@ + working_dir
        + "\n\n[Install]\nWantedBy=multi-user.target\n"@
}

/// Renders the service unit for a manifest's start commands.
pub fn create_service_file(
    exec_start: &str,
    exec_pre: Option<&str>,
    description: &str,
    working_dir: &str,
    user: &str,
    group: &str,
    policy: &RestartPolicy,
    permissions_start_only: bool,
) -> (r: String)
    ensures
        r@ == service_file_spec(
            exec_start@,
            match exec_pre {
                Some(p) => Some(p@),
                None => None,
            },
            description@,
            working_dir@,
            user@,
            group@,
            *policy,
            permissions_start_only,
        ),
{
    let mut out = String::from_str("[Unit]\nDescription=");
    out.append(description);
    out.append("\nAfter=network.target\n\n[Service]\nPermissionsStartOnly=");
    if permissions_start_only {
        out.append("true");
    } else {
        out.append("false");
    }
    out.append("\nExecStart=");
    out.append(exec_start);
    out.append("\n");
    let ghost head = out@;
    match exec_pre {
        Some(pre) => {
            out.append("ExecStartPre=");
            out.append(pre);
            out.append("\n");
            proof {
                assert(out@ =~= head + ("ExecStartPre="@ + pre@ + "\n"@));
            }
        },
        None => {
            proof {
                reveal_strlit("");
                assert(out@ =~= head + ""@);
            }
        },
    }
    let stanza = policy.stanza();
    out.append(stanza.as_str());
    out.append("\nUser=");
    out.append(user);
    out.append("\nGroup=");
    out.append(group);
    out.append("\nEnvironment=PATH=/usr/bin:/usr/local/bin\nWorkingDirectory=");
    out.append(working_dir);
    out.append("\n\n[Install]\nWantedBy=multi-user.target\n");
    out
}

/// The restart decision of the sync loop: a unit is restarted exactly
/// when new commits were applied and the unit exists.
pub fn should_restart(changed: bool, unit_exists: bool) -> (r: bool)
    ensures
        r == (changed && unit_exists),
{
    changed && unit_exists
}

} // verus!
