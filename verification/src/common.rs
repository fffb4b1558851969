//! Shared data model of the agents: application identities, statuses,
//! and the shapes of the messages that cross the local socket.

use vstd::prelude::*;

verus! {

/// What a query asks of the aggregator.
#[derive(Debug, Clone, Copy, PartialEq, Eq, Structural)]
pub enum QueryType {
    Status,
    AllStatuses,
}

/// The kind of a framed message.
#[derive(Debug, Clone, Copy, PartialEq, Eq, Structural)]
pub enum MessageType {
    StatusUpdate,
    Acknowledgment,
    Query,
}

/// Status an application reports or is assigned.
#[derive(Debug, Clone, Copy, PartialEq, Eq, Structural)]
pub enum AppStatus {
    Running,
    Stopped,
    TimedOut,
    Warning,
}

/// The closed set of local agents.
#[derive(Debug, Clone, Copy, PartialEq, Eq, Hash, PartialOrd, Ord, Structural)]
pub enum AppName {
    Github,
    Directive,
    Apache,
    Systemd,
    Security,
}

/// Symbolic name of an agent, as it is serialized and printed.
pub open spec fn app_label_spec(a: AppName) -> Seq<char> {
    match a {
        AppName::Github => "Github"@,
        AppName::Directive => "Directive"@,
        AppName::Apache => "Apache"@,
        AppName::Systemd => "Systemd"@,
        AppName::Security => "Security"@,
    }
}

/// Symbolic name of a status, as it is serialized and printed.
pub open spec fn status_label_spec(s: AppStatus) -> Seq<char> {
    match s {
        AppStatus::Running => "Running"@,
        AppStatus::Stopped => "Stopped"@,
        AppStatus::TimedOut => "TimedOut"@,
        AppStatus::Warning => "Warning"@,
    }
}

impl AppName {
    /// The agent's symbolic name.
    pub fn label(&self) -> (r: &'static str)
        ensures
            r@ == app_label_spec(*self),
    {
        match self {
            AppName::Github => "Github",
            AppName::Directive => "Directive",
            AppName::Apache => "Apache",
            AppName::Systemd => "Systemd",
            AppName::Security => "Security",
        }
    }
}

impl AppStatus {
    /// The status's symbolic name.
    pub fn label(&self) -> (r: &'static str)
        ensures
            r@ == status_label_spec(*self),
    {
        match self {
            AppStatus::Running => "Running",
            AppStatus::Stopped => "Stopped",
            AppStatus::TimedOut => "TimedOut",
            AppStatus::Warning => "Warning",
        }
    }
}

/// The status record of one application at one time.
#[derive(Debug, PartialEq, Eq)]
pub struct Status {
    pub app_name: AppName,
    pub app_status: AppStatus,
    pub timestamp: u64,
    pub version: String,
}

impl Clone for Status {
    fn clone(&self) -> (r: Status)
        ensures
            r == *self,
    {
        Status {
            app_name: self.app_name,
            app_status: self.app_status,
            timestamp: self.timestamp,
            version: self.version.clone(),
        }
    }
}

/// Clones an optional status record, keeping its value.
pub fn clone_opt_status(o: &Option<Status>) -> (r: Option<Status>)
    ensures
        r == *o,
{
    match o {
        None => None,
        Some(s) => Some(s.clone()),
    }
}

/// A query to the aggregator: one application's status, or all of them.
#[derive(Debug, Clone, Copy)]
pub struct QueryMessage {
    pub query_type: QueryType,
    pub app_name: Option<AppName>,
}

/// The envelope every framed message travels in. The payload is the
/// JSON text of the inner message; the codec neither reads nor writes
/// it beyond framing.
#[derive(Debug)]
pub struct GeneralMessage {
    pub version: String,
    pub msg_type: MessageType,
    pub payload: String,
    pub error: Option<String>,
}

} // verus!
