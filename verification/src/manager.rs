//! The management gateway's request vocabulary, its routing decisions,
//! and the redaction rule that keeps repository tokens out of every
//! response.

use vstd::prelude::*;

use crate::aggregator::{AggregatorState, QueryResponse};
use crate::common::MessageType;
use crate::git_data::GitAuth;

verus! {

/// A request to the management endpoint.
#[derive(Debug)]
pub struct NetworkRequest {
    pub request_type: NetworkRequestType,
    pub data: Option<String>,
}

/// The request kinds the gateway answers.
#[allow(non_camel_case_types)]
#[derive(Debug, Clone, Copy, PartialEq, Eq, Structural)]
pub enum NetworkRequestType {
    QUERYSYSTEM,
    QUERYSTATUS,
    QUERYGITREPO,
    UPDATEGITREPO,
}

/// The gateway's answer: a status word and an optional JSON-encoded
/// body.
#[derive(Debug, PartialEq, Eq)]
pub struct NetworkResponse {
    pub status: String,
    pub data: Option<String>,
}

/// A successful answer, with its body when one is owed.
pub fn success_response(data: Option<String>) -> (r: NetworkResponse)
    ensures
        r.status@ == "Success"@,
        r.data == data,
{
    NetworkResponse { status: String::from_str("Success"), data }
}

/// A failed answer carrying its reason.
pub fn error_response(message: &str) -> (r: NetworkResponse)
    ensures
        r.status@ == "Error"@,
        match r.data {
            Some(d) => d@ == message@,
            None => false,
        },
{
    NetworkResponse { status: String::from_str("Error"), data: Some(message.to_owned()) }
}

/// What a request obliges the gateway to consult or do.
pub enum GatewayTask {
    /// Gather host statistics.
    FetchSystem,
    /// Ask the aggregator for every status.
    FetchStatuses,
    /// Read the credentials file and answer with redacted entries.
    FetchGitRepos,
    /// Overwrite the credentials file with this JSON-encoded list, then
    /// restart the sync loop's unit if it exists.
    UpdateGitRepos(String),
    /// An update arrived without data: answer an error.
    RejectNoData,
}

/// Routes a request to the task it demands. An update without data is
/// rejected.
pub fn plan_request(request: NetworkRequest) -> (r: GatewayTask)
    ensures
        match request.request_type {
            NetworkRequestType::QUERYSYSTEM => r is FetchSystem,
            NetworkRequestType::QUERYSTATUS => r is FetchStatuses,
            NetworkRequestType::QUERYGITREPO => r is FetchGitRepos,
            NetworkRequestType::UPDATEGITREPO => match request.data {
                Some(d) => match r {
                    GatewayTask::UpdateGitRepos(payload) => payload == d,
                    _ => false,
                },
                None => r is RejectNoData,
            },
        },
{
    match request.request_type {
        NetworkRequestType::QUERYSYSTEM => GatewayTask::FetchSystem,
        NetworkRequestType::QUERYSTATUS => GatewayTask::FetchStatuses,
        NetworkRequestType::QUERYGITREPO => GatewayTask::FetchGitRepos,
        NetworkRequestType::UPDATEGITREPO => match request.data {
            Some(d) => GatewayTask::UpdateGitRepos(d),
            None => GatewayTask::RejectNoData,
        },
    }
}

/// The redaction mask that replaces every token.
pub open spec fn redacted_token() -> Seq<char> {
    "******"@
}

/// One credentials record with its token masked.
pub fn redact_auth(a: &GitAuth) -> (r: GitAuth)
    ensures
        r.user@ == a.user@,
        r.repo@ == a.repo@,
        r.branch@ == a.branch@,
        r.token@ == redacted_token(),
{
    GitAuth {
        user: a.user.clone(),
        repo: a.repo.clone(),
        branch: a.branch.clone(),
        token: String::from_str("******"),
    }
}

/// Masks the token of every credentials record: what the gateway hands
/// out never holds a plaintext token, and the mask stands in the token
/// field of every entry.
pub fn redact_auth_items(items: &Vec<GitAuth>) -> (r: Vec<GitAuth>)
    ensures
        r@.len() == items@.len(),
        forall|i: int| 0 <= i < r@.len() ==> {
            &&& (#[trigger] r@[i]).user@ == items@[i].user@
            &&& r@[i].repo@ == items@[i].repo@
            &&& r@[i].branch@ == items@[i].branch@
            &&& r@[i].token@ == redacted_token()
        },
{
    let mut out: Vec<GitAuth> = Vec::new();
    let mut i: usize = 0;
    while i < items.len()
        invariant
            0 <= i <= items@.len(),
            out@.len() == i,
            forall|j: int| 0 <= j < i ==> {
                &&& (#[trigger] out@[j]).user@ == items@[j].user@
                &&& out@[j].repo@ == items@[j].repo@
                &&& out@[j].branch@ == items@[j].branch@
                &&& out@[j].token@ == redacted_token()
            },
        decreases items@.len() - i,
    {
        let masked = redact_auth(&items[i]);
        out.push(masked);
        i = i + 1;
    }
    out
}

/// Why an aggregator consultation failed.
#[derive(Debug, Clone, Copy, PartialEq, Eq, Structural)]
pub enum GatewayError {
    /// The aggregator answered with something other than a query reply.
    UnexpectedMessage,
    /// The reply carried no statuses.
    NoStatuses,
}

/// Accepts the aggregator's reply to an all-statuses query: the message
/// must be a query reply and must carry the snapshot.
pub fn accept_aggregator_reply(msg_type: MessageType, response: QueryResponse) -> (r: Result<
    AggregatorState,
    GatewayError,
>)
    ensures
        match r {
            Ok(state) => msg_type == MessageType::Query && response.all_statuses == Some(state),
            Err(e) => {
                ||| (msg_type != MessageType::Query && e == GatewayError::UnexpectedMessage)
                ||| (msg_type == MessageType::Query && response.all_statuses is None && e
                    == GatewayError::NoStatuses)
            },
        },
{
    match msg_type {
        MessageType::Query => match response.all_statuses {
            Some(state) => Ok(state),
            None => Err(GatewayError::NoStatuses),
        },
        _ => Err(GatewayError::UnexpectedMessage),
    }
}

} // verus!
