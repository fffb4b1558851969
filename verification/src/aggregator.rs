//! The status registry of the aggregator: the single-writer update
//! rules, the query answers, and the timeout sweep. The socket server
//! around these functions only frames bytes and parses JSON; every
//! decision about the registry is made and proved here.

use vstd::prelude::*;

use crate::common::{
    app_label_spec, clone_opt_status, status_label_spec, AppName, AppStatus, QueryMessage,
    QueryType, Status,
};
use crate::mailing::Email;
use crate::version::{
    code_suffix_spec, compatible_spec, from_string_spec, local_version_code,
    local_version_number, Version,
};

verus! {

/// The registry: at most one status record per application, one slot
/// per member of the closed application set.
#[derive(Debug, PartialEq, Eq)]
pub struct AggregatorState {
    pub github: Option<Status>,
    pub directive: Option<Status>,
    pub apache: Option<Status>,
    pub systemd: Option<Status>,
    pub security: Option<Status>,
}

impl Clone for AggregatorState {
    fn clone(&self) -> (r: AggregatorState)
        ensures
            r == *self,
    {
        AggregatorState {
            github: clone_opt_status(&self.github),
            directive: clone_opt_status(&self.directive),
            apache: clone_opt_status(&self.apache),
            systemd: clone_opt_status(&self.systemd),
            security: clone_opt_status(&self.security),
        }
    }
}

impl AggregatorState {
    /// The record registered under an application name, if any.
    pub open spec fn get_spec(self, k: AppName) -> Option<Status> {
        match k {
            AppName::Github => self.github,
            AppName::Directive => self.directive,
            AppName::Apache => self.apache,
            AppName::Systemd => self.systemd,
            AppName::Security => self.security,
        }
    }

    /// The registry with one slot replaced.
    pub open spec fn set_spec(self, k: AppName, v: Status) -> AggregatorState {
        match k {
            AppName::Github => AggregatorState { github: Some(v), ..self },
            AppName::Directive => AggregatorState { directive: Some(v), ..self },
            AppName::Apache => AggregatorState { apache: Some(v), ..self },
            AppName::Systemd => AggregatorState { systemd: Some(v), ..self },
            AppName::Security => AggregatorState { security: Some(v), ..self },
        }
    }

    /// Every registered record sits under its own application name.
    pub open spec fn wf(self) -> bool {
        forall|k: AppName| match #[trigger] self.get_spec(k) {
            Some(r) => r.app_name == k,
            None => true,
        }
    }

    /// An empty registry.
    pub fn new() -> (r: AggregatorState)
        ensures
            forall|k: AppName| #[trigger] r.get_spec(k) is None,
            r.wf(),
    {
        AggregatorState {
            github: None,
            directive: None,
            apache: None,
            systemd: None,
            security: None,
        }
    }

    /// A copy of the record registered under a name.
    pub fn get_cloned(&self, k: AppName) -> (r: Option<Status>)
        ensures
            r == self.get_spec(k),
    {
        match k {
            AppName::Github => clone_opt_status(&self.github),
            AppName::Directive => clone_opt_status(&self.directive),
            AppName::Apache => clone_opt_status(&self.apache),
            AppName::Systemd => clone_opt_status(&self.systemd),
            AppName::Security => clone_opt_status(&self.security),
        }
    }

    /// Replaces the slot of one application.
    pub fn set(&mut self, k: AppName, v: Status)
        ensures
            *final(self) == old(self).set_spec(k, v),
    {
        match k {
            AppName::Github => {
                self.github = Some(v);
            },
            AppName::Directive => {
                self.directive = Some(v);
            },
            AppName::Apache => {
                self.apache = Some(v);
            },
            AppName::Systemd => {
                self.systemd = Some(v);
            },
            AppName::Security => {
                self.security = Some(v);
            },
        }
    }
}

/// The registry after one status update: a fresh name is inserted
/// whole; a repeat of the same status refreshes only the timestamp; a
/// changed status replaces the whole record.
pub open spec fn update_spec(st: AggregatorState, rec: Status) -> AggregatorState {
    match st.get_spec(rec.app_name) {
        None => st.set_spec(rec.app_name, rec),
        Some(prev) => if prev.app_status == rec.app_status {
            st.set_spec(
                rec.app_name,
                Status {
                    app_name: prev.app_name,
                    app_status: prev.app_status,
                    timestamp: rec.timestamp,
                    version: prev.version,
                },
            )
        } else {
            st.set_spec(rec.app_name, rec)
        },
    }
}

/// An update notifies exactly when it changes a registered status.
pub open spec fn update_notifies(st: AggregatorState, rec: Status) -> bool {
    match st.get_spec(rec.app_name) {
        None => false,
        Some(prev) => prev.app_status != rec.app_status,
    }
}

/// After any update the touched name holds exactly one record and every
/// other name keeps what it had; so any sequence of updates leaves at
/// most one record per name.
pub proof fn lemma_update_at_most_one(st: AggregatorState, rec: Status)
    ensures
        update_spec(st, rec).get_spec(rec.app_name) is Some,
        forall|a: AppName|
            a != rec.app_name ==> #[trigger] update_spec(st, rec).get_spec(a) == st.get_spec(a),
{
}

/// An update keeps every record under its own application name.
pub proof fn lemma_update_wf(st: AggregatorState, rec: Status)
    requires
        st.wf(),
    ensures
        update_spec(st, rec).wf(),
{
    let nst = update_spec(st, rec);
    assert forall|a: AppName| match #[trigger] nst.get_spec(a) {
        Some(r) => r.app_name == a,
        None => true,
    } by {
        assert(match st.get_spec(a) {
            Some(r) => r.app_name == a,
            None => true,
        });
    };
}

/// Subject of the status-change notification.
pub open spec fn machine_update_subject(id: Seq<char>) -> Seq<char> {
    "Machine update: "@ + id
}

/// Body of the status-change notification.
pub open spec fn status_change_body(app: AppName, st: AppStatus) -> Seq<char> {
    "The application: "@ + app_label_spec(app) + " has change to "@ + status_label_spec(st)
}

/// Subject of the timeout notification.
pub open spec fn timeout_subject() -> Seq<char> {
    "Application timed out"@
}

/// Body of the timeout notification.
pub open spec fn timeout_body(app: AppName, id: Seq<char>) -> Seq<char> {
    "The application "@ + app_label_spec(app) + " on host "@ + id + " has timed out"@
}

/// Subject of the protocol-violation notification.
pub open spec fn dropped_subject() -> Seq<char> {
    "Connection dropped Erroneous communication"@
}

/// Body of the protocol-violation notification.
pub open spec fn dropped_body(id: Seq<char>) -> Seq<char> {
    "Machine: "@ + id + " has dropped a connection due to non standard communication"@
}

/// The notification sent when a registered application changes status.
pub fn make_status_change_email(machine_id: &str, app: AppName, status: AppStatus) -> (r: Email)
    ensures
        r.subject@ == machine_update_subject(machine_id@),
        r.body@ == status_change_body(app, status),
{
    let mut subject = String::from_str("Machine update: ");
    subject.append(machine_id);
    let mut body = String::from_str("The application: ");
    body.append(app.label());
    body.append(" has change to ");
    body.append(status.label());
    Email { subject, body }
}

/// The notification sent when an application times out.
pub fn make_timeout_email(machine_id: &str, app: AppName) -> (r: Email)
    ensures
        r.subject@ == timeout_subject(),
        r.body@ == timeout_body(app, machine_id@),
{
    let subject = String::from_str("Application timed out");
    let mut body = String::from_str("The application ");
    body.append(app.label());
    body.append(" on host ");
    body.append(machine_id);
    body.append(" has timed out");
    Email { subject, body }
}

/// The notification sent before the aggregator terminates on an
/// inbound acknowledgment.
pub fn make_dropped_email(machine_id: &str) -> (r: Email)
    ensures
        r.subject@ == dropped_subject(),
        r.body@ == dropped_body(machine_id@),
{
    let subject = String::from_str("Connection dropped Erroneous communication");
    let mut body = String::from_str("Machine: ");
    body.append(machine_id);
    body.append(" has dropped a connection due to non standard communication");
    Email { subject, body }
}

/// Applies one status update to the registry. Returns the notification
/// to send: one exactly when a registered status changed, none when the
/// name is new or the status repeated.
pub fn handle_status_update(
    our_state: &mut AggregatorState,
    new_state: Status,
    machine_id: &str,
) -> (r: Option<Email>)
    requires
        old(our_state).wf(),
    ensures
        *final(our_state) == update_spec(*old(our_state), new_state),
        final(our_state).wf(),
        r is Some <==> update_notifies(*old(our_state), new_state),
        match r {
            Some(mail) => mail.subject@ == machine_update_subject(machine_id@) && mail.body@
                == status_change_body(new_state.app_name, new_state.app_status),
            None => true,
        },
{
    proof {
        lemma_update_wf(*old(our_state), new_state);
    }
    let k = new_state.app_name;
    let existing = our_state.get_cloned(k);
    match existing {
        None => {
            our_state.set(k, new_state);
            None
        },
        Some(prev) => {
            if prev.app_status == new_state.app_status {
                let updated = Status {
                    app_name: prev.app_name,
                    app_status: prev.app_status,
                    timestamp: new_state.timestamp,
                    version: prev.version,
                };
                our_state.set(k, updated);
                None
            } else {
                let mail = make_status_change_email(machine_id, k, new_state.app_status);
                our_state.set(k, new_state);
                Some(mail)
            }
        },
    }
}

/// The aggregator's answer to a query.
#[derive(Debug)]
pub struct QueryResponse {
    pub version: String,
    pub app_status: Option<Status>,
    pub all_statuses: Option<AggregatorState>,
}

/// Answers a query from the registry: one record for `Status`, a full
/// snapshot for `AllStatuses`, the local version tag on both.
pub fn handle_query(state: &AggregatorState, query: QueryMessage) -> (r: QueryResponse)
    ensures
        r.version@ == local_version_number() + code_suffix_spec(local_version_code()),
        query.query_type == QueryType::Status ==> {
            &&& r.app_status == match query.app_name {
                Some(name) => state.get_spec(name),
                None => None::<Status>,
            }
            &&& r.all_statuses is None
        },
        query.query_type == QueryType::AllStatuses ==> {
            &&& r.app_status is None
            &&& r.all_statuses == Some(*state)
        },
{
    match query.query_type {
        QueryType::Status => {
            let app_status = match query.app_name {
                Some(name) => state.get_cloned(name),
                None => None,
            };
            QueryResponse { version: Version::get(), app_status, all_statuses: None }
        },
        QueryType::AllStatuses => QueryResponse {
            version: Version::get(),
            app_status: None,
            all_statuses: Some(state.clone()),
        },
    }
}

/// A record is overdue when more than sixty seconds have passed since
/// its last report.
pub open spec fn fires(rec: Status, now: u64) -> bool {
    now - rec.timestamp > 60
}

/// One slot after a sweep: an overdue record turns to `TimedOut` with a
/// fresh timestamp, everything else stays.
pub open spec fn sweep_rec(o: Option<Status>, now: u64) -> Option<Status> {
    match o {
        None => None,
        Some(r) => if fires(r, now) {
            Some(
                Status {
                    app_name: r.app_name,
                    app_status: AppStatus::TimedOut,
                    timestamp: now,
                    version: r.version,
                },
            )
        } else {
            Some(r)
        },
    }
}

/// The applications a slot contributes to a sweep's notifications.
pub open spec fn cond_fired(o: Option<Status>, now: u64) -> Seq<AppName> {
    match o {
        Some(r) => if fires(r, now) {
            seq![r.app_name]
        } else {
            Seq::empty()
        },
        None => Seq::empty(),
    }
}

/// The whole registry after a sweep.
pub open spec fn sweep_state(st: AggregatorState, now: u64) -> AggregatorState {
    AggregatorState {
        github: sweep_rec(st.github, now),
        directive: sweep_rec(st.directive, now),
        apache: sweep_rec(st.apache, now),
        systemd: sweep_rec(st.systemd, now),
        security: sweep_rec(st.security, now),
    }
}

/// The applications a sweep notifies about, in slot order.
pub open spec fn fired_apps(st: AggregatorState, now: u64) -> Seq<AppName> {
    cond_fired(st.github, now) + cond_fired(st.directive, now) + cond_fired(st.apache, now)
        + cond_fired(st.systemd, now) + cond_fired(st.security, now)
}

/// A sweep keeps every record under its own application name.
pub proof fn lemma_sweep_wf(st: AggregatorState, now: u64)
    requires
        st.wf(),
    ensures
        sweep_state(st, now).wf(),
{
    let nst = sweep_state(st, now);
    assert forall|a: AppName| match #[trigger] nst.get_spec(a) {
        Some(r) => r.app_name == a,
        None => true,
    } by {
        assert(match st.get_spec(a) {
            Some(r) => r.app_name == a,
            None => true,
        });
        assert(nst.get_spec(a) == sweep_rec(st.get_spec(a), now));
    };
}

/// A notification reports the timeout of one application.
pub open spec fn timeout_mail_matches(m: Email, a: AppName, id: Seq<char>) -> bool {
    m.subject@ == timeout_subject() && m.body@ == timeout_body(a, id)
}

/// The notifications match the fired applications one for one.
pub open spec fn mails_match(mails: Seq<Email>, apps: Seq<AppName>, id: Seq<char>) -> bool {
    mails.len() == apps.len() && forall|i: int|
        0 <= i < mails.len() ==> timeout_mail_matches(#[trigger] mails[i], apps[i], id)
}

proof fn lemma_mails_extend(
    old_m: Seq<Email>,
    new_m: Seq<Email>,
    old_a: Seq<AppName>,
    seg: Seq<AppName>,
    id: Seq<char>,
)
    requires
        mails_match(old_m, old_a, id),
        new_m.len() == old_m.len() + seg.len(),
        forall|i: int| 0 <= i < old_m.len() ==> new_m[i] == old_m[i],
        forall|j: int|
            0 <= j < seg.len() ==> timeout_mail_matches(#[trigger] new_m[old_m.len() + j], seg[j], id),
    ensures
        mails_match(new_m, old_a + seg, id),
{
    assert forall|i: int| 0 <= i < new_m.len() implies timeout_mail_matches(
        #[trigger] new_m[i],
        (old_a + seg)[i],
        id,
    ) by {
        if i < old_m.len() {
            assert(new_m[i] == old_m[i]);
            assert((old_a + seg)[i] == old_a[i]);
        } else {
            let j = i - old_m.len();
            assert(timeout_mail_matches(new_m[old_m.len() + j], seg[j], id));
            assert((old_a + seg)[i] == seg[j]);
        }
    };
}

/// Sweeps one slot, appending the notification of a fired record.
fn sweep_slot(slot: Option<Status>, now: u64, machine_id: &str, mails: &mut Vec<Email>) -> (r:
    Option<Status>)
    ensures
        r == sweep_rec(slot, now),
        final(mails)@.len() == old(mails)@.len() + cond_fired(slot, now).len(),
        forall|i: int| 0 <= i < old(mails)@.len() ==> #[trigger] final(mails)@[i] == old(mails)@[i],
        forall|j: int|
            0 <= j < cond_fired(slot, now).len() ==> timeout_mail_matches(
                #[trigger] final(mails)@[old(mails)@.len() + j],
                cond_fired(slot, now)[j],
                machine_id@,
            ),
{
    match slot {
        None => None,
        Some(rec) => {
            if now >= rec.timestamp && now - rec.timestamp > 60 {
                let mail = make_timeout_email(machine_id, rec.app_name);
                mails.push(mail);
                Some(
                    Status {
                        app_name: rec.app_name,
                        app_status: AppStatus::TimedOut,
                        timestamp: now,
                        version: rec.version,
                    },
                )
            } else {
                Some(rec)
            }
        },
    }
}

/// One pass of the timeout sweeper: every overdue record turns to
/// `TimedOut` at `now`, and one notification is returned per turned
/// record, in slot order.
pub fn check_for_timeouts(state: &mut AggregatorState, now: u64, machine_id: &str) -> (mails: Vec<
    Email,
>)
    requires
        old(state).wf(),
    ensures
        *final(state) == sweep_state(*old(state), now),
        final(state).wf(),
        mails_match(mails@, fired_apps(*old(state), now), machine_id@),
{
    proof {
        lemma_sweep_wf(*old(state), now);
    }
    let mut mails: Vec<Email> = Vec::new();
    let ghost st0 = *state;
    let ghost id = machine_id@;

    let new_github = sweep_slot(clone_opt_status(&state.github), now, machine_id, &mut mails);
    state.github = new_github;
    let ghost a1 = cond_fired(st0.github, now);
    proof {
        assert(mails_match(mails@, a1, id)) by {
            lemma_mails_extend(Seq::empty(), mails@, Seq::empty(), a1, id);
            assert(Seq::<AppName>::empty() + a1 =~= a1);
        }
    }

    let ghost m1 = mails@;
    let new_directive = sweep_slot(clone_opt_status(&state.directive), now, machine_id, &mut mails);
    state.directive = new_directive;
    let ghost a2 = a1 + cond_fired(st0.directive, now);
    proof {
        lemma_mails_extend(m1, mails@, a1, cond_fired(st0.directive, now), id);
    }

    let ghost m2 = mails@;
    let new_apache = sweep_slot(clone_opt_status(&state.apache), now, machine_id, &mut mails);
    state.apache = new_apache;
    let ghost a3 = a2 + cond_fired(st0.apache, now);
    proof {
        lemma_mails_extend(m2, mails@, a2, cond_fired(st0.apache, now), id);
    }

    let ghost m3 = mails@;
    let new_systemd = sweep_slot(clone_opt_status(&state.systemd), now, machine_id, &mut mails);
    state.systemd = new_systemd;
    let ghost a4 = a3 + cond_fired(st0.systemd, now);
    proof {
        lemma_mails_extend(m3, mails@, a3, cond_fired(st0.systemd, now), id);
    }

    let ghost m4 = mails@;
    let new_security = sweep_slot(clone_opt_status(&state.security), now, machine_id, &mut mails);
    state.security = new_security;
    let ghost a5 = a4 + cond_fired(st0.security, now);
    proof {
        lemma_mails_extend(m4, mails@, a4, cond_fired(st0.security, now), id);
        assert(a5 =~= fired_apps(st0, now));
    }

    mails
}

/// A second sweep at the same instant changes nothing and notifies
/// nobody: every record it could fire on was just refreshed.
pub proof fn lemma_sweep_idempotent(st: AggregatorState, now: u64)
    ensures
        sweep_state(sweep_state(st, now), now) == sweep_state(st, now),
        fired_apps(sweep_state(st, now), now) =~= Seq::<AppName>::empty(),
{
    let swept = sweep_state(st, now);
    assert(sweep_rec(swept.github, now) == swept.github);
    assert(sweep_rec(swept.directive, now) == swept.directive);
    assert(sweep_rec(swept.apache, now) == swept.apache);
    assert(sweep_rec(swept.systemd, now) == swept.systemd);
    assert(sweep_rec(swept.security, now) == swept.security);
    assert(cond_fired(swept.github, now) =~= Seq::<AppName>::empty());
    assert(cond_fired(swept.directive, now) =~= Seq::<AppName>::empty());
    assert(cond_fired(swept.apache, now) =~= Seq::<AppName>::empty());
    assert(cond_fired(swept.systemd, now) =~= Seq::<AppName>::empty());
    assert(cond_fired(swept.security, now) =~= Seq::<AppName>::empty());
}

/// The payload of an inbound message, parsed by its message type. A
/// payload that did not parse is `Malformed`.
pub enum InboundPayload {
    StatusUpdate(Status),
    Query(QueryMessage),
    Acknowledgment,
    Malformed,
}

/// What the connection handler must do after one message.
pub enum AggregatorAction {
    /// Version check failed: drop the connection without a response.
    DropIncompatible,
    /// Status update applied: send one acknowledgment frame and close.
    AckClose,
    /// Query answered: send the response frame and close.
    Reply(QueryResponse),
    /// Inbound acknowledgment: send the notification and terminate the
    /// process.
    Terminate(Email),
    /// Malformed payload: close without a response.
    Ignore,
}

/// Outcome of one inbound message: the action to take, and the
/// status-change notification to send, if one is owed.
pub struct MessageOutcome {
    pub action: AggregatorAction,
    pub notification: Option<Email>,
}

/// The sender's version tag is accepted by the local one.
pub open spec fn version_ok(v: Seq<char>) -> bool {
    match from_string_spec(v) {
        Some(t) => compatible_spec(t.0, t.1, local_version_number(), local_version_code()),
        None => false,
    }
}

/// Handles one inbound message: drops it when the sender's version is
/// incompatible, applies a status update, answers a query, and treats
/// an inbound acknowledgment as a protocol violation that terminates
/// the process after a notification.
pub fn handle_message(
    state: &mut AggregatorState,
    version: String,
    payload: InboundPayload,
    machine_id: &str,
) -> (r: MessageOutcome)
    requires
        old(state).wf(),
    ensures
        final(state).wf(),
        !version_ok(version@) ==> {
            &&& *final(state) == *old(state)
            &&& r.action is DropIncompatible
            &&& r.notification is None
        },
        version_ok(version@) ==> match payload {
            InboundPayload::StatusUpdate(rec) => {
                &&& *final(state) == update_spec(*old(state), rec)
                &&& r.action is AckClose
                &&& (r.notification is Some <==> update_notifies(*old(state), rec))
                &&& match r.notification {
                    Some(mail) => mail.subject@ == machine_update_subject(machine_id@)
                        && mail.body@ == status_change_body(rec.app_name, rec.app_status),
                    None => true,
                }
            },
            InboundPayload::Query(q) => {
                &&& *final(state) == *old(state)
                &&& r.notification is None
                &&& match r.action {
                    AggregatorAction::Reply(resp) => {
                        &&& resp.version@ == local_version_number() + code_suffix_spec(
                            local_version_code(),
                        )
                        &&& q.query_type == QueryType::Status ==> resp.app_status == (match q
                            .app_name {
                            Some(name) => old(state).get_spec(name),
                            None => None::<Status>,
                        }) && resp.all_statuses is None
                        &&& q.query_type == QueryType::AllStatuses ==> resp.app_status is None
                            && resp.all_statuses == Some(*old(state))
                    },
                    _ => false,
                }
            },
            InboundPayload::Acknowledgment => {
                &&& *final(state) == *old(state)
                &&& r.notification is None
                &&& match r.action {
                    AggregatorAction::Terminate(mail) => mail.subject@ == dropped_subject()
                        && mail.body@ == dropped_body(machine_id@),
                    _ => false,
                }
            },
            InboundPayload::Malformed => {
                &&& *final(state) == *old(state)
                &&& r.action is Ignore
                &&& r.notification is None
            },
        },
{
    let version_passes = Version::comp(version);
    if !version_passes {
        return MessageOutcome { action: AggregatorAction::DropIncompatible, notification: None };
    }
    match payload {
        InboundPayload::StatusUpdate(rec) => {
            let notification = handle_status_update(state, rec, machine_id);
            MessageOutcome { action: AggregatorAction::AckClose, notification }
        },
        InboundPayload::Query(q) => {
            let resp = handle_query(state, q);
            MessageOutcome { action: AggregatorAction::Reply(resp), notification: None }
        },
        InboundPayload::Acknowledgment => {
            let mail = make_dropped_email(machine_id);
            MessageOutcome { action: AggregatorAction::Terminate(mail), notification: None }
        },
        InboundPayload::Malformed => {
            MessageOutcome { action: AggregatorAction::Ignore, notification: None }
        },
    }
}

} // verus!
