//! The reconciler: for each desired (domain, label) pair, search the fetched
//! record set, decide create vs. update vs. no-op, and drive one run as a
//! state machine. The caller performs each outstanding HTTP exchange and
//! hands the status and body back; every decision in between is made here.

use vstd::prelude::*;

use crate::client::{
    ping_response, records_response, req_view, spec_create_request, spec_edit_request,
    spec_error_message, spec_ping_request, spec_records_request, status_ok, write_response,
    Porkbun,
};
use crate::codec::{spec_decode_all, spec_decode_error_text, str_eq};
use crate::json::{object_array_of, string_field_of};
use crate::record::{records_view, Record, RecordModel, RecordType};

verus! {

/// The compare target when searching existing records: the provider stores
/// apex records under the domain's own fully-qualified name, so the label
/// `"@"` compares against the domain itself, any other label against the
/// label as written.
pub open spec fn spec_match_target(label: Seq<char>, domain: Seq<char>) -> Seq<char> {
    if label == "@"@ {
        domain
    } else {
        label
    }
}

/// Computes the compare target for a desired label under a domain.
pub fn match_target(label: &str, domain: &str) -> (r: String)
    ensures
        r@ == spec_match_target(label@, domain@),
{
    if str_eq(label, "@") {
        domain.to_owned()
    } else {
        label.to_owned()
    }
}

/// The name a record is created under: the apex label `"@"` normalizes to
/// the empty name; any other label is kept as written.
pub open spec fn spec_normalized_name(label: Seq<char>) -> Seq<char> {
    if label == "@"@ {
        Seq::empty()
    } else {
        label
    }
}

/// Computes the name a new record for a desired label is created under.
pub fn normalized_name(label: &str) -> (r: String)
    ensures
        r@ == spec_normalized_name(label@),
{
    if str_eq(label, "@") {
        String::new()
    } else {
        label.to_owned()
    }
}

/// Whether a record occupies the slot being reconciled: its name equals the
/// compare target and its type is `A`. The provider-assigned id plays no
/// part in matching.
pub open spec fn record_matches(r: RecordModel, target: Seq<char>) -> bool {
    r.name == target && r.typ == RecordType::A
}

/// The first record, in provider-returned order, that occupies the slot.
pub open spec fn spec_first_match(rs: Seq<RecordModel>, target: Seq<char>) -> Option<RecordModel>
    decreases rs.len(),
{
    if rs.len() == 0 {
        None
    } else if record_matches(rs[0], target) {
        Some(rs[0])
    } else {
        spec_first_match(rs.drop_first(), target)
    }
}

/// What one desired (domain, label) pair needs.
pub enum Action {
    /// An `A` record in the slot already carries the desired content.
    UpToDate { id: u32 },
    /// The first matching record is stale: replace its content.
    Update { record: Record, new_content: String },
    /// No record occupies the slot: create this one.
    Create { record: Record },
}

/// What one desired pair needs, stated over the record model.
pub enum ActionModel {
    UpToDate { id: u32 },
    Update { record: RecordModel, new_content: Seq<char> },
    Create { record: RecordModel },
}

/// The model of an executable action.
pub open spec fn action_view(a: Action) -> ActionModel {
    match a {
        Action::UpToDate { id } => ActionModel::UpToDate { id },
        Action::Update { record, new_content } => ActionModel::Update {
            record: record@,
            new_content: new_content@,
        },
        Action::Create { record } => ActionModel::Create { record: record@ },
    }
}

/// The reconciliation decision for one desired pair: first match wins; a
/// matching record is up to date exactly when its content is the desired
/// ip; an absent slot is created with the normalized name, type `A`, the
/// desired ip, the configured ttl, priority 0, and id 0 (the provider
/// assigns the real one).
pub open spec fn spec_decide(
    rs: Seq<RecordModel>,
    domain: Seq<char>,
    label: Seq<char>,
    ip: Seq<char>,
    ttl: u32,
) -> ActionModel {
    match spec_first_match(rs, spec_match_target(label, domain)) {
        Some(m) => if m.content == ip {
            ActionModel::UpToDate { id: m.id }
        } else {
            ActionModel::Update { record: m, new_content: ip }
        },
        None => ActionModel::Create {
            record: RecordModel {
                id: 0,
                name: spec_normalized_name(label),
                typ: RecordType::A,
                content: ip,
                ttl: ttl,
                priority: 0,
            },
        },
    }
}

fn first_match(records: &Vec<Record>, target: &str) -> (r: Option<Record>)
    ensures
        match r {
            Some(m) => spec_first_match(records_view(records@), target@) == Some(m@),
            None => spec_first_match(records_view(records@), target@) is None,
        },
{
    let ghost rv = records_view(records@);
    proof {
        assert(rv.skip(0) =~= rv);
    }
    let mut i: usize = 0;
    while i < records.len()
        invariant
            0 <= i <= records.len(),
            rv == records_view(records@),
            rv.len() == records.len(),
            spec_first_match(rv, target@) == spec_first_match(rv.skip(i as int), target@),
        decreases records.len() - i,
    {
        proof {
            assert(rv.skip(i as int)[0] == rv[i as int]);
            assert(rv.skip(i as int).drop_first() =~= rv.skip(i as int + 1));
        }
        if records[i].typ == RecordType::A && str_eq(records[i].name.as_str(), target) {
            return Some(records[i].clone());
        }
        i += 1;
    }
    proof {
        assert(rv.skip(records.len() as int) =~= Seq::<RecordModel>::empty());
    }
    None
}

/// Decides what one desired (domain, label) pair needs, given the fetched
/// record set, the desired ip and the configured ttl.
pub fn decide_action(records: &Vec<Record>, domain: &str, label: &str, ip: &str, ttl: u32) -> (r:
    Action)
    ensures
        action_view(r) == spec_decide(records_view(records@), domain@, label@, ip@, ttl),
{
    let target = match_target(label, domain);
    match first_match(records, target.as_str()) {
        Some(m) => {
            if str_eq(m.content.as_str(), ip) {
                Action::UpToDate { id: m.id }
            } else {
                Action::Update { record: m, new_content: ip.to_owned() }
            }
        },
        None => Action::Create {
            record: Record {
                id: 0,
                name: normalized_name(label),
                typ: RecordType::A,
                content: ip.to_owned(),
                ttl,
                priority: 0,
            },
        },
    }
}

/// The failure text of a zone listing that did not yield records: the
/// provider's message for a bad status, else what failed to decode.
pub open spec fn spec_list_error_text(status: u16, body: Seq<char>) -> Seq<char> {
    if !status_ok(status) {
        spec_error_message(status, body)
    } else {
        match object_array_of(body, "records"@) {
            None => "Failed to deserialize body"@,
            Some(objs) => match spec_decode_all(objs) {
                Err(failure) => spec_decode_error_text(failure),
                Ok(_) => Seq::empty(),
            },
        }
    }
}

/// What a step reports for the console.
pub enum Report {
    /// An existing record already carries the desired content.
    UpToDate { id: u32 },
    /// An existing record is stale and an update is being issued.
    Updating { id: u32 },
    /// No record matched and a creation is being issued.
    Creating { domain: String },
}

/// Where one run stands.
pub enum Phase {
    /// The identity-check request is outstanding.
    Auth,
    /// The zone listing for domain `d` is outstanding.
    Domain { ip: String, d: usize },
    /// Label `l` of domain `d` is to be decided against `records`.
    Label { ip: String, d: usize, records: Vec<Record>, l: usize },
    /// The write for label `l`, which needs one, is outstanding.
    AwaitWrite { ip: String, d: usize, records: Vec<Record>, l: usize },
    /// Every domain converged.
    Done,
    /// A failure aborted the run: nothing further is issued.
    Failed { error: String },
}

/// One synchronization run: authenticate once, then for each domain fetch
/// its record set once and converge each desired label, stopping the whole
/// run at the first failure.
pub struct Session {
    pub client: Porkbun,
    pub ttl: u32,
    pub domains: Vec<(String, Vec<String>)>,
    pub phase: Phase,
}

impl Session {
    /// The structural invariant: phase indices stay within the plan, and a
    /// write is only awaited where the decision was a write.
    pub open spec fn wf(self) -> bool {
        match self.phase {
            Phase::Auth => true,
            Phase::Domain { ip, d } => d < self.domains@.len(),
            Phase::Label { ip, d, records, l } => d < self.domains@.len() && l
                <= self.domains@[d as int].1@.len(),
            Phase::AwaitWrite { ip, d, records, l } => d < self.domains@.len() && l
                < self.domains@[d as int].1@.len() && !(spec_decide(
                records_view(records@),
                self.domains@[d as int].0@,
                self.domains@[d as int].1@[l as int]@,
                ip@,
                self.ttl,
            ) matches ActionModel::UpToDate { .. }),
            Phase::Done => true,
            Phase::Failed { error } => true,
        }
    }

    /// Starts a run: nothing has been exchanged yet, so authentication is
    /// the outstanding call.
    pub fn new(client: Porkbun, ttl: u32, domains: Vec<(String, Vec<String>)>) -> (s: Session)
        ensures
            s.wf(),
            s.client == client,
            s.ttl == ttl,
            s.domains == domains,
            s.phase is Auth,
    {
        Session { client, ttl, domains, phase: Phase::Auth }
    }

    /// The outstanding HTTP call of the current phase, if any: the caller
    /// sends it and hands the response to `on_response`. A finished, failed
    /// or deciding session has nothing outstanding — in particular, once
    /// authentication has failed, no list, edit or create call is ever
    /// issued.
    pub fn pending_request(&self) -> (r: Option<(String, String)>)
        requires
            self.wf(),
        ensures
            match self.phase {
                Phase::Auth => (r matches Some(q) && req_view(q) == spec_ping_request(
                    self.client.api_key@,
                    self.client.secret_api_key@,
                )),
                Phase::Domain { ip, d } => (r matches Some(q) && req_view(q)
                    == spec_records_request(
                    self.client.api_key@,
                    self.client.secret_api_key@,
                    self.domains@[d as int].0@,
                )),
                Phase::AwaitWrite { ip, d, records, l } => (r matches Some(q) && match spec_decide(
                    records_view(records@),
                    self.domains@[d as int].0@,
                    self.domains@[d as int].1@[l as int]@,
                    ip@,
                    self.ttl,
                ) {
                    ActionModel::Update { record, new_content } => req_view(q) == spec_edit_request(
                        self.client.api_key@,
                        self.client.secret_api_key@,
                        self.domains@[d as int].0@,
                        record,
                        new_content,
                    ),
                    ActionModel::Create { record } => req_view(q) == spec_create_request(
                        self.client.api_key@,
                        self.client.secret_api_key@,
                        self.domains@[d as int].0@,
                        record,
                    ),
                    ActionModel::UpToDate { .. } => false,
                }),
                _ => r is None,
            },
    {
        match &self.phase {
            Phase::Auth => Some(self.client.ping_request()),
            Phase::Domain { ip, d } => Some(
                self.client.records_request(self.domains[*d].0.as_str()),
            ),
            Phase::AwaitWrite { ip, d, records, l } => {
                let domain = self.domains[*d].0.as_str();
                let label = self.domains[*d].1[*l].as_str();
                match decide_action(records, domain, label, ip.as_str(), self.ttl) {
                    Action::Update { record, new_content } => Some(
                        self.client.edit_record_request(domain, &record, new_content.as_str()),
                    ),
                    Action::Create { record } => Some(
                        self.client.create_record_request(domain, &record),
                    ),
                    Action::UpToDate { .. } => {
                        proof {
                            assert(false);
                        }
                        None
                    },
                }
            },
            _ => None,
        }
    }

    /// Feeds back the response of the outstanding call. Authentication
    /// yields the observed ip and moves to the first domain (or straight to
    /// done when no domain is configured); a zone listing is decoded into
    /// the record set to reconcile; a write acknowledges one label. Any
    /// failing response moves to `Failed`, which no later step leaves, and
    /// a session with nothing outstanding is left unchanged.
    pub fn on_response(self, status: u16, body: &str) -> (s: Session)
        requires
            self.wf(),
        ensures
            s.wf(),
            s.client == self.client,
            s.ttl == self.ttl,
            s.domains == self.domains,
            match self.phase {
                Phase::Auth => {
                    if !status_ok(status) || string_field_of(body@, "yourIp"@) is None {
                        (s.phase matches Phase::Failed { error } && error@ == "Failed to authenticate: "@
                            + (if !status_ok(status) {
                                spec_error_message(status, body@)
                            } else {
                                "Failed to deserialize body"@
                            }))
                    } else {
                        if self.domains@.len() == 0 {
                            s.phase is Done
                        } else {
                            (s.phase matches Phase::Domain { ip, d } && Some(ip@)
                                == string_field_of(body@, "yourIp"@) && d == 0)
                        }
                    }
                },
                Phase::Domain { ip, d } => {
                    if status_ok(status) && (object_array_of(body@, "records"@) matches Some(objs)
                        && spec_decode_all(objs) is Ok) {
                        (s.phase matches Phase::Label { ip: ip2, d: d2, records, l } && ip2 == ip
                            && d2 == d && l == 0 && Ok::<_, crate::codec::DecodeOutcome>(
                            records_view(records@),
                        ) == spec_decode_all(object_array_of(body@, "records"@)->0))
                    } else {
                        (s.phase matches Phase::Failed { error } && error@
                            == "Failed to get current records for "@ + self.domains@[d as int].0@
                            + ": "@ + spec_list_error_text(status, body@))
                    }
                },
                Phase::AwaitWrite { ip, d, records, l } => {
                    if status_ok(status) {
                        (s.phase matches Phase::Label { ip: ip2, d: d2, records: r2, l: l2 } && ip2
                            == ip && d2 == d && r2 == records && l2 == l + 1)
                    } else {
                        (s.phase matches Phase::Failed { error } && error@
                            == "Failed to write record for "@
                            + self.domains@[d as int].1@[l as int]@ + " on "@
                            + self.domains@[d as int].0@ + ": "@ + spec_error_message(
                            status,
                            body@,
                        ))
                    }
                },
                _ => s == self,
            },
    {
        let Session { client, ttl, domains, phase } = self;
        match phase {
            Phase::Auth => match ping_response(status, body) {
                Ok(ip) => {
                    if domains.len() == 0 {
                        Session { client, ttl, domains, phase: Phase::Done }
                    } else {
                        Session { client, ttl, domains, phase: Phase::Domain { ip, d: 0 } }
                    }
                },
                Err(e) => {
                    let mut msg = "Failed to authenticate: ".to_owned();
                    let t = e.text();
                    msg.append(t.as_str());
                    Session { client, ttl, domains, phase: Phase::Failed { error: msg } }
                },
            },
            Phase::Domain { ip, d } => match records_response(status, body) {
                Ok(records) => Session {
                    client,
                    ttl,
                    domains,
                    phase: Phase::Label { ip, d, records, l: 0 },
                },
                Err(e) => {
                    let mut msg = "Failed to get current records for ".to_owned();
                    msg.append(domains[d].0.as_str());
                    msg.append(": ");
                    let t = e.text();
                    msg.append(t.as_str());
                    Session { client, ttl, domains, phase: Phase::Failed { error: msg } }
                },
            },
            Phase::AwaitWrite { ip, d, records, l } => match write_response(status, body) {
                Ok(_) => {
                    // binds the label count so the step past label l stays in bounds
                    let _labels_len = domains[d].1.len();
                    Session { client, ttl, domains, phase: Phase::Label { ip, d, records, l: l + 1 } }
                },
                Err(e) => {
                    let mut msg = "Failed to write record for ".to_owned();
                    msg.append(domains[d].1[l].as_str());
                    msg.append(" on ");
                    msg.append(domains[d].0.as_str());
                    msg.append(": ");
                    let t = e.text();
                    msg.append(t.as_str());
                    Session { client, ttl, domains, phase: Phase::Failed { error: msg } }
                },
            },
            other => Session { client, ttl, domains, phase: other },
        }
    }

    /// Records that the outstanding exchange could not be completed at all:
    /// a transport failure aborts the run wherever it stands. A session
    /// with nothing outstanding is left unchanged.
    pub fn on_transport_failure(self, message: &str) -> (s: Session)
        requires
            self.wf(),
        ensures
            s.wf(),
            s.client == self.client,
            s.ttl == self.ttl,
            s.domains == self.domains,
            match self.phase {
                Phase::Auth => (s.phase matches Phase::Failed { error } && error@
                    == "Transport failure: "@ + message@),
                Phase::Domain { .. } => (s.phase matches Phase::Failed { error } && error@
                    == "Transport failure: "@ + message@),
                Phase::AwaitWrite { .. } => (s.phase matches Phase::Failed { error } && error@
                    == "Transport failure: "@ + message@),
                _ => s == self,
            },
    {
        let Session { client, ttl, domains, phase } = self;
        match phase {
            Phase::Auth | Phase::Domain { .. } | Phase::AwaitWrite { .. } => {
                let mut msg = "Transport failure: ".to_owned();
                msg.append(message);
                Session { client, ttl, domains, phase: Phase::Failed { error: msg } }
            },
            other => Session { client, ttl, domains, phase: other },
        }
    }

    /// Decides the next label of the current domain: an up-to-date record
    /// is reported and the session moves past it; a label that needs a
    /// write stops with that write outstanding; when the labels are
    /// exhausted the session moves to the next domain's listing, or to done
    /// after the last. A session not at a decision point is left unchanged.
    pub fn step_label(self) -> (r: (Session, Option<Report>))
        requires
            self.wf(),
        ensures
            r.0.wf(),
            r.0.client == self.client,
            r.0.ttl == self.ttl,
            r.0.domains == self.domains,
            match self.phase {
                Phase::Label { ip, d, records, l } => {
                    if l == self.domains@[d as int].1@.len() {
                        r.1 is None && (if d + 1 == self.domains@.len() {
                            r.0.phase is Done
                        } else {
                            (r.0.phase matches Phase::Domain { ip: ip2, d: d2 } && ip2 == ip && d2
                                == d + 1)
                        })
                    } else {
                        match spec_decide(
                            records_view(records@),
                            self.domains@[d as int].0@,
                            self.domains@[d as int].1@[l as int]@,
                            ip@,
                            self.ttl,
                        ) {
                            ActionModel::UpToDate { id } => (r.0.phase matches Phase::Label {
                                ip: ip2,
                                d: d2,
                                records: r2,
                                l: l2,
                            } && ip2 == ip && d2 == d && r2 == records && l2 == l + 1) && r.1
                                == Some(Report::UpToDate { id }),
                            ActionModel::Update { record, .. } => (r.0.phase
                                matches Phase::AwaitWrite { ip: ip2, d: d2, records: r2, l: l2 }
                                && ip2 == ip && d2 == d && r2 == records && l2 == l) && (r.1
                                matches Some(Report::Updating { id }) && id == record.id),
                            ActionModel::Create { .. } => (r.0.phase matches Phase::AwaitWrite {
                                ip: ip2,
                                d: d2,
                                records: r2,
                                l: l2,
                            } && ip2 == ip && d2 == d && r2 == records && l2 == l) && (r.1
                                matches Some(Report::Creating { domain }) && domain@
                                == self.domains@[d as int].0@),
                        }
                    }
                },
                _ => r.0 == self && r.1 is None,
            },
    {
        let Session { client, ttl, domains, phase } = self;
        match phase {
            Phase::Label { ip, d, records, l } => {
                let domains_len = domains.len();
                if l == domains[d].1.len() {
                    if d + 1 == domains_len {
                        (Session { client, ttl, domains, phase: Phase::Done }, None)
                    } else {
                        (
                            Session {
                                client,
                                ttl,
                                domains,
                                phase: Phase::Domain { ip, d: d + 1 },
                            },
                            None,
                        )
                    }
                } else {
                    let action = decide_action(
                        &records,
                        domains[d].0.as_str(),
                        domains[d].1[l].as_str(),
                        ip.as_str(),
                        ttl,
                    );
                    match action {
                        Action::UpToDate { id } => (
                            Session {
                                client,
                                ttl,
                                domains,
                                phase: Phase::Label { ip, d, records, l: l + 1 },
                            },
                            Some(Report::UpToDate { id }),
                        ),
                        Action::Update { record, new_content } => {
                            let id = record.id;
                            (
                                Session {
                                    client,
                                    ttl,
                                    domains,
                                    phase: Phase::AwaitWrite { ip, d, records, l },
                                },
                                Some(Report::Updating { id }),
                            )
                        },
                        Action::Create { record } => {
                            let domain = domains[d].0.clone();
                            (
                                Session {
                                    client,
                                    ttl,
                                    domains,
                                    phase: Phase::AwaitWrite { ip, d, records, l },
                                },
                                Some(Report::Creating { domain }),
                            )
                        },
                    }
                }
            },
            other => (Session { client, ttl, domains, phase: other }, None),
        }
    }

    /// Whether the session stands at a decision point (`step_label` will
    /// advance it without any exchange).
    pub fn is_deciding(&self) -> (r: bool)
        ensures
            r == (self.phase is Label),
    {
        match &self.phase {
            Phase::Label { .. } => true,
            _ => false,
        }
    }

    /// Whether the run has converged every domain.
    pub fn is_finished(&self) -> (r: bool)
        ensures
            r == (self.phase is Done),
    {
        match &self.phase {
            Phase::Done => true,
            _ => false,
        }
    }

    /// The failure that aborted the run, if one has.
    pub fn failure(&self) -> (r: Option<String>)
        ensures
            match self.phase {
                Phase::Failed { error } => (r matches Some(m) && m@ == error@),
                _ => r is None,
            },
    {
        match &self.phase {
            Phase::Failed { error } => Some(error.clone()),
            _ => None,
        }
    }
}

} // verus!
