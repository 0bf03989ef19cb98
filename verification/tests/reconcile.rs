use pbd::client::Porkbun;
use pbd::reconcile::{decide_action, match_target, normalized_name, Action, Report, Session};
use pbd::record::{Record, RecordType};

fn a_record(id: u32, name: &str, content: &str) -> Record {
    Record {
        id,
        name: name.to_string(),
        typ: RecordType::A,
        content: content.to_string(),
        ttl: 300,
        priority: 0,
    }
}

fn action_name(a: &Action) -> &'static str {
    match a {
        Action::UpToDate { .. } => "up-to-date",
        Action::Update { .. } => "update",
        Action::Create { .. } => "create",
    }
}

// A provider standing in for the remote API: canned (status, body) answers
// by exact path, and a log of every request issued, so a test can assert
// how many calls reached each endpoint and with what body.
struct FakeProvider {
    responses: Vec<(String, u16, String)>,
    log: Vec<(String, String)>,
}

impl FakeProvider {
    fn new(responses: &[(&str, u16, &str)]) -> FakeProvider {
        FakeProvider {
            responses: responses
                .iter()
                .map(|(p, s, b)| (p.to_string(), *s, b.to_string()))
                .collect(),
            log: Vec::new(),
        }
    }

    fn respond(&mut self, path: &str, body: &str) -> (u16, String) {
        self.log.push((path.to_string(), body.to_string()));
        for (p, status, text) in &self.responses {
            if p == path {
                return (*status, text.clone());
            }
        }
        (501, String::new())
    }

    fn calls_to(&self, path: &str) -> usize {
        self.log.iter().filter(|(p, _)| p == path).count()
    }

    fn domain_scoped_calls(&self) -> usize {
        self.log.iter().filter(|(p, _)| p.starts_with("/dns/")).count()
    }
}

fn drive(mut session: Session, provider: &mut FakeProvider) -> (Session, Vec<Report>) {
    let mut reports = Vec::new();
    loop {
        if session.is_deciding() {
            let (next, report) = session.step_label();
            session = next;
            if let Some(report) = report {
                reports.push(report);
            }
            continue;
        }
        match session.pending_request() {
            Some((path, body)) => {
                let (status, text) = provider.respond(&path, &body);
                session = session.on_response(status, &text);
            }
            None => return (session, reports),
        }
    }
}

fn session_for(domain: &str, labels: &[&str]) -> Session {
    let labels: Vec<String> = labels.iter().map(|l| l.to_string()).collect();
    Session::new(
        Porkbun::new("abc".to_string(), "def".to_string()),
        300,
        vec![(domain.to_string(), labels)],
    )
}

fn with_credentials(payload: &str) -> serde_json::Value {
    let mut expected = serde_json::from_str::<serde_json::Value>(payload)
        .unwrap()
        .as_object()
        .unwrap()
        .clone();
    expected.insert("apikey".to_string(), serde_json::Value::String("abc".to_string()));
    expected.insert(
        "secretapikey".to_string(),
        serde_json::Value::String("def".to_string()),
    );
    serde_json::Value::Object(expected)
}

const PING_OK_1112: (&str, u16, &str) =
    ("/ping", 200, r#"{"status": "SUCCESS", "yourIp": "1.1.1.2"}"#);

const APEX_RECORDS: (&str, u16, &str) = (
    "/dns/retrieve/example.com",
    200,
    r#"{"status": "SUCCESS", "records": [
        {"id": "41", "name": "example.com", "type": "A", "content": "1.1.1.1", "ttl": "300", "prio": "0"}
    ]}"#,
);

#[test]
fn apex_label_matches_the_domain_itself() {
    assert_eq!(match_target("@", "example.com"), "example.com");
    assert_eq!(match_target("www", "example.com"), "www");
    assert_eq!(normalized_name("@"), "");
    assert_eq!(normalized_name("www"), "www");
}

#[test]
fn matching_record_with_desired_content_is_up_to_date() {
    let records = vec![a_record(7, "example.com", "1.1.1.1")];
    match decide_action(&records, "example.com", "@", "1.1.1.1", 300) {
        Action::UpToDate { id } => assert_eq!(id, 7),
        other => panic!("expected up-to-date, got {}", action_name(&other)),
    }
}

#[test]
fn stale_record_is_updated_in_place() {
    let records = vec![a_record(7, "example.com", "1.1.1.1")];
    match decide_action(&records, "example.com", "@", "1.1.1.2", 300) {
        Action::Update { record, new_content } => {
            assert_eq!(record.id, 7);
            assert_eq!(record.name, "example.com");
            assert!(record.typ == RecordType::A);
            assert_eq!(record.content, "1.1.1.1");
            assert_eq!(record.ttl, 300);
            assert_eq!(record.priority, 0);
            assert_eq!(new_content, "1.1.1.2");
        }
        other => panic!("expected an update, got {}", action_name(&other)),
    }
}

#[test]
fn unmatched_label_creates_a_fresh_record() {
    let records = vec![a_record(7, "example.com", "1.1.1.1")];
    match decide_action(&records, "example.com", "www", "9.9.9.9", 600) {
        Action::Create { record } => {
            assert_eq!(record.id, 0);
            assert_eq!(record.name, "www");
            assert!(record.typ == RecordType::A);
            assert_eq!(record.content, "9.9.9.9");
            assert_eq!(record.ttl, 600);
            assert_eq!(record.priority, 0);
        }
        other => panic!("expected a creation, got {}", action_name(&other)),
    }
}

#[test]
fn first_match_wins_and_non_a_records_are_ignored() {
    let mut cname = a_record(1, "www", "elsewhere.example.com");
    cname.typ = RecordType::CNAME;
    let records = vec![cname, a_record(2, "www", "1.1.1.1"), a_record(3, "www", "2.2.2.2")];
    match decide_action(&records, "example.com", "www", "3.3.3.3", 300) {
        Action::Update { record, .. } => assert_eq!(record.id, 2),
        other => panic!("expected an update, got {}", action_name(&other)),
    }
}

#[test]
fn up_to_date_record_causes_no_write() {
    let mut provider = FakeProvider::new(&[
        ("/ping", 200, r#"{"status": "SUCCESS", "yourIp": "1.1.1.1"}"#),
        APEX_RECORDS,
    ]);

    let (session, reports) = drive(session_for("example.com", &["@"]), &mut provider);

    assert!(session.is_finished());
    assert!(session.failure().is_none());
    assert_eq!(provider.calls_to("/ping"), 1);
    assert_eq!(provider.calls_to("/dns/retrieve/example.com"), 1);
    assert_eq!(provider.domain_scoped_calls(), 1);
    assert_eq!(reports.len(), 1);
    assert!(matches!(reports[0], Report::UpToDate { id: 41 }));
}

#[test]
fn stale_record_issues_exactly_one_update() {
    let mut provider = FakeProvider::new(&[
        PING_OK_1112,
        APEX_RECORDS,
        ("/dns/edit/example.com/41", 200, r#"{"status": "SUCCESS"}"#),
    ]);

    let (session, reports) = drive(session_for("example.com", &["@"]), &mut provider);

    assert!(session.is_finished());
    assert!(session.failure().is_none());
    assert_eq!(provider.calls_to("/dns/edit/example.com/41"), 1);
    assert_eq!(provider.domain_scoped_calls(), 2);
    let (_, edit_body) = &provider.log[2];
    assert_eq!(
        serde_json::from_str::<serde_json::Value>(edit_body).unwrap(),
        with_credentials(
            r#"{"name": "example.com", "type": "A", "content": "1.1.1.2", "ttl": "300", "prio": "0"}"#,
        ),
    );
    assert_eq!(reports.len(), 1);
    assert!(matches!(reports[0], Report::Updating { id: 41 }));
}

#[test]
fn unmatched_label_issues_exactly_one_create() {
    let mut provider = FakeProvider::new(&[
        PING_OK_1112,
        (
            "/dns/retrieve/example.com",
            200,
            r#"{"status": "SUCCESS", "records": [
                {"id": "41", "name": "example.com", "type": "A", "content": "1.1.1.2", "ttl": "300", "prio": "0"}
            ]}"#,
        ),
        ("/dns/create/example.com", 200, r#"{"status": "SUCCESS", "id": "77"}"#),
    ]);

    let (session, reports) = drive(session_for("example.com", &["@", "www"]), &mut provider);

    assert!(session.is_finished());
    assert!(session.failure().is_none());
    assert_eq!(provider.calls_to("/dns/create/example.com"), 1);
    assert_eq!(provider.domain_scoped_calls(), 2);
    let (_, create_body) = &provider.log[2];
    assert_eq!(
        serde_json::from_str::<serde_json::Value>(create_body).unwrap(),
        with_credentials(
            r#"{"name": "www", "type": "A", "content": "1.1.1.2", "ttl": "300", "prio": "0"}"#,
        ),
    );
    assert_eq!(reports.len(), 2);
    assert!(matches!(reports[0], Report::UpToDate { id: 41 }));
    assert!(matches!(&reports[1], Report::Creating { domain } if domain == "example.com"));
}

#[test]
fn auth_failure_blocks_every_domain_call() {
    let mut provider = FakeProvider::new(&[(
        "/ping",
        403,
        r#"{"status": "ERROR", "message": "Invalid API key"}"#,
    )]);

    let (session, reports) = drive(session_for("example.com", &["@", "www"]), &mut provider);

    assert!(!session.is_finished());
    assert_eq!(session.failure().unwrap(), "Failed to authenticate: Invalid API key");
    assert_eq!(provider.domain_scoped_calls(), 0);
    assert!(reports.is_empty());
    // a failed session never has anything outstanding
    assert!(session.pending_request().is_none());
    let session = session.on_response(200, r#"{"status": "SUCCESS"}"#);
    assert!(session.pending_request().is_none());
    assert!(session.failure().is_some());
    let (session, _) = session.step_label();
    assert!(session.pending_request().is_none());
}

#[test]
fn list_failure_aborts_the_run() {
    let mut provider = FakeProvider::new(&[
        PING_OK_1112,
        (
            "/dns/retrieve/example.com",
            503,
            r#"{"status": "ERROR", "message": "try later"}"#,
        ),
    ]);

    let (session, reports) = drive(session_for("example.com", &["@"]), &mut provider);

    assert!(reports.is_empty());
    assert_eq!(
        session.failure().unwrap(),
        "Failed to get current records for example.com: try later"
    );
}

#[test]
fn write_failure_aborts_the_run() {
    let mut provider = FakeProvider::new(&[
        PING_OK_1112,
        APEX_RECORDS,
        (
            "/dns/edit/example.com/41",
            400,
            r#"{"status": "ERROR", "message": "edit refused"}"#,
        ),
    ]);

    let (session, _) = drive(session_for("example.com", &["@"]), &mut provider);

    assert_eq!(
        session.failure().unwrap(),
        "Failed to write record for @ on example.com: edit refused"
    );
}

#[test]
fn every_domain_is_listed_once_in_order() {
    let mut provider = FakeProvider::new(&[
        PING_OK_1112,
        ("/dns/retrieve/first.example", 200, r#"{"status": "SUCCESS", "records": []}"#),
        (
            "/dns/retrieve/second.example",
            200,
            r#"{"status": "SUCCESS", "records": [
                {"id": "9", "name": "second.example", "type": "A", "content": "1.1.1.2", "ttl": "300", "prio": "0"}
            ]}"#,
        ),
    ]);
    let session = Session::new(
        Porkbun::new("abc".to_string(), "def".to_string()),
        300,
        vec![
            ("first.example".to_string(), Vec::new()),
            ("second.example".to_string(), vec!["@".to_string()]),
        ],
    );

    let (session, reports) = drive(session, &mut provider);

    assert!(session.is_finished());
    assert_eq!(provider.calls_to("/ping"), 1);
    assert_eq!(provider.calls_to("/dns/retrieve/first.example"), 1);
    assert_eq!(provider.calls_to("/dns/retrieve/second.example"), 1);
    assert_eq!(provider.domain_scoped_calls(), 2);
    assert_eq!(reports.len(), 1);
    assert!(matches!(reports[0], Report::UpToDate { id: 9 }));
    let paths: Vec<&str> = provider.log.iter().map(|(p, _)| p.as_str()).collect();
    assert_eq!(
        paths,
        vec!["/ping", "/dns/retrieve/first.example", "/dns/retrieve/second.example"],
    );
}

#[test]
fn empty_plan_authenticates_and_finishes() {
    let mut provider = FakeProvider::new(&[PING_OK_1112]);
    let session = Session::new(
        Porkbun::new("abc".to_string(), "def".to_string()),
        300,
        Vec::new(),
    );

    let (session, reports) = drive(session, &mut provider);

    assert!(session.is_finished());
    assert!(reports.is_empty());
    assert_eq!(provider.calls_to("/ping"), 1);
    assert_eq!(provider.domain_scoped_calls(), 0);
}

#[test]
fn transport_failure_aborts_the_run() {
    let session = session_for("example.com", &["@"]);
    let session = session.on_transport_failure("connection refused");
    assert_eq!(session.failure().unwrap(), "Transport failure: connection refused");
    assert!(session.pending_request().is_none());
}
