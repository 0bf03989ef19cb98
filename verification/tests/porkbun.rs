use pbd::client::{
    error_message, ping_response, records_response, write_response, ApiError, Porkbun,
};
use pbd::record::{Record, RecordType};

fn client() -> Porkbun {
    Porkbun::new("abc".to_string(), "def".to_string())
}

// The expected request body: the given payload with the two credential
// fields merged at the top level, compared structurally.
fn assert_body(actual: &str, payload: &str) {
    let mut expected = serde_json::from_str::<serde_json::Value>(payload)
        .unwrap()
        .as_object()
        .unwrap()
        .clone();
    expected.insert("apikey".to_string(), serde_json::Value::String("abc".to_string()));
    expected.insert(
        "secretapikey".to_string(),
        serde_json::Value::String("def".to_string()),
    );
    let actual: serde_json::Value = serde_json::from_str(actual).unwrap();
    assert_eq!(actual, serde_json::Value::Object(expected));
}

#[test]
fn ping() {
    let client = client();

    let (path, body) = client.ping_request();
    assert_eq!(path, "/ping");
    assert_body(&body, "{}");

    let response = r#"
        {
            "status": "SUCCESS",
            "yourIp": "1337"
        }
        "#;
    let addr = ping_response(200, response);

    assert!(ping_response(200, response).is_ok());
    assert_eq!(addr.unwrap(), "1337");
}

#[test]
fn get_records() {
    let client = client();

    let (path, body) = client.records_request("borseth.ink");
    assert_eq!(path, "/dns/retrieve/borseth.ink");
    assert_body(&body, "{}");

    let response = r#"{
        "status": "SUCCESS",
        "records": [
            {
                "id": "106926652",
                "name": "borseth.ink",
                "type": "A",
                "content": "1.1.1.1",
                "ttl": "300",
                "prio": "0",
                "notes": ""
            },
            {
                "id": "106926659",
                "name": "www.borseth.ink",
                "type": "A",
                "content": "1.1.1.1",
                "ttl": "300",
                "prio": "0",
                "notes": ""
            }
        ]
    }"#;
    let records = records_response(200, response);

    assert!(records.is_ok());
    let records = records.unwrap();
    assert_eq!(records.len(), 2);
    assert_eq!(records[0].id, 106926652);
    assert_eq!(records[0].name, "borseth.ink");
    assert!(records[0].typ == RecordType::A);
    assert_eq!(records[0].content, "1.1.1.1");
    assert_eq!(records[0].ttl, 300);
    assert_eq!(records[0].priority, 0);
    assert_eq!(records[1].id, 106926659);
    assert_eq!(records[1].name, "www.borseth.ink");
    assert!(records[1].typ == RecordType::A);
    assert_eq!(records[1].content, "1.1.1.1");
    assert_eq!(records[1].ttl, 300);
    assert_eq!(records[1].priority, 0);
}

#[test]
fn edit_record() {
    let client = client();

    let record = Record {
        id: 106926659,
        name: "www".to_string(),
        typ: RecordType::A,
        content: "1.1.1.1".to_string(),
        ttl: 300,
        priority: 0,
    };
    let (path, body) = client.edit_record_request("borseth.ink", &record, "1.1.1.2");
    assert_eq!(path, "/dns/edit/borseth.ink/106926659");
    assert_body(
        &body,
        r#"{
            "name": "www",
            "type": "A",
            "content": "1.1.1.2",
            "ttl": "300",
            "prio": "0"
        }"#,
    );

    let res = write_response(200, r#"{"status": "SUCCESS"}"#);
    assert!(res.is_ok());
}

#[test]
fn create_record() {
    let client = client();

    let record = Record {
        id: 0,
        name: "www".to_string(),
        typ: RecordType::A,
        content: "1.1.1.1".to_string(),
        ttl: 300,
        priority: 0,
    };
    let (path, body) = client.create_record_request("borseth.ink", &record);
    assert_eq!(path, "/dns/create/borseth.ink");
    assert_body(
        &body,
        r#"{
            "name": "www",
            "type": "A",
            "content": "1.1.1.1",
            "ttl": "300",
            "prio": "0"
        }"#,
    );

    let res = write_response(200, r#"{"status": "SUCCESS", "id": "106926659"}"#);
    assert!(res.is_ok());
}

#[test]
fn provider_message_becomes_the_failure_text() {
    let text = error_message(403, r#"{"message": "Invalid API key"}"#);
    assert_eq!(text, "Invalid API key");

    match ping_response(403, r#"{"message": "Invalid API key"}"#) {
        Err(ApiError::Status { message }) => assert_eq!(message, "Invalid API key"),
        other => panic!("expected a status failure, got {:?}", other),
    }

    match write_response(400, r#"{"status": "ERROR", "message": "no such record"}"#) {
        Err(ApiError::Status { message }) => assert_eq!(message, "no such record"),
        other => panic!("expected a status failure, got {:?}", other),
    }
}

#[test]
fn missing_message_names_the_status_code() {
    let text = error_message(500, "not even json");
    assert_eq!(text, "No message provided (status code: 500)");

    match ping_response(500, "{}") {
        Err(ApiError::Status { message }) => {
            assert_eq!(message, "No message provided (status code: 500)")
        }
        other => panic!("expected a status failure, got {:?}", other),
    }
}

#[test]
fn success_without_payload_is_a_decode_failure() {
    match ping_response(200, r#"{"status": "SUCCESS"}"#) {
        Err(ApiError::Decode { message }) => assert_eq!(message, "Failed to deserialize body"),
        other => panic!("expected a decode failure, got {:?}", other),
    }
    match records_response(200, r#"{"status": "SUCCESS"}"#) {
        Err(ApiError::Decode { message }) => assert_eq!(message, "Failed to deserialize body"),
        other => panic!("expected a decode failure, got {:?}", other),
    }
}

#[test]
fn record_decode_failures_name_the_field() {
    let body = r#"{
        "status": "SUCCESS",
        "records": [
            {"id": "1", "name": "a", "type": "A", "content": "1.1.1.1", "ttl": "soon", "prio": "0"}
        ]
    }"#;
    match records_response(200, body) {
        Err(ApiError::Decode { message }) => assert_eq!(message, "invalid number in field ttl"),
        other => panic!("expected a decode failure, got {:?}", other),
    }
}
