//! The provider client: owns the credentials, builds each of the four
//! authenticated requests of the remote API, and interprets each response.
//! The HTTP exchange itself is outside the library; a caller sends the
//! built request and hands the status and body text back to the response
//! functions here.

use vstd::prelude::*;

use crate::codec::{
    envelope_fields, record_fields, serialize, spec_decimal, spec_decode_all,
    spec_decode_error_text, spec_envelope, spec_record_fields, DecodeOutcome,
};
use crate::json::{fields_to_json, get_string_field, object_text, string_field_of, object_array_of};
use crate::record::{Record, RecordModel};

verus! {

/// One outbound call: the path under the API base, and the JSON body.
pub struct RequestModel {
    pub path: Seq<char>,
    pub body: Seq<char>,
}

/// The model of a built (path, body) pair.
pub open spec fn req_view(r: (String, String)) -> RequestModel {
    RequestModel { path: r.0@, body: r.1@ }
}

/// The identity-check request: an empty payload, so the body carries the
/// two credential fields alone.
pub open spec fn spec_ping_request(api_key: Seq<char>, secret_api_key: Seq<char>) -> RequestModel {
    RequestModel {
        path: "/ping"@,
        body: object_text(spec_envelope(api_key, secret_api_key, Seq::empty())),
    }
}

/// The zone-retrieval request for a domain: an empty payload.
pub open spec fn spec_records_request(
    api_key: Seq<char>,
    secret_api_key: Seq<char>,
    domain: Seq<char>,
) -> RequestModel {
    RequestModel {
        path: "/dns/retrieve/"@ + domain,
        body: object_text(spec_envelope(api_key, secret_api_key, Seq::empty())),
    }
}

/// The edit request: addressed by domain and the record's id, carrying the
/// record's payload with `content` replaced and every other field unchanged.
pub open spec fn spec_edit_request(
    api_key: Seq<char>,
    secret_api_key: Seq<char>,
    domain: Seq<char>,
    record: RecordModel,
    new_content: Seq<char>,
) -> RequestModel {
    RequestModel {
        path: "/dns/edit/"@ + domain + "/"@ + spec_decimal(record.id as int),
        body: object_text(
            spec_envelope(
                api_key,
                secret_api_key,
                spec_record_fields(RecordModel { content: new_content, ..record }),
            ),
        ),
    }
}

/// The creation request: addressed by domain, carrying the record's payload
/// (the id is never part of a payload; the provider assigns one).
pub open spec fn spec_create_request(
    api_key: Seq<char>,
    secret_api_key: Seq<char>,
    domain: Seq<char>,
    record: RecordModel,
) -> RequestModel {
    RequestModel {
        path: "/dns/create/"@ + domain,
        body: object_text(spec_envelope(api_key, secret_api_key, spec_record_fields(record))),
    }
}

/// The provider client: the credentials every request carries.
pub struct Porkbun {
    pub api_key: String,
    pub secret_api_key: String,
}

impl Porkbun {
    pub fn new(api_key: String, secret_api_key: String) -> (r: Self)
        ensures
            r.api_key == api_key,
            r.secret_api_key == secret_api_key,
    {
        Porkbun { api_key, secret_api_key }
    }

    fn empty_body(&self) -> (r: String)
        ensures
            r@ == object_text(spec_envelope(self.api_key@, self.secret_api_key@, Seq::empty())),
    {
        let empty: Vec<(String, String)> = Vec::new();
        proof {
            assert(empty.deep_view() =~= Seq::<(Seq<char>, Seq<char>)>::empty());
        }
        let fields = envelope_fields(&self.api_key, &self.secret_api_key, empty);
        fields_to_json(&fields)
    }

    /// Builds the identity-check request.
    pub fn ping_request(&self) -> (r: (String, String))
        ensures
            req_view(r) == spec_ping_request(self.api_key@, self.secret_api_key@),
    {
        ("/ping".to_owned(), self.empty_body())
    }

    /// Builds the zone-retrieval request for a domain.
    pub fn records_request(&self, domain: &str) -> (r: (String, String))
        ensures
            req_view(r) == spec_records_request(self.api_key@, self.secret_api_key@, domain@),
    {
        let mut path = "/dns/retrieve/".to_owned();
        path.append(domain);
        (path, self.empty_body())
    }

    /// Builds the edit request for a record, with its content replaced and
    /// all other fields echoed back unchanged.
    pub fn edit_record_request(&self, domain: &str, record: &Record, new_content: &str) -> (r: (
        String,
        String,
    ))
        ensures
            req_view(r) == spec_edit_request(
                self.api_key@,
                self.secret_api_key@,
                domain@,
                record@,
                new_content@,
            ),
    {
        let mut path = "/dns/edit/".to_owned();
        path.append(domain);
        path.append("/");
        let id_text = serialize(record.id);
        path.append(id_text.as_str());
        let mut updated = record.clone();
        updated.content = new_content.to_owned();
        let payload = record_fields(&updated);
        let fields = envelope_fields(&self.api_key, &self.secret_api_key, payload);
        proof {
            assert(updated@ == RecordModel { content: new_content@, ..record@ });
        }
        (path, fields_to_json(&fields))
    }

    /// Builds the creation request for a record.
    pub fn create_record_request(&self, domain: &str, record: &Record) -> (r: (String, String))
        ensures
            req_view(r) == spec_create_request(
                self.api_key@,
                self.secret_api_key@,
                domain@,
                record@,
            ),
    {
        let mut path = "/dns/create/".to_owned();
        path.append(domain);
        let payload = record_fields(record);
        let fields = envelope_fields(&self.api_key, &self.secret_api_key, payload);
        (path, fields_to_json(&fields))
    }
}

/// Whether an HTTP status is a success for this API (client and server
/// error statuses are failures; redirects are handled by the transport).
pub open spec fn status_ok(status: u16) -> bool {
    200 <= status < 400
}

/// One opaque failure channel: each kind is distinguishable, but callers
/// only branch on success or failure and report the message.
#[derive(Debug)]
pub enum ApiError {
    /// The provider answered with a non-success HTTP status.
    Status { message: String },
    /// A response body could not be decoded.
    Decode { message: String },
    /// The transport could not complete the exchange at all.
    Transport { message: String },
}

/// The message an error surfaces.
pub open spec fn spec_api_error_text(e: ApiError) -> Seq<char> {
    match e {
        ApiError::Status { message } => message@,
        ApiError::Decode { message } => message@,
        ApiError::Transport { message } => message@,
    }
}

impl ApiError {
    /// The human-readable description of this failure.
    pub fn text(&self) -> (r: String)
        ensures
            r@ == spec_api_error_text(*self),
    {
        match self {
            ApiError::Status { message } => message.clone(),
            ApiError::Decode { message } => message.clone(),
            ApiError::Transport { message } => message.clone(),
        }
    }
}

/// The failure text of a non-success response: the provider's `message`
/// field when the body carries one, else a placeholder naming the status.
pub open spec fn spec_error_message(status: u16, body: Seq<char>) -> Seq<char> {
    match string_field_of(body, "message"@) {
        Some(m) => m,
        None => "No message provided (status code: "@ + spec_decimal(status as int) + ")"@,
    }
}

/// Extracts the failure text of a non-success response.
pub fn error_message(status: u16, body: &str) -> (r: String)
    ensures
        r@ == spec_error_message(status, body@),
{
    match get_string_field(body, "message") {
        Some(m) => m,
        None => {
            let mut s = "No message provided (status code: ".to_owned();
            let code = serialize(status as u32);
            s.append(code.as_str());
            s.append(")");
            s
        },
    }
}

/// What every response function states of a failed exchange: a non-success
/// status becomes a status error carrying `spec_error_message`.
pub open spec fn status_failure(r: ApiError, status: u16, body: Seq<char>) -> bool {
    r matches ApiError::Status { message } && message@ == spec_error_message(status, body)
}

/// Interprets the identity-check response: the caller's public IP address
/// as the provider reports it in the `yourIp` field.
pub fn ping_response(status: u16, body: &str) -> (r: Result<String, ApiError>)
    ensures
        !status_ok(status) ==> (r matches Err(e) && status_failure(e, status, body@)),
        status_ok(status) ==> match r {
            Ok(ip) => string_field_of(body@, "yourIp"@) == Some(ip@),
            Err(e) => string_field_of(body@, "yourIp"@) is None && (e matches ApiError::Decode {
                message,
            } && message@ == "Failed to deserialize body"@),
        },
{
    if !(200 <= status && status < 400) {
        return Err(ApiError::Status { message: error_message(status, body) });
    }
    match get_string_field(body, "yourIp") {
        Some(ip) => Ok(ip),
        None => Err(ApiError::Decode { message: "Failed to deserialize body".to_owned() }),
    }
}

/// Interprets a zone-retrieval response: the `records` array decoded into
/// the record model, in the provider's order.
pub fn records_response(status: u16, body: &str) -> (r: Result<Vec<Record>, ApiError>)
    ensures
        !status_ok(status) ==> (r matches Err(e) && status_failure(e, status, body@)),
        status_ok(status) ==> match r {
            Ok(recs) => object_array_of(body@, "records"@) matches Some(objs)
                && spec_decode_all(objs) == Ok::<_, DecodeOutcome>(
                crate::record::records_view(recs@),
            ),
            Err(e) => e matches ApiError::Decode { message } && match object_array_of(
                body@,
                "records"@,
            ) {
                Some(objs) => spec_decode_all(objs) matches Err(failure) && message@
                    == spec_decode_error_text(failure),
                None => message@ == "Failed to deserialize body"@,
            },
        },
{
    if !(200 <= status && status < 400) {
        return Err(ApiError::Status { message: error_message(status, body) });
    }
    match crate::json::get_object_array(body, "records") {
        Some(objs) => match crate::codec::decode_records(&objs) {
            Ok(recs) => Ok(recs),
            Err(e) => Err(ApiError::Decode { message: e.text() }),
        },
        None => Err(ApiError::Decode { message: "Failed to deserialize body".to_owned() }),
    }
}

/// Interprets an edit or creation response: no payload is read beyond
/// envelope-level error detection, so success is the status alone.
pub fn write_response(status: u16, body: &str) -> (r: Result<(), ApiError>)
    ensures
        r is Ok <==> status_ok(status),
        !status_ok(status) ==> (r matches Err(e) && status_failure(e, status, body@)),
{
    if !(200 <= status && status < 400) {
        return Err(ApiError::Status { message: error_message(status, body) });
    }
    Ok(())
}

} // verus!
