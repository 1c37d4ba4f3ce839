use webhook_core::codec::{b64_round_trip, bytes_before_colon, parse_ip};
use webhook_core::errors::{CreateError, EditError, Problem, ShowError, UnexpectedError};
use webhook_core::iam::{can_access_application, Role};
use webhook_core::ingest::{
    get, ingest, list, ApplicationSecret, ContentTypeLookup, EventPost, EventRaw, EventStore,
    EventWithPayloadRaw, IngestedEvent,
};
use webhook_core::json::JsonValue;
use webhook_core::worker::{
    backoff_seconds, select_next, settle, truncate_response_body, try_claim, worker_iteration,
    AttemptRow, RequestAttempt, Response, ResponseErrorKind, MAXIMUM_RETRY_DELAY_SECONDS,
    MINIMUM_RETRY_DELAY_SECONDS, POLLING_SLEEP_SECONDS, RESPONSE_BODY_MAX_BYTES,
};

fn secret() -> ApplicationSecret {
    ApplicationSecret {
        name: Some("default".to_owned()),
        token: 0x5eC4e7,
        created_at: 1_600_000_000,
        deleted_at: None,
    }
}

fn labels_object() -> JsonValue {
    JsonValue::Object(vec![("k".to_owned(), JsonValue::Str("v".to_owned()))])
}

fn post(payload: &str, content_type: &str, metadata: Option<JsonValue>, labels: JsonValue) -> EventPost {
    EventPost {
        application_id: 0xA1,
        event_id: 0x11111111_11111111_11111111_11111111,
        event_type: "user.created".to_owned(),
        payload: payload.to_owned(),
        payload_content_type: content_type.to_owned(),
        metadata,
        occurred_at: 1_650_000_000,
        application_secret: 0x5eC4e7,
        labels,
    }
}

fn pending_attempt(id: u128, created_at: i64, retry_count: i16, delay_until: Option<i64>) -> AttemptRow {
    AttemptRow {
        request_attempt__id: id,
        event__id: 0xE1,
        subscription__id: 0x5B,
        created_at,
        retry_count,
        delay_until,
        picked_at: None,
        worker_id: None,
        worker_version: None,
        succeeded_at: None,
        failed_at: None,
        response_id: None,
    }
}

fn status_response(code: u16) -> Response {
    Response {
        response_error_kind: None,
        http_code: Some(code),
        headers: Some(JsonValue::Object(vec![])),
        body: Some(b"ok".to_vec()),
        elapsed_time_ms: 12,
    }
}

#[test]
fn error_status_codes() {
    assert_eq!(UnexpectedError::InternalServerError.status_code(), 500);
    assert_eq!(ShowError::NotFound.status_code(), 404);
    assert_eq!(ShowError::InternalServerError.status_code(), 500);
    assert_eq!(CreateError::BadRequest.status_code(), 400);
    assert_eq!(EditError::NotFound.status_code(), 404);
    assert_eq!(Problem::Forbidden.status_code(), 403);
    assert_eq!(Problem::Conflict.status_code(), 409);
    assert_eq!(Problem::EventInvalidBase64Payload.status_code(), 400);
}

#[test]
fn roles_order_decides_access() {
    assert!(can_access_application(Some(Role::Viewer), Role::Viewer));
    assert!(can_access_application(Some(Role::Editor), Role::Viewer));
    assert!(can_access_application(Some(Role::Owner), Role::Editor));
    assert!(!can_access_application(Some(Role::Viewer), Role::Editor));
    assert!(!can_access_application(Some(Role::Editor), Role::Owner));
    assert!(!can_access_application(None, Role::Viewer));
}

#[test]
fn backoff_schedule_bounds() {
    assert_eq!(MINIMUM_RETRY_DELAY_SECONDS, 5);
    assert_eq!(MAXIMUM_RETRY_DELAY_SECONDS, 300);
    assert_eq!(POLLING_SLEEP_SECONDS, 1);
    assert_eq!(backoff_seconds(-3), 5);
    assert_eq!(backoff_seconds(0), 5);
    assert_eq!(backoff_seconds(1), 5);
    assert_eq!(backoff_seconds(2), 10);
    assert_eq!(backoff_seconds(59), 295);
    assert_eq!(backoff_seconds(60), 300);
    assert_eq!(backoff_seconds(1000), 300);
    let mut last = 0;
    for n in 0..200 {
        let b = backoff_seconds(n);
        assert!((5..=300).contains(&b));
        assert!(b >= last);
        last = b;
    }
}

#[test]
fn happy_path_claims_and_completes() {
    // S1: one eligible attempt, a 200 response, no successor.
    let mut row = pending_attempt(1, 100, 0, None);
    let wid = "worker-a".to_owned();
    let wver = "1.0.0".to_owned();
    assert!(try_claim(&mut row, 200, &wid, &wver));
    assert_eq!(row.picked_at, Some(200));
    assert_eq!(row.worker_id.as_deref(), Some("worker-a"));
    let response = status_response(200);
    assert!(response.is_success());
    assert_eq!(response.http_code(), Some(200));
    assert!(response.response_error__name().is_none());
    let successor = settle(&mut row, true, 0xD1, 0xFF, 210);
    assert!(successor.is_none());
    assert_eq!(row.succeeded_at, Some(210));
    assert_eq!(row.failed_at, None);
    assert_eq!(row.response_id, Some(0xD1));
}

#[test]
fn retry_path_schedules_successor() {
    // S2: a 500 response fails the attempt and schedules a retry at +5s.
    let mut row = pending_attempt(1, 100, 0, None);
    let wid = "worker-a".to_owned();
    let wver = "1.0.0".to_owned();
    assert!(try_claim(&mut row, 200, &wid, &wver));
    let response = status_response(500);
    assert!(!response.is_success());
    let successor = settle(&mut row, false, 0xD2, 0xA2, 210).expect("successor expected");
    assert_eq!(row.failed_at, Some(210));
    assert_eq!(row.succeeded_at, None);
    assert_eq!(successor.request_attempt__id, 0xA2);
    assert_eq!(successor.event__id, row.event__id);
    assert_eq!(successor.subscription__id, row.subscription__id);
    assert_eq!(successor.retry_count, 1);
    assert_eq!(successor.created_at, 210);
    assert_eq!(successor.delay_until, Some(210 + 5));
    assert_eq!(successor.picked_at, None);
    assert_eq!(successor.succeeded_at, None);
    assert_eq!(successor.failed_at, None);
}

#[test]
fn backoff_ceiling_on_successors() {
    // S3: retry counts 59, 60 and 1000 give deltas 295, 300 and 300.
    for (count, delta) in [(59i16, 295i64), (60, 300), (1000, 300)] {
        let mut row = pending_attempt(1, 100, count, None);
        let wid = "w".to_owned();
        let wver = "v".to_owned();
        assert!(try_claim(&mut row, 200, &wid, &wver));
        let successor = settle(&mut row, false, 1, 2, 500).expect("successor expected");
        let failed_at = row.failed_at.expect("failed_at set");
        assert_eq!(successor.delay_until.expect("delayed") - failed_at, delta);
        assert_eq!(successor.retry_count, count + 1);
    }
}

#[test]
fn ingest_validation_errors() {
    // S4: bad base64, non-object labels, unregistered content type.
    let one = ContentTypeLookup { nb: Some(1) };
    let r = ingest(Some(secret()), ContentTypeLookup { nb: Some(1) },
        post("!!!not-base64", "text/plain", None, labels_object()),
        Some("1.2.3.4".to_owned()));
    assert_eq!(r.err(), Some(Problem::EventInvalidBase64Payload));

    let bad_labels = JsonValue::Array(vec![JsonValue::Str("a".to_owned())]);
    let r = ingest(Some(secret()), one,
        post("aGk=", "text/plain", None, bad_labels),
        Some("1.2.3.4".to_owned()));
    assert_eq!(r.err(), Some(Problem::EventInvalidLabels));

    let r = ingest(Some(secret()), ContentTypeLookup { nb: Some(0) },
        post("aGk=", "application/unobtanium", None, labels_object()),
        Some("1.2.3.4".to_owned()));
    assert_eq!(r.err(), Some(Problem::EventInvalidPayloadContentType));

    let r = ingest(Some(secret()), ContentTypeLookup { nb: Some(1) },
        post("aGk=", "text/plain", Some(JsonValue::Int(3)), labels_object()),
        Some("1.2.3.4".to_owned()));
    assert_eq!(r.err(), Some(Problem::EventInvalidMetadata));

    let r = ingest(None, ContentTypeLookup { nb: Some(1) },
        post("aGk=", "text/plain", None, labels_object()),
        Some("1.2.3.4".to_owned()));
    assert_eq!(r.err(), Some(Problem::Forbidden));
}

#[test]
fn ingest_error_priority_follows_check_order() {
    // All four checks fail at once: the content type error wins, then
    // base64, then metadata, then labels.
    let bad_labels = JsonValue::Array(vec![]);
    let bad_meta = Some(JsonValue::Int(1));
    let r = ingest(Some(secret()), ContentTypeLookup { nb: None },
        post("!!!", "x", bad_meta, bad_labels),
        None);
    assert_eq!(r.err(), Some(Problem::EventInvalidPayloadContentType));

    let r = ingest(Some(secret()), ContentTypeLookup { nb: Some(1) },
        post("!!!", "text/plain", Some(JsonValue::Int(1)), JsonValue::Array(vec![])),
        None);
    assert_eq!(r.err(), Some(Problem::EventInvalidBase64Payload));

    let r = ingest(Some(secret()), ContentTypeLookup { nb: Some(1) },
        post("aGk=", "text/plain", Some(JsonValue::Int(1)), JsonValue::Array(vec![])),
        None);
    assert_eq!(r.err(), Some(Problem::EventInvalidMetadata));
}

#[test]
fn ingest_happy_path_decodes_and_extracts_ip() {
    let r = ingest(Some(secret()), ContentTypeLookup { nb: Some(1) },
        post("aGk=", "text/plain", None, labels_object()),
        Some("1.2.3.4:56789".to_owned()));
    let ev = r.expect("ingest should succeed");
    assert_eq!(ev.payload, b"hi".to_vec());
    assert_eq!(ev.ip, "1.2.3.4");
    assert_eq!(ev.application_id, 0xA1);
    assert_eq!(ev.application_secret_token, 0x5eC4e7);
    assert_eq!(ev.event_type, "user.created");
}

#[test]
fn ingest_ip_failures_are_internal_errors() {
    let r = ingest(Some(secret()), ContentTypeLookup { nb: Some(1) },
        post("aGk=", "text/plain", None, labels_object()),
        None);
    assert_eq!(r.err(), Some(Problem::InternalServerError));

    let r = ingest(Some(secret()), ContentTypeLookup { nb: Some(1) },
        post("aGk=", "text/plain", None, labels_object()),
        Some("not-an-address".to_owned()));
    assert_eq!(r.err(), Some(Problem::InternalServerError));
}

#[test]
fn ingest_ip_parse_normalizes() {
    // The parsed network's address is recorded, not the raw peer string.
    let r = ingest(Some(secret()), ContentTypeLookup { nb: Some(1) },
        post("aGk=", "text/plain", None, labels_object()),
        Some("10.0.0.8/8".to_owned()));
    let ev = r.expect("ingest should succeed");
    assert_eq!(ev.ip, "10.0.0.8");
}

#[test]
fn duplicate_ingest_conflicts() {
    // P6: the second commit of one key collides and changes nothing.
    let mut store = EventStore { keys: Vec::new() };
    assert!(store.insert_event(0xA1, 0xE1).is_ok());
    assert_eq!(store.insert_event(0xA1, 0xE1).err(), Some(Problem::Conflict));
    assert_eq!(store.keys.len(), 1);
    assert!(store.insert_event(0xA1, 0xE2).is_ok());
    assert_eq!(store.keys.len(), 2);
}

#[test]
fn payload_round_trip() {
    // P7: any byte string survives the trip through base64.
    for p in [b"".to_vec(), b"hi".to_vec(), vec![0u8, 255, 17, 3, 128], (0u8..=255).collect()] {
        assert_eq!(b64_round_trip(&p), Some(p.clone()));
    }
}

#[test]
fn payload_travels_encoded() {
    let raw = EventWithPayloadRaw {
        event__id: 0xE1,
        event_type__name: "t".to_owned(),
        payload: b"hi".to_vec(),
        payload_content_type__name: "text/plain".to_owned(),
        ip: "1.2.3.4".to_owned(),
        metadata: None,
        occurred_at: 1,
        received_at: 2,
        application_secret__token: 3,
        labels: labels_object(),
    };
    let ev = raw.to_event();
    assert_eq!(ev.payload, "aGk=");
}

#[test]
fn list_and_get_respect_access() {
    assert_eq!(list(None, Vec::new()).err(), Some(Problem::Forbidden));
    assert_eq!(get(None, None).err(), Some(Problem::Forbidden));
    assert_eq!(get(Some(Role::Viewer), None).err(), Some(Problem::NotFound));

    let raw = EventRaw {
        event__id: 0xE1,
        event_type__name: "t".to_owned(),
        payload_content_type__name: "text/plain".to_owned(),
        ip: "1.2.3.4".to_owned(),
        metadata: None,
        occurred_at: 1,
        received_at: 2,
        application_secret__token: 3,
        labels: labels_object(),
    };
    let events = list(Some(Role::Owner), vec![raw]).expect("allowed");
    assert_eq!(events.len(), 1);
    assert_eq!(events[0].event_id, 0xE1);
    assert_eq!(events[0].ip, "1.2.3.4");
}

#[test]
fn concurrent_workers_claim_once() {
    // S5 / P3: two workers race; exactly one claim succeeds.
    let mut row = pending_attempt(1, 100, 0, None);
    let first = "worker-a".to_owned();
    let second = "worker-b".to_owned();
    let ver = "1.0.0".to_owned();
    assert!(try_claim(&mut row, 200, &first, &ver));
    assert!(!try_claim(&mut row, 201, &second, &ver));
    assert_eq!(row.worker_id.as_deref(), Some("worker-a"));
    assert_eq!(row.picked_at, Some(200));
}

#[test]
fn selector_takes_oldest_eligible() {
    // P2: with two eligible attempts the older one is picked first.
    let rows = vec![
        pending_attempt(1, 300, 0, None),
        pending_attempt(2, 100, 0, None),
        pending_attempt(3, 200, 0, Some(999)), // not due yet
    ];
    assert_eq!(select_next(&rows, 500), Some(1));
    let mut done = pending_attempt(4, 50, 0, None);
    let w = "w".to_owned();
    let v = "v".to_owned();
    assert!(try_claim(&mut done, 60, &w, &v));
    let _ = settle(&mut done, true, 1, 2, 70);
    let rows = vec![done, pending_attempt(5, 400, 0, Some(600))];
    assert_eq!(select_next(&rows, 500), None);
}

#[test]
fn worker_iteration_completes_or_reschedules() {
    let wid = "worker-a".to_owned();
    let wver = "1.0.0".to_owned();

    // A 200 response completes the oldest eligible attempt; nothing is added.
    let mut rows = vec![pending_attempt(1, 300, 0, None), pending_attempt(2, 100, 0, None)];
    let k = worker_iteration(&mut rows, 500, &wid, &wver, true, 0xD1, 0xA9, 510);
    assert_eq!(k, Some(1));
    assert_eq!(rows.len(), 2);
    assert_eq!(rows[1].succeeded_at, Some(510));
    assert_eq!(rows[1].picked_at, Some(500));
    assert_eq!(rows[1].worker_id.as_deref(), Some("worker-a"));
    assert_eq!(rows[0].succeeded_at, None);

    // A failure appends the successor; an empty backlog is left untouched.
    let mut rows = vec![pending_attempt(1, 300, 2, None)];
    let k = worker_iteration(&mut rows, 500, &wid, &wver, false, 0xD2, 0xA9, 510);
    assert_eq!(k, Some(0));
    assert_eq!(rows.len(), 2);
    assert_eq!(rows[0].failed_at, Some(510));
    assert_eq!(rows[1].request_attempt__id, 0xA9);
    assert_eq!(rows[1].retry_count, 3);
    assert_eq!(rows[1].delay_until, Some(510 + 10));

    let mut rows = vec![pending_attempt(1, 300, 0, Some(900))];
    let k = worker_iteration(&mut rows, 500, &wid, &wver, true, 0xD3, 0xA9, 510);
    assert_eq!(k, None);
    assert_eq!(rows.len(), 1);
    assert_eq!(rows[0].picked_at, None);
}

#[test]
fn committed_event_report() {
    let r = ingest(Some(secret()), ContentTypeLookup { nb: Some(1) },
        post("aGk=", "text/plain", None, labels_object()),
        Some("1.2.3.4".to_owned()));
    let ev = r.expect("ingest should succeed");
    let record = IngestedEvent::of_committed(&ev, 1_700_000_000);
    assert_eq!(record.application_id, 0xA1);
    assert_eq!(record.event_id, 0x11111111_11111111_11111111_11111111);
    assert_eq!(record.received_at, 1_700_000_000);
}

#[test]
fn terminal_states_exclude_each_other() {
    // P1: whatever the outcome, only one terminal timestamp is set.
    for success in [true, false] {
        let mut row = pending_attempt(1, 100, 0, None);
        let w = "w".to_owned();
        let v = "v".to_owned();
        assert!(try_claim(&mut row, 200, &w, &v));
        let _ = settle(&mut row, success, 1, 2, 210);
        assert!(!(row.succeeded_at.is_some() && row.failed_at.is_some()));
        assert!(row.picked_at.is_some());
    }
}

#[test]
fn network_failure_is_recorded_not_raised() {
    // S6: a refused connection becomes a failed attempt plus a retry at +5s.
    let response = Response {
        response_error_kind: Some(ResponseErrorKind::ConnectionError),
        http_code: None,
        headers: None,
        body: None,
        elapsed_time_ms: 0,
    };
    assert!(!response.is_success());
    assert_eq!(response.response_error__name().as_deref(), Some("E_CONNECTION"));
    assert_eq!(response.http_code(), None);
    assert_eq!(response.elapsed_time_ms(), 0);
    let mut row = pending_attempt(1, 100, 0, None);
    let w = "w".to_owned();
    let v = "v".to_owned();
    assert!(try_claim(&mut row, 200, &w, &v));
    let successor = settle(&mut row, response.is_success(), 7, 8, 210).expect("retry");
    assert_eq!(row.failed_at, Some(210));
    assert_eq!(successor.delay_until, Some(215));
}

#[test]
fn success_window_is_2xx() {
    for (code, ok) in [(199u16, false), (200, true), (204, true), (299, true), (300, false), (500, false)] {
        assert_eq!(status_response(code).is_success(), ok, "code {code}");
    }
    let mut r = status_response(200);
    r.response_error_kind = Some(ResponseErrorKind::Timeout);
    assert!(!r.is_success());
    r.http_code = None;
    r.response_error_kind = None;
    assert!(!r.is_success());
}

#[test]
fn error_kind_names() {
    assert_eq!(ResponseErrorKind::Timeout.name(), "E_TIMEOUT");
    assert_eq!(ResponseErrorKind::InvalidHeaders.name(), "E_INVALID_HEADERS");
    assert_eq!(ResponseErrorKind::InvalidUrl.name(), "E_INVALID_URL");
    assert_eq!(ResponseErrorKind::TooManyRedirects.name(), "E_TOO_MANY_REDIRECTS");
    assert_eq!(ResponseErrorKind::OtherTransport.name(), "E_OTHER_TRANSPORT");
}

#[test]
fn response_body_is_capped() {
    let mut body = vec![7u8; RESPONSE_BODY_MAX_BYTES + 5000];
    truncate_response_body(&mut body);
    assert_eq!(body.len(), RESPONSE_BODY_MAX_BYTES);
    let mut small = b"ok".to_vec();
    truncate_response_body(&mut small);
    assert_eq!(small, b"ok".to_vec());
}

fn attempt_with_headers(headers: JsonValue) -> RequestAttempt {
    RequestAttempt {
        request_attempt__id: 1,
        event__id: 2,
        subscription__id: 3,
        created_at: 4,
        retry_count: 0,
        http_method: "POST".to_owned(),
        http_url: "http://t/".to_owned(),
        http_headers: headers,
        payload: b"hi".to_vec(),
        payload_content_type: "text/plain".to_owned(),
    }
}

#[test]
fn target_headers_parse_from_json_object() {
    let attempt = attempt_with_headers(JsonValue::Object(vec![(
        "X-Token".to_owned(),
        JsonValue::Str("abc".to_owned()),
    )]));
    let headers = attempt.headers().expect("object of strings");
    assert_eq!(headers, vec![("X-Token".to_owned(), "abc".to_owned())]);

    let bad = attempt_with_headers(JsonValue::Object(vec![(
        "X-Token".to_owned(),
        JsonValue::Int(5),
    )]));
    assert!(bad.headers().is_none());
    let not_object = attempt_with_headers(JsonValue::Array(vec![]));
    assert!(not_object.headers().is_none());
}

#[test]
fn content_type_defaults_unless_present() {
    let attempt = attempt_with_headers(JsonValue::Object(vec![(
        "X-Token".to_owned(),
        JsonValue::Str("abc".to_owned()),
    )]));
    let headers = attempt.request_headers().expect("valid");
    assert_eq!(headers.len(), 2);
    assert_eq!(headers[1], ("content-type".to_owned(), "text/plain".to_owned()));

    // Headers take precedence, whatever the case of the name.
    let attempt = attempt_with_headers(JsonValue::Object(vec![(
        "CONTENT-TYPE".to_owned(),
        JsonValue::Str("application/json".to_owned()),
    )]));
    let headers = attempt.request_headers().expect("valid");
    assert_eq!(headers.len(), 1);
    assert_eq!(headers[0].1, "application/json");
}

#[test]
fn outbound_request_carries_attempt_data() {
    let attempt = attempt_with_headers(JsonValue::Object(vec![(
        "X-Token".to_owned(),
        JsonValue::Str("abc".to_owned()),
    )]));
    let request = attempt.build_request().expect("valid headers");
    assert_eq!(request.method, "POST");
    assert_eq!(request.url, "http://t/");
    assert_eq!(request.body, b"hi".to_vec());
    assert_eq!(request.headers.len(), 2);
    assert_eq!(request.headers[0], ("X-Token".to_owned(), "abc".to_owned()));
    assert_eq!(request.headers[1].0, "content-type");

    let bad = attempt_with_headers(JsonValue::Str("nope".to_owned()));
    assert_eq!(bad.build_request().err(), Some(ResponseErrorKind::InvalidHeaders));
}

#[test]
fn peer_address_loses_port_suffix() {
    assert_eq!(bytes_before_colon(b"1.2.3.4:56"), b"1.2.3.4".to_vec());
    assert_eq!(bytes_before_colon(b"1.2.3.4"), b"1.2.3.4".to_vec());
    assert_eq!(bytes_before_colon(b""), Vec::<u8>::new());
    assert_eq!(bytes_before_colon(b"::1"), Vec::<u8>::new());
    assert_eq!(parse_ip(&b"1.2.3.4".to_vec()), Some("1.2.3.4".to_owned()));
    assert_eq!(parse_ip(&b"nope".to_vec()), None::<String>);
}
