use dtconn::json::Json;
use dtconn::lifecycle::accepts_new_connections;
use dtconn::lifecycle::lifecycle_step;
use dtconn::lifecycle::LifecycleState;
use dtconn::pipeline::handle_request;
use dtconn::pipeline::plan_request;
use dtconn::pipeline::response_status;
use dtconn::pipeline::severity_for_status;
use dtconn::pipeline::LogSeverity;
use dtconn::pipeline::PipelineError;

const SECRET: &str = "test-secret";

const BODY: &str = "{\"event\":{\"eventId\":\"ev-1\",\"targetName\":\"sensor-1\",\"eventType\":\"temperature\",\"timestamp\":\"2020-01-01T00:00:00Z\",\"data\":{\"n\":1}},\"labels\":{\"env\":\"prod\"}}";

fn make_token(secret: &str) -> String {
    let mut claims = serde_json::Map::new();
    claims.insert(
        "exp".to_string(),
        serde_json::Value::Number(serde_json::Number::from(4102444800u64)),
    );
    jsonwebtoken::encode(
        &jsonwebtoken::Header::default(),
        &serde_json::Value::Object(claims),
        &jsonwebtoken::EncodingKey::from_secret(secret.as_bytes()),
    )
    .unwrap()
}

fn s(x: &str) -> String {
    x.to_string()
}

fn valid_body_json() -> Json {
    Json::Obj(vec![
        (
            s("event"),
            Json::Obj(vec![
                (s("eventId"), Json::Str(s("ev-1"))),
                (s("targetName"), Json::Str(s("sensor-1"))),
                (s("eventType"), Json::Str(s("temperature"))),
                (s("timestamp"), Json::Str(s("2020-01-01T00:00:00Z"))),
                (s("data"), Json::Obj(vec![(s("n"), Json::Num(s("1")))])),
            ]),
        ),
        (s("labels"), Json::Obj(vec![(s("env"), Json::Str(s("prod")))])),
    ])
}

#[test]
fn signed_valid_body_is_planned_with_projected_row() {
    let token = make_token(SECRET);
    let plan = handle_request(BODY, &token, SECRET).unwrap();
    assert_eq!(plan.insert_id, "ev-1");
    assert_eq!(plan.row.event_id, "ev-1");
    assert_eq!(plan.row.target_name, "sensor-1");
    assert_eq!(plan.row.event_type, "temperature");
    assert_eq!(plan.row.timestamp, "2020-01-01T00:00:00Z");
    assert_eq!(plan.row.data, "{\"n\":1}");
    assert_eq!(plan.row.labels, "{\"env\":\"prod\"}");
}

#[test]
fn token_with_empty_claims_verifies() {
    let claims = serde_json::Value::Object(serde_json::Map::new());
    let token = jsonwebtoken::encode(
        &jsonwebtoken::Header::default(),
        &claims,
        &jsonwebtoken::EncodingKey::from_secret(SECRET.as_bytes()),
    )
    .unwrap();
    let plan = handle_request(BODY, &token, SECRET).unwrap();
    assert_eq!(plan.insert_id, "ev-1");
}

#[test]
fn expired_token_still_verifies() {
    let mut claims = serde_json::Map::new();
    claims.insert(
        "exp".to_string(),
        serde_json::Value::Number(serde_json::Number::from(1u64)),
    );
    let token = jsonwebtoken::encode(
        &jsonwebtoken::Header::default(),
        &serde_json::Value::Object(claims),
        &jsonwebtoken::EncodingKey::from_secret(SECRET.as_bytes()),
    )
    .unwrap();
    let plan = handle_request(BODY, &token, SECRET).unwrap();
    assert_eq!(plan.insert_id, "ev-1");
}

#[test]
fn token_signed_with_wrong_secret_is_rejected() {
    let token = make_token("other-secret");
    let r = handle_request(BODY, &token, SECRET);
    assert_eq!(r.unwrap_err(), PipelineError::InvalidSignature);
}

#[test]
fn garbage_token_is_rejected() {
    let r = handle_request(BODY, "not-a-token", SECRET);
    assert_eq!(r.unwrap_err(), PipelineError::InvalidSignature);
}

#[test]
fn malformed_json_body_is_a_bad_request() {
    let token = make_token(SECRET);
    let r = handle_request("{not json", &token, SECRET);
    assert_eq!(r.unwrap_err(), PipelineError::BadRequest);
}

#[test]
fn structurally_invalid_body_is_a_bad_request_even_when_signed() {
    let token = make_token(SECRET);
    let r = handle_request("{\"labels\":{}}", &token, SECRET);
    assert_eq!(r.unwrap_err(), PipelineError::BadRequest);
}

#[test]
fn bad_body_wins_over_bad_signature() {
    let r = handle_request("{not json", "not-a-token", SECRET);
    assert_eq!(r.unwrap_err(), PipelineError::BadRequest);
}

#[test]
fn redelivery_reuses_the_event_id_as_insert_key() {
    let token = make_token(SECRET);
    let first = handle_request(BODY, &token, SECRET).unwrap();
    let second = handle_request(BODY, &token, SECRET).unwrap();
    assert_eq!(first.insert_id, "ev-1");
    assert_eq!(second.insert_id, "ev-1");
    assert_eq!(first.row.data, second.row.data);
}

#[test]
fn distinct_events_keep_their_own_keys() {
    let token = make_token(SECRET);
    let body_b = BODY.replace("ev-1", "ev-2");
    let a = handle_request(BODY, &token, SECRET).unwrap();
    let b = handle_request(&body_b, &token, SECRET).unwrap();
    assert_eq!(a.insert_id, "ev-1");
    assert_eq!(b.insert_id, "ev-2");
}

#[test]
fn plan_request_rejects_unverified_signature() {
    let r = plan_request(valid_body_json(), false);
    assert_eq!(r.unwrap_err(), PipelineError::InvalidSignature);
}

#[test]
fn plan_request_plans_verified_request() {
    let plan = plan_request(valid_body_json(), true).unwrap();
    assert_eq!(plan.insert_id, "ev-1");
    assert_eq!(plan.row.labels, "{\"env\":\"prod\"}");
}

#[test]
fn plan_request_rejects_malformed_body_first() {
    let r = plan_request(Json::Null, false);
    assert_eq!(r.unwrap_err(), PipelineError::BadRequest);
}

#[test]
fn response_statuses_cover_every_outcome() {
    assert_eq!(response_status(&Ok(())), 200);
    assert_eq!(response_status(&Err(PipelineError::BadRequest)), 400);
    assert_eq!(response_status(&Err(PipelineError::InvalidSignature)), 401);
    assert_eq!(response_status(&Err(PipelineError::UpstreamInsert)), 502);
}

#[test]
fn log_severity_follows_status_class() {
    assert_eq!(severity_for_status(200), LogSeverity::Info);
    assert_eq!(severity_for_status(302), LogSeverity::Info);
    assert_eq!(severity_for_status(400), LogSeverity::Warning);
    assert_eq!(severity_for_status(404), LogSeverity::Warning);
    assert_eq!(severity_for_status(500), LogSeverity::Error);
    assert_eq!(severity_for_status(599), LogSeverity::Error);
}

#[test]
fn interrupt_drains_and_draining_is_terminal() {
    let s0 = LifecycleState::Running;
    assert!(accepts_new_connections(s0));
    let s1 = lifecycle_step(s0, false);
    assert_eq!(s1, LifecycleState::Running);
    let s2 = lifecycle_step(s1, true);
    assert_eq!(s2, LifecycleState::Draining);
    assert!(!accepts_new_connections(s2));
    let s3 = lifecycle_step(s2, false);
    assert_eq!(s3, LifecycleState::Draining);
}
