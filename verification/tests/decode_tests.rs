use dtconn::decode::decode_request;
use dtconn::json::Json;

fn s(x: &str) -> String {
    x.to_string()
}

fn event_members() -> Vec<(String, Json)> {
    vec![
        (s("eventId"), Json::Str(s("ev-1"))),
        (s("targetName"), Json::Str(s("sensor-1"))),
        (s("eventType"), Json::Str(s("temperature"))),
        (s("timestamp"), Json::Str(s("2020-01-01T00:00:00Z"))),
        (s("data"), Json::Obj(vec![(s("n"), Json::Num(s("1")))])),
    ]
}

fn valid_request() -> Json {
    Json::Obj(vec![
        (s("event"), Json::Obj(event_members())),
        (s("labels"), Json::Obj(vec![(s("env"), Json::Str(s("prod")))])),
    ])
}

#[test]
fn valid_request_decodes_verbatim() {
    let req = decode_request(valid_request()).unwrap();
    assert_eq!(req.event.event_id, "ev-1");
    assert_eq!(req.event.target_name, "sensor-1");
    assert_eq!(req.event.event_type, "temperature");
    assert_eq!(req.event.timestamp, "2020-01-01T00:00:00Z");
    assert_eq!(req.event.data.len(), 1);
    assert_eq!(req.event.data[0].0, "n");
    assert_eq!(req.labels, vec![(s("env"), s("prod"))]);
}

#[test]
fn body_that_is_not_an_object_is_rejected() {
    assert!(decode_request(Json::Arr(vec![])).is_none());
    assert!(decode_request(Json::Str(s("x"))).is_none());
}

#[test]
fn missing_event_id_is_rejected() {
    let mut members = event_members();
    members.remove(0);
    let j = Json::Obj(vec![
        (s("event"), Json::Obj(members)),
        (s("labels"), Json::Obj(vec![])),
    ]);
    assert!(decode_request(j).is_none());
}

#[test]
fn non_string_event_id_is_rejected() {
    let mut members = event_members();
    members[0].1 = Json::Num(s("7"));
    let j = Json::Obj(vec![
        (s("event"), Json::Obj(members)),
        (s("labels"), Json::Obj(vec![])),
    ]);
    assert!(decode_request(j).is_none());
}

#[test]
fn non_object_data_is_rejected() {
    let mut members = event_members();
    members[4].1 = Json::Arr(vec![]);
    let j = Json::Obj(vec![
        (s("event"), Json::Obj(members)),
        (s("labels"), Json::Obj(vec![])),
    ]);
    assert!(decode_request(j).is_none());
}

#[test]
fn missing_labels_is_rejected() {
    let j = Json::Obj(vec![(s("event"), Json::Obj(event_members()))]);
    assert!(decode_request(j).is_none());
}

#[test]
fn non_string_label_value_is_rejected() {
    let j = Json::Obj(vec![
        (s("event"), Json::Obj(event_members())),
        (s("labels"), Json::Obj(vec![(s("env"), Json::Num(s("1")))])),
    ]);
    assert!(decode_request(j).is_none());
}

#[test]
fn extra_members_are_tolerated() {
    let mut members = event_members();
    members.push((s("spare"), Json::Null));
    let j = Json::Obj(vec![
        (s("ignored"), Json::Bool(true)),
        (s("event"), Json::Obj(members)),
        (s("labels"), Json::Obj(vec![])),
    ]);
    let req = decode_request(j).unwrap();
    assert_eq!(req.event.event_id, "ev-1");
    assert!(req.labels.is_empty());
}

#[test]
fn first_member_wins_on_duplicate_keys() {
    let j = Json::Obj(vec![
        (s("event"), Json::Obj(event_members())),
        (s("event"), Json::Null),
        (s("labels"), Json::Obj(vec![])),
    ]);
    let req = decode_request(j).unwrap();
    assert_eq!(req.event.event_id, "ev-1");
}
