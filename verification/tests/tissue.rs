use tissue_rs::error::ResponseError;
use tissue_rs::json::{Json, Number};
use tissue_rs::timestamp::Timestamp;
use tissue_rs::tissue::{
    classify_response, parse_response, CheckinResponse, IncomingEndpoint, ReceivedCheckin,
};
use tissue_rs::CheckinBuilder;

/// The value of a JSON text, as `serde_json` reads it.
fn json(text: &str) -> Json {
    let value: serde_json::Value = serde_json::from_str(text).unwrap();
    json_of(&value)
}

fn json_of(value: &serde_json::Value) -> Json {
    match value {
        serde_json::Value::Null => Json::Null,
        serde_json::Value::Bool(b) => Json::Bool(*b),
        serde_json::Value::Number(n) => Json::Number(match (n.as_u64(), n.as_i64()) {
            (Some(u), _) => Number::Unsigned(u),
            (None, Some(i)) => Number::Signed(i),
            (None, None) => Number::Real(n.as_f64().unwrap().to_bits()),
        }),
        serde_json::Value::String(s) => Json::String(s.clone()),
        serde_json::Value::Array(items) => Json::Array(items.iter().map(json_of).collect()),
        serde_json::Value::Object(members) => {
            Json::Object(members.iter().map(|(k, v)| (k.clone(), json_of(v))).collect())
        }
    }
}

const ACCEPTED: &str = r#"{"status":200,"checkin":{"id":1,"checked_in_at":"2021-01-01T00:00:00+09:00","note":"n","link":"l","tags":[],"source":"api","is_private":false,"is_too_sensitive":false}}"#;

fn success(outcome: Result<CheckinResponse, ResponseError>) -> ReceivedCheckin {
    match outcome {
        Ok(CheckinResponse::Success(record)) => record,
        other => panic!("no success: {:?}", other),
    }
}

#[test]
fn status_200_with_a_record_is_a_success() {
    let record = success(parse_response(&json(ACCEPTED)));
    assert_eq!(record.id(), 1);
    assert_eq!(record.checked_in_at(), Timestamp::new(1_609_426_800, 0, 32_400).unwrap());
    assert_eq!(record.checked_in_at().to_rfc3339(), "2021-01-01T00:00:00+09:00");
    assert_eq!(record.note(), "n");
    assert_eq!(record.link(), "l");
    assert!(record.tags().is_empty());
    assert_eq!(record.source(), "api");
    assert!(!record.is_private());
    assert!(!record.is_too_sensitive());
}

#[test]
fn status_422_with_violations_is_a_validation_error() {
    let body = json(r#"{"status":422,"error":{"violations":["duplicate timestamp"]}}"#);
    assert_eq!(
        parse_response(&body).unwrap(),
        CheckinResponse::ValidationError(vec!["duplicate timestamp".to_string()])
    );
}

#[test]
fn status_404_with_a_message_is_an_other_error() {
    let body = json(r#"{"status":404,"error":{"message":"not found"}}"#);
    assert_eq!(
        parse_response(&body).unwrap(),
        CheckinResponse::OtherError("not found".to_string())
    );
}

#[test]
fn status_500_is_unexpected() {
    let body = json(r#"{"status":500}"#);
    match parse_response(&body) {
        Err(ResponseError::UnexpectedStatus { status, body }) => {
            assert_eq!(status, 500);
            assert_eq!(body.get_u64("status"), Some(500));
        }
        other => panic!("not unexpected: {:?}", other),
    }
}

#[test]
fn status_422_with_an_empty_error_is_an_other_error_without_message() {
    let body = json(r#"{"status":422,"error":{}}"#);
    assert_eq!(parse_response(&body).unwrap(), CheckinResponse::OtherError(String::new()));
}

#[test]
fn success_record_holds_every_field() {
    let body = json(
        r#"{"status":200,"checkin":{"id":4294967296,"checked_in_at":"2020-02-29T23:59:59.5Z",
        "note":"ノート","link":"https://example.com/?a=b","tags":[" spaced ","b","b"],
        "source":"webhook","is_private":true,"is_too_sensitive":true,"extra":[1,2]},"more":null}"#,
    );
    let record = success(parse_response(&body));
    assert_eq!(record.id(), 4_294_967_296);
    assert_eq!(record.checked_in_at(), Timestamp::new(1_583_020_799, 500_000_000, 0).unwrap());
    assert_eq!(record.note(), "ノート");
    assert_eq!(record.link(), "https://example.com/?a=b");
    assert_eq!(record.tags(), &vec![" spaced ".to_string(), "b".to_string(), "b".to_string()]);
    assert_eq!(record.source(), "webhook");
    assert!(record.is_private());
    assert!(record.is_too_sensitive());
}

#[test]
fn records_compare_by_their_fields() {
    let a = success(parse_response(&json(ACCEPTED)));
    let b = success(parse_response(&json(ACCEPTED)));
    assert_eq!(a, b);
    assert_eq!(a.clone(), a);
    let other = success(parse_response(&json(&ACCEPTED.replace(r#""id":1"#, r#""id":2"#))));
    assert_ne!(a, other);
}

fn error_of(text: &str) -> ResponseError {
    match parse_response(&json(text)) {
        Err(error) => error,
        Ok(response) => panic!("no error: {:?}", response),
    }
}

#[test]
fn body_without_status_is_refused() {
    assert_eq!(error_of(r#"{}"#), ResponseError::MissingStatus);
    assert_eq!(
        error_of(r#"{"checkin":{},"error":{"message":"m"}}"#),
        ResponseError::MissingStatus
    );
}

#[test]
fn status_that_is_no_non_negative_integer_is_refused() {
    assert!(matches!(error_of(r#"{"status":"200"}"#), ResponseError::MissingStatus));
    assert!(matches!(error_of(r#"{"status":null}"#), ResponseError::MissingStatus));
    assert!(matches!(error_of(r#"{"status":-200}"#), ResponseError::MissingStatus));
    assert!(matches!(error_of(r#"{"status":200.0}"#), ResponseError::MissingStatus));
    assert!(matches!(error_of(r#"{"status":[200]}"#), ResponseError::MissingStatus));
}

#[test]
fn body_that_is_no_object_is_refused() {
    assert!(matches!(error_of("null"), ResponseError::MissingStatus));
    assert!(matches!(error_of("200"), ResponseError::MissingStatus));
    assert!(matches!(error_of(r#"[{"status":200}]"#), ResponseError::MissingStatus));
    assert!(matches!(error_of(r#""status""#), ResponseError::MissingStatus));
}

#[test]
fn status_200_without_a_record_is_refused() {
    assert!(matches!(error_of(r#"{"status":200}"#), ResponseError::InvalidCheckin));
    assert!(matches!(error_of(r#"{"status":200,"checkin":null}"#), ResponseError::InvalidCheckin));
    assert!(matches!(error_of(r#"{"status":200,"checkin":{}}"#), ResponseError::InvalidCheckin));
    assert!(matches!(
        error_of(r#"{"status":200,"error":{"message":"m"}}"#),
        ResponseError::InvalidCheckin
    ));
}

#[test]
fn record_with_a_missing_member_is_refused() {
    for key in [
        "id",
        "checked_in_at",
        "note",
        "link",
        "tags",
        "source",
        "is_private",
        "is_too_sensitive",
    ] {
        let renamed = ACCEPTED.replace(&format!("\"{}\":", key), "\"other\":");
        assert_ne!(renamed, ACCEPTED);
        assert!(matches!(error_of(&renamed), ResponseError::InvalidCheckin), "{}", key);
    }
}

#[test]
fn record_with_a_member_of_the_wrong_type_is_refused() {
    for (right, wrong) in [
        (r#""id":1"#, r#""id":"1""#),
        (r#""id":1"#, r#""id":-1"#),
        (r#""id":1"#, r#""id":1.5"#),
        (r#""id":1"#, r#""id":null"#),
        (r#""note":"n""#, r#""note":null"#),
        (r#""note":"n""#, r#""note":5"#),
        (r#""link":"l""#, r#""link":["l"]"#),
        (r#""tags":[]"#, r#""tags":"a""#),
        (r#""tags":[]"#, r#""tags":["a",1]"#),
        (r#""tags":[]"#, r#""tags":null"#),
        (r#""source":"api""#, r#""source":{}"#),
        (r#""is_private":false"#, r#""is_private":0"#),
        (r#""is_private":false"#, r#""is_private":"false""#),
        (r#""is_too_sensitive":false"#, r#""is_too_sensitive":null"#),
    ] {
        let changed = ACCEPTED.replace(right, wrong);
        assert_ne!(changed, ACCEPTED);
        assert!(matches!(error_of(&changed), ResponseError::InvalidCheckin), "{}", wrong);
    }
}

#[test]
fn record_with_a_timestamp_that_cannot_be_read_is_refused() {
    for wrong in [
        r#""checked_in_at":"yesterday""#,
        r#""checked_in_at":"2021-01-01""#,
        r#""checked_in_at":"""#,
        r#""checked_in_at":1609426800"#,
        r#""checked_in_at":null"#,
    ] {
        let changed = ACCEPTED.replace(r#""checked_in_at":"2021-01-01T00:00:00+09:00""#, wrong);
        assert_ne!(changed, ACCEPTED);
        assert!(matches!(error_of(&changed), ResponseError::InvalidCheckin), "{}", wrong);
    }
}

#[test]
fn record_that_is_no_object_is_refused() {
    let positional = r#"{"status":200,"checkin":[1,"2021-01-01T00:00:00+09:00","n","l",[],"api",false,false]}"#;
    assert!(matches!(error_of(positional), ResponseError::InvalidCheckin));
    assert!(matches!(error_of(r#"{"status":200,"checkin":"x"}"#), ResponseError::InvalidCheckin));
}

#[test]
fn status_200_ignores_the_error_member() {
    let body = ACCEPTED.replace(r#"{"status":200,"#, r#"{"status":200,"error":{"violations":["v"]},"#);
    assert_eq!(success(parse_response(&json(&body))).id(), 1);
}

#[test]
fn status_404_with_violations_is_a_validation_error() {
    let body = json(r#"{"status":404,"error":{"violations":["a","b"],"message":"m"}}"#);
    assert_eq!(
        parse_response(&body).unwrap(),
        CheckinResponse::ValidationError(vec!["a".to_string(), "b".to_string()])
    );
}

#[test]
fn status_422_with_a_message_is_an_other_error() {
    let body = json(r#"{"status":422,"error":{"message":"unprocessable"}}"#);
    assert_eq!(
        parse_response(&body).unwrap(),
        CheckinResponse::OtherError("unprocessable".to_string())
    );
}

#[test]
fn empty_violations_are_a_validation_error() {
    let body = json(r#"{"status":422,"error":{"violations":[],"message":"m"}}"#);
    assert_eq!(parse_response(&body).unwrap(), CheckinResponse::ValidationError(vec![]));
}

#[test]
fn violations_that_are_no_array_leave_the_message() {
    for violations in [r#""v""#, "null", "1", r#"{"0":"v"}"#, "true"] {
        let text = format!(r#"{{"status":422,"error":{{"violations":{},"message":"m"}}}}"#, violations);
        assert_eq!(
            parse_response(&json(&text)).unwrap(),
            CheckinResponse::OtherError("m".to_string()),
            "{}",
            violations
        );
    }
}

#[test]
fn violations_that_are_no_strings_are_refused() {
    assert!(matches!(
        error_of(r#"{"status":422,"error":{"violations":["a",1]}}"#),
        ResponseError::InvalidViolations
    ));
    assert!(matches!(
        error_of(r#"{"status":404,"error":{"violations":[null],"message":"m"}}"#),
        ResponseError::InvalidViolations
    ));
    assert!(matches!(
        error_of(r#"{"status":404,"error":{"violations":[["a"]]}}"#),
        ResponseError::InvalidViolations
    ));
}

#[test]
fn message_that_is_no_string_counts_as_empty() {
    for message in ["null", "1", r#"["m"]"#, r#"{"text":"m"}"#, "false"] {
        let text = format!(r#"{{"status":404,"error":{{"message":{}}}}}"#, message);
        assert_eq!(
            parse_response(&json(&text)).unwrap(),
            CheckinResponse::OtherError(String::new()),
            "{}",
            message
        );
    }
}

#[test]
fn missing_error_member_is_an_other_error_without_message() {
    for text in [
        r#"{"status":404}"#,
        r#"{"status":422,"error":null}"#,
        r#"{"status":422,"error":"broken"}"#,
        r#"{"status":404,"error":["violations"]}"#,
        r#"{"status":404,"message":"at the top"}"#,
    ] {
        assert_eq!(
            parse_response(&json(text)).unwrap(),
            CheckinResponse::OtherError(String::new()),
            "{}",
            text
        );
    }
}

#[test]
fn status_404_ignores_the_record() {
    let body = ACCEPTED.replace(r#""status":200"#, r#""status":404"#);
    assert_eq!(parse_response(&json(&body)).unwrap(), CheckinResponse::OtherError(String::new()));
}

#[test]
fn other_statuses_are_unexpected() {
    for status in [0u64, 1, 199, 201, 204, 302, 400, 401, 403, 405, 421, 423, 503, u64::MAX] {
        let text = format!(r#"{{"status":{},"error":{{"message":"m"}}}}"#, status);
        match parse_response(&json(&text)) {
            Err(ResponseError::UnexpectedStatus { status: found, .. }) => assert_eq!(found, status),
            other => panic!("{}: {:?}", status, other),
        }
    }
}

#[test]
fn unexpected_status_keeps_the_whole_body() {
    let text = r#"{"status":503,"error":{"message":"down","codes":[1,-2,0.5]},"checkin":null}"#;
    match parse_response(&json(text)) {
        Err(ResponseError::UnexpectedStatus { status, body }) => {
            assert_eq!(status, 503);
            assert_eq!(body, json(text));
        }
        other => panic!("not unexpected: {:?}", other),
    }
}

#[test]
fn status_may_be_a_signed_number_that_is_not_negative() {
    let body = Json::Object(vec![("status".to_string(), Json::Number(Number::Signed(404)))]);
    assert_eq!(parse_response(&body).unwrap(), CheckinResponse::OtherError(String::new()));
    let negative = Json::Object(vec![("status".to_string(), Json::Number(Number::Signed(-404)))]);
    assert_eq!(parse_response(&negative), Err(ResponseError::MissingStatus));
}

#[test]
fn last_of_two_status_members_counts() {
    let body = Json::Object(vec![
        ("status".to_string(), Json::Number(Number::Unsigned(200))),
        ("status".to_string(), Json::Number(Number::Unsigned(404))),
    ]);
    assert_eq!(parse_response(&body).unwrap(), CheckinResponse::OtherError(String::new()));
}

#[test]
fn classify_takes_the_timestamp_it_is_given() {
    let at = Timestamp::new(7, 0, 0).unwrap();
    let record = success(classify_response(&json(ACCEPTED), Some(at)));
    assert_eq!(record.checked_in_at(), at);
    assert_eq!(record.id(), 1);
}

#[test]
fn classify_without_a_timestamp_has_no_record() {
    assert!(matches!(
        classify_response(&json(ACCEPTED), None),
        Err(ResponseError::InvalidCheckin)
    ));
}

#[test]
fn classify_needs_no_timestamp_for_a_refusal() {
    let body = json(r#"{"status":422,"error":{"violations":["v"]}}"#);
    let at = Timestamp::new(7, 0, 0).unwrap();
    let expected = CheckinResponse::ValidationError(vec!["v".to_string()]);
    assert_eq!(classify_response(&body, None).unwrap(), expected);
    assert_eq!(classify_response(&body, Some(at)).unwrap(), expected);
    assert!(matches!(
        classify_response(&json(r#"{"status":500}"#), Some(at)),
        Err(ResponseError::UnexpectedStatus { status: 500, .. })
    ));
    assert!(matches!(classify_response(&json("{}"), Some(at)), Err(ResponseError::MissingStatus)));
}

#[test]
fn record_is_read_from_the_checkin_member_alone() {
    let checkin = json(ACCEPTED).get("checkin").unwrap().clone();
    let at = Timestamp::new(1_609_426_800, 0, 32_400).unwrap();
    let record = ReceivedCheckin::from_json(&checkin, Some(at)).unwrap();
    assert_eq!(record, success(parse_response(&json(ACCEPTED))));
    assert_eq!(ReceivedCheckin::from_json(&checkin, None), None);
    assert_eq!(ReceivedCheckin::from_json(&Json::Null, Some(at)), None);
}

#[test]
fn endpoint_posts_to_the_service_by_default() {
    let endpoint = IncomingEndpoint::new("Tissue Webhook ID", ());
    assert_eq!(
        endpoint.checkin_url(),
        "https://shikorism.net/api/webhooks/checkin/Tissue Webhook ID"
    );
}

#[test]
fn endpoint_posts_to_the_domain_it_was_given() {
    let endpoint = IncomingEndpoint::with_domain("example.com", "abc123", ());
    assert_eq!(endpoint.checkin_url(), "https://example.com/api/webhooks/checkin/abc123");
    let empty = IncomingEndpoint::with_domain("", "", ());
    assert_eq!(empty.checkin_url(), "https:///api/webhooks/checkin/");
}

#[test]
fn endpoint_hands_out_its_requester() {
    let mut endpoint = IncomingEndpoint::new("id", vec![1]);
    endpoint.requester().push(2);
    assert_eq!(endpoint.requester(), &mut vec![1, 2]);
    assert_eq!(endpoint.checkin_url(), "https://shikorism.net/api/webhooks/checkin/id");
}

#[test]
fn request_holds_the_address_and_the_checkin() {
    let mut builder = CheckinBuilder::with_datetime(Timestamp::new(0, 0, 0).unwrap());
    assert_eq!(builder.note("n"), Ok(()));
    let checkin = builder.build();
    let endpoint = IncomingEndpoint::with_domain("example.com", "id", ());
    let request = endpoint.checkin_request(&checkin);
    assert_eq!(request.url, "https://example.com/api/webhooks/checkin/id");
    assert_eq!(request.body, checkin.to_json());
    assert_eq!(request.body.get_str("checked_in_at"), Some("1970-01-01T00:00:00Z"));
    assert_eq!(request.body.get_str("note"), Some("n"));
}

#[test]
fn request_leaves_out_what_was_not_set() {
    let endpoint = IncomingEndpoint::new("id", ());
    let at = Timestamp::new(0, 0, 0).unwrap();
    let body = endpoint.checkin_request(&CheckinBuilder::with_datetime(at).build()).body;
    assert_eq!(body.get_str("checked_in_at"), Some("1970-01-01T00:00:00Z"));
    assert_eq!(body.get("tags"), Some(&Json::Array(vec![])));
    for key in ["note", "link", "is_private", "is_too_sensitive"] {
        assert_eq!(body.get(key), None, "{}", key);
    }
    assert_eq!(body, json(r#"{"checked_in_at":"1970-01-01T00:00:00Z","tags":[]}"#));
}

#[test]
fn request_leaves_out_each_unset_field_on_its_own() {
    let endpoint = IncomingEndpoint::new("id", ());
    for unset in ["note", "link", "is_private", "is_too_sensitive"] {
        let mut builder = CheckinBuilder::with_datetime(Timestamp::new(0, 0, 0).unwrap());
        if unset != "note" {
            assert_eq!(builder.note("n"), Ok(()));
        }
        if unset != "link" {
            assert_eq!(builder.link("l"), Ok(()));
        }
        if unset != "is_private" {
            builder.is_private(true);
        }
        if unset != "is_too_sensitive" {
            builder.is_too_sensitive(true);
        }
        let body = endpoint.checkin_request(&builder.build()).body;
        for key in ["checked_in_at", "note", "link", "tags", "is_private", "is_too_sensitive"] {
            assert_eq!(body.get(key).is_none(), key == unset, "{} without {}", key, unset);
        }
        assert!(body.get("tags").unwrap().is_array());
    }
}
