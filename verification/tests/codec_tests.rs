use gerritbot_spark::schema::{decode_webhook_message, encode_message, reencode_webhook_message};
use gerritbot_spark::server::decode_post_body;
use gerritbot_spark::timestamp::Timestamp;
use gerritbot_spark::Error;

fn envelope_bytes() -> Vec<u8> {
    br#"{
        "id": "wh-1",
        "actorId": "actor-1",
        "appId": "app-1",
        "created": "2018-01-01T00:00:00Z",
        "createdBy": "creator-1",
        "data": {
            "id": "msg-1",
            "personEmail": "user@example.com",
            "personId": "person-1",
            "roomId": "room-1",
            "roomType": "group"
        },
        "event": "created",
        "name": "hook",
        "orgId": "org-1",
        "ownedBy": "owner",
        "resource": "messages",
        "status": "active",
        "targetUrl": "http://example.com/hook"
    }"#
        .to_vec()
}

#[test]
fn decode_valid_envelope() {
    let bytes = envelope_bytes();
    let m = decode_post_body(&bytes).expect("valid envelope must decode");
    assert_eq!(m.id.0, "wh-1");
    assert_eq!(m.actor_id.0, "actor-1");
    assert_eq!(m.app_id, "app-1");
    assert_eq!(m.created.secs, 1514764800);
    assert_eq!(m.created.nanos, 0);
    assert_eq!(m.created_by.0, "creator-1");
    assert_eq!(m.data.id.0, "msg-1");
    assert_eq!(m.data.person_email.0, "user@example.com");
    assert_eq!(m.data.person_id.0, "person-1");
    assert_eq!(m.data.room_id.0, "room-1");
    assert_eq!(m.resource.0, "messages");
    assert_eq!(m.status, "active");
    assert_eq!(m.target_url, "http://example.com/hook");
    // the stub message has no body yet
    assert_eq!(m.data.text, "");
    assert!(m.data.markdown.is_none());
    assert!(m.data.html.is_none());
    assert!(m.data.created.is_none());
}

#[test]
fn decode_normalizes_timezone_to_utc() {
    let bytes = br#"{
        "id": "wh-1", "actorId": "a", "appId": "a",
        "created": "2018-01-01T01:00:00.250+01:00",
        "createdBy": "c",
        "data": {"id": "m", "personEmail": "e", "personId": "p", "roomId": "r", "roomType": "direct"},
        "event": "created", "name": "n", "orgId": "o", "ownedBy": "o",
        "resource": "messages", "status": "s", "targetUrl": "t"
    }"#;
    let m = decode_post_body(&bytes[..]).expect("offset timestamp must decode");
    // one hour past midnight at +01:00 is midnight UTC
    assert_eq!(m.created.secs, 1514764800);
    assert_eq!(m.created.nanos, 250_000_000);
}

#[test]
fn reencode_round_trips_identifiers_and_instants() {
    let bytes = envelope_bytes();
    let m = decode_post_body(&bytes).unwrap();
    let v: serde_json::Value = serde_json::from_slice(&bytes).unwrap();
    let again = reencode_webhook_message(&v).expect("a decodable envelope re-encodes");
    let m2 = decode_webhook_message(&again).expect("the re-encoding decodes");
    assert_eq!(m, m2);
}

#[test]
fn reencode_rejects_undecodable_documents() {
    let v: serde_json::Value = serde_json::from_slice(br#"{"id": "only"}"#).unwrap();
    assert!(reencode_webhook_message(&v).is_none());
}

#[test]
fn encoding_stops_at_instants_rfc3339_cannot_carry() {
    let bytes = envelope_bytes();
    let mut m = decode_post_body(&bytes).unwrap().data;
    // an in-range creation time encodes
    m.created = Some(Timestamp { secs: 1514764800, nanos: 0 });
    assert!(encode_message(&m).is_some());
    // roughly the year 11000: chrono can represent it, but RFC3339 text
    // cannot, so the encoder refuses rather than emit an unparsable field
    m.created = Some(Timestamp { secs: 300_000_000_000, nanos: 0 });
    assert!(encode_message(&m).is_none());
}

#[test]
fn offset_can_push_an_instant_outside_reencodable_years() {
    // the text's own year has four digits, but the +23:59 offset shifts the
    // UTC instant just before year 0000: it decodes, yet cannot be written
    // back as RFC3339 text, so re-encoding declines
    let mut s = String::from_utf8(envelope_bytes()).unwrap();
    s = s.replace("2018-01-01T00:00:00Z", "0000-01-01T00:00:00+23:59");
    let m = decode_post_body(s.as_bytes()).unwrap();
    assert_eq!(m.created.secs, -62167219200i64 - 86340);
    let v: serde_json::Value = serde_json::from_slice(s.as_bytes()).unwrap();
    assert!(reencode_webhook_message(&v).is_none());
}

#[test]
fn decode_missing_field_is_error() {
    let mut s = String::from_utf8(envelope_bytes()).unwrap();
    s = s.replace(r#""actorId": "actor-1","#, "");
    assert_eq!(decode_post_body(s.as_bytes()), Err(Error::Decode));
}

#[test]
fn decode_bad_timestamp_is_error() {
    let mut s = String::from_utf8(envelope_bytes()).unwrap();
    s = s.replace("2018-01-01T00:00:00Z", "yesterday at noon");
    assert_eq!(decode_post_body(s.as_bytes()), Err(Error::Decode));
}

#[test]
fn decode_wrong_field_type_is_error() {
    let mut s = String::from_utf8(envelope_bytes()).unwrap();
    s = s.replace(r#""personId": "person-1""#, r#""personId": 7"#);
    assert_eq!(decode_post_body(s.as_bytes()), Err(Error::Decode));
}

#[test]
fn decode_invalid_json_is_error() {
    assert_eq!(decode_post_body(b"this is not json"), Err(Error::Decode));
}

#[test]
fn decode_unknown_event_is_error() {
    let mut s = String::from_utf8(envelope_bytes()).unwrap();
    s = s.replace(r#""event": "created""#, r#""event": "vanished""#);
    assert_eq!(decode_post_body(s.as_bytes()), Err(Error::Decode));
}

#[test]
fn null_optional_field_reads_as_absent() {
    let mut s = String::from_utf8(envelope_bytes()).unwrap();
    s = s.replace(r#""roomType": "group""#, r#""roomType": "group", "markdown": null"#);
    let m = decode_post_body(s.as_bytes()).unwrap();
    assert!(m.data.markdown.is_none());
}

#[test]
fn hydrated_message_body_fields_decode() {
    let mut s = String::from_utf8(envelope_bytes()).unwrap();
    s = s.replace(
        r#""roomType": "group""#,
        r#""roomType": "group", "text": "hello", "markdown": "**hello**", "created": "2018-01-01T00:00:01Z""#,
    );
    let m = decode_post_body(s.as_bytes()).unwrap();
    assert_eq!(m.data.text, "hello");
    assert_eq!(m.data.markdown.as_deref(), Some("**hello**"));
    assert_eq!(m.data.created.map(|t| t.secs), Some(1514764801));
}
