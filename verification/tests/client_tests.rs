use gerritbot_spark::client::{
    bootstrap_from_response, bootstrap_request, decode_message_body, decode_webhooks_body,
    interpret_delete_response, interpret_send_response, Client, HttpMethod,
};
use gerritbot_spark::ids::{PersonId, WebhookId};
use gerritbot_spark::register::{
    register_step, webhooks_to_delete, RegisterAction, RegisterEvent, RegisterState,
};
use gerritbot_spark::Error;

fn client() -> Client {
    Client {
        url: "https://api.example.com/v1".to_string(),
        bot_token: "token-123".to_string(),
        bot_id: PersonId("bot-1".to_string()),
    }
}

fn webhooks_bytes() -> Vec<u8> {
    br#"{"items": [
        {"id": "h1", "name": "old", "targetUrl": "http://a/", "resource": "messages",
         "event": "created", "orgId": "o", "createdBy": "c", "appId": "a",
         "ownedBy": "w", "status": "active", "created": "2018-01-01T00:00:00Z"},
        {"id": "h2", "name": "rooms-hook", "targetUrl": "http://b/", "resource": "rooms",
         "event": "created", "orgId": "o", "createdBy": "c", "appId": "a",
         "ownedBy": "w", "status": "active", "created": "2018-01-01T00:00:00Z"},
        {"id": "h3", "name": "older", "targetUrl": "http://c/", "resource": "messages",
         "event": "created", "orgId": "o", "createdBy": "c", "appId": "a",
         "ownedBy": "w", "status": "active", "created": "2018-01-01T00:00:00Z"}
    ]}"#
        .to_vec()
}

#[test]
fn bootstrap_request_targets_people_me() {
    let r = bootstrap_request("https://api.example.com/v1", "tok");
    assert_eq!(r.method, HttpMethod::Get);
    assert_eq!(r.url, "https://api.example.com/v1/people/me");
    assert_eq!(r.bearer, "tok");
    assert!(r.body.is_none());
}

#[test]
fn bootstrap_resolves_identity_from_response() {
    let body = br#"{"id": "bot-1", "emails": ["bot@example.com"], "displayName": "Bot",
                    "orgId": "o", "created": "2018-01-01T00:00:00Z", "type": "bot"}"#;
    let c = bootstrap_from_response("u".to_string(), "t".to_string(), &body[..]).unwrap();
    assert_eq!(c.bot_id.0, "bot-1");
    assert_eq!(c.url, "u");
    assert_eq!(c.bot_token, "t");
    assert_eq!(c.id().0, "bot-1");
}

#[test]
fn bootstrap_fails_on_schema_mismatch() {
    let body = br#"{"id": "bot-1"}"#;
    let r = bootstrap_from_response("u".to_string(), "t".to_string(), &body[..]);
    assert_eq!(r, Err(Error::Decode));
}

#[test]
fn request_urls_are_joined_from_base_and_resource() {
    let c = client();
    assert_eq!(c.list_webhooks_request().url, "https://api.example.com/v1/webhooks");
    assert_eq!(
        c.delete_webhook_request(&WebhookId("h1".to_string())).url,
        "https://api.example.com/v1/webhooks/h1"
    );
    assert_eq!(
        c.get_message_request(&gerritbot_spark::ids::MessageId("m9".to_string())).url,
        "https://api.example.com/v1/messages/m9"
    );
}

#[test]
fn add_webhook_request_body_registers_created_messages() {
    let c = client();
    let r = c.add_webhook_request("http://me.example.com/hook");
    assert_eq!(r.method, HttpMethod::Post);
    assert_eq!(r.url, "https://api.example.com/v1/webhooks");
    let body: serde_json::Value = serde_json::from_slice(&r.body.unwrap()).unwrap();
    assert_eq!(body["name"].as_str(), Some("gerritbot"));
    assert_eq!(body["targetUrl"].as_str(), Some("http://me.example.com/hook"));
    assert_eq!(body["resource"].as_str(), Some("messages"));
    assert_eq!(body["event"].as_str(), Some("created"));
}

#[test]
fn reply_request_body_carries_person_and_markdown() {
    let c = client();
    let r = c.reply_request(&PersonId("p7".to_string()), "**hi**");
    assert_eq!(r.url, "https://api.example.com/v1/messages");
    let body: serde_json::Value = serde_json::from_slice(&r.body.unwrap()).unwrap();
    assert_eq!(body["toPersonId"].as_str(), Some("p7"));
    assert_eq!(body["markdown"].as_str(), Some("**hi**"));
}

#[test]
fn delete_of_missing_id_is_success() {
    // deleting an id that no longer exists reports success, not an error
    assert!(interpret_delete_response(Some(404)).is_ok());
    assert!(interpret_delete_response(Some(204)).is_ok());
    assert!(interpret_delete_response(Some(200)).is_ok());
}

#[test]
fn delete_failure_is_a_delete_error() {
    assert_eq!(interpret_delete_response(Some(500)), Err(Error::DeleteWebhook));
    assert_eq!(interpret_delete_response(None), Err(Error::DeleteWebhook));
}

#[test]
fn send_outcomes_map_to_transport_errors() {
    assert!(interpret_send_response(Some(200)).is_ok());
    assert_eq!(interpret_send_response(Some(503)), Err(Error::Transport(Some(503))));
    assert_eq!(interpret_send_response(None), Err(Error::Transport(None)));
}

#[test]
fn only_created_message_webhooks_are_deleted() {
    let hooks = decode_webhooks_body(&webhooks_bytes()).unwrap();
    let ids: Vec<String> = webhooks_to_delete(&hooks).into_iter().map(|w| w.0).collect();
    assert_eq!(ids, vec!["h1".to_string(), "h3".to_string()]);
}

#[test]
fn registration_deletes_all_matching_then_adds() {
    let hooks = decode_webhooks_body(&webhooks_bytes()).unwrap();
    let (s, a) = register_step(RegisterState::Start, RegisterEvent::Begin);
    assert_eq!(a, RegisterAction::List);
    let (s, a) = register_step(s, RegisterEvent::Listed(Ok(hooks)));
    assert_eq!(a, RegisterAction::Delete(WebhookId("h3".to_string())));
    let (s, a) = register_step(s, RegisterEvent::Deleted(Ok(())));
    assert_eq!(a, RegisterAction::Delete(WebhookId("h1".to_string())));
    let (s, a) = register_step(s, RegisterEvent::Deleted(Ok(())));
    assert_eq!(a, RegisterAction::Add);
    let (s, a) = register_step(s, RegisterEvent::Added(Ok(())));
    assert_eq!(s, RegisterState::Done);
    assert_eq!(a, RegisterAction::Stop);
}

#[test]
fn registration_with_no_matching_webhooks_adds_at_once() {
    let hooks = decode_webhooks_body(br#"{"items": []}"#).unwrap();
    let (s, _) = register_step(RegisterState::Start, RegisterEvent::Begin);
    let (s, a) = register_step(s, RegisterEvent::Listed(Ok(hooks)));
    assert_eq!(s, RegisterState::Adding);
    assert_eq!(a, RegisterAction::Add);
}

#[test]
fn registration_aborts_without_adding_after_delete_failure() {
    let hooks = decode_webhooks_body(&webhooks_bytes()).unwrap();
    let (s, _) = register_step(RegisterState::Start, RegisterEvent::Begin);
    let (s, _) = register_step(s, RegisterEvent::Listed(Ok(hooks)));
    let (s, a) = register_step(s, RegisterEvent::Deleted(Err(Error::DeleteWebhook)));
    assert_eq!(s, RegisterState::Failed(Error::DeleteWebhook));
    assert_eq!(a, RegisterAction::Stop);
    // the routine stays stopped: the add is never issued
    let (s, a) = register_step(s, RegisterEvent::Deleted(Ok(())));
    assert!(matches!(s, RegisterState::Failed(_)));
    assert_eq!(a, RegisterAction::Stop);
}

#[test]
fn registration_fails_on_an_event_before_begin() {
    let (s, a) = register_step(RegisterState::Start, RegisterEvent::Deleted(Ok(())));
    assert_eq!(s, RegisterState::Failed(Error::RegisterWebhook));
    assert_eq!(a, RegisterAction::Stop);
}

#[test]
fn finished_registration_stays_finished() {
    let (s, a) = register_step(RegisterState::Done, RegisterEvent::Begin);
    assert_eq!(s, RegisterState::Done);
    assert_eq!(a, RegisterAction::Stop);
}

#[test]
fn registration_aborts_on_list_failure() {
    let (s, _) = register_step(RegisterState::Start, RegisterEvent::Begin);
    let (s, a) = register_step(s, RegisterEvent::Listed(Err(Error::Transport(Some(500)))));
    assert_eq!(s, RegisterState::Failed(Error::Transport(Some(500))));
    assert_eq!(a, RegisterAction::Stop);
}

#[test]
fn hydrated_message_body_decodes() {
    let body = br#"{"id": "m1", "personEmail": "e@x", "personId": "p1", "roomId": "r1",
                    "roomType": "direct", "text": "hello there",
                    "created": "2018-01-01T00:00:02Z"}"#;
    let m = decode_message_body(&body[..]).unwrap();
    assert_eq!(m.id.0, "m1");
    assert_eq!(m.text, "hello there");
    assert_eq!(m.created.map(|t| t.secs), Some(1514764802));
}

#[test]
fn transport_errors_know_their_kind() {
    assert!(Error::Transport(None).is_transport());
    assert!(Error::Transport(Some(500)).is_transport());
    assert!(!Error::Decode.is_transport());
}

#[test]
fn error_descriptions_name_the_kind() {
    assert_eq!(Error::Transport(Some(500)).describe(), "transport failure");
    assert_eq!(Error::Decode.describe(), "could not decode");
    assert_eq!(Error::RegisterWebhook.describe(), "could not register webhook");
    assert_eq!(Error::DeleteWebhook.describe(), "could not delete webhook");
    assert_eq!(Error::Io.describe(), "i/o failure");
}

#[test]
fn webhook_list_decode_fails_on_bad_item() {
    let body = br#"{"items": [{"id": "h1"}]}"#;
    assert_eq!(decode_webhooks_body(&body[..]), Err(Error::Decode));
}
