use gerritbot_spark::ids::{MessageId, PersonId};
use gerritbot_spark::pipeline::{
    apply_task, hydration_outcome, hydration_target, is_noop, should_forward, Action, Response,
    Task,
};
use gerritbot_spark::server::{
    handle_webhook_request, reject_webhook_request, BoundedQueue, RequestHead, RequestOutcome,
};
use gerritbot_spark::Error;

fn post_head() -> RequestHead {
    RequestHead {
        path: "/".to_string(),
        method: "POST".to_string(),
        content_type: Some(b"application/json".to_vec()),
    }
}

fn envelope(person_id: &str) -> Vec<u8> {
    format!(
        r#"{{"id": "wh-1", "actorId": "a", "appId": "a",
            "created": "2018-01-01T00:00:00Z", "createdBy": "c",
            "data": {{"id": "msg-1", "personEmail": "e", "personId": "{}",
                      "roomId": "r", "roomType": "group"}},
            "event": "created", "name": "n", "orgId": "o", "ownedBy": "w",
            "resource": "messages", "status": "s", "targetUrl": "t"}}"#,
        person_id
    )
    .into_bytes()
}

#[test]
fn get_method_is_rejected_with_405() {
    let mut h = post_head();
    h.method = "GET".to_string();
    assert_eq!(reject_webhook_request(&h), Some(405));
    // nothing enters the stream for a rejected request
    match handle_webhook_request(&h, &envelope("p")) {
        RequestOutcome::Rejected(st) => assert_eq!(st, 405),
        RequestOutcome::Accepted(_) => panic!("rejected request must not be accepted"),
    }
}

#[test]
fn wrong_path_is_rejected_with_404() {
    let mut h = post_head();
    h.path = "/elsewhere".to_string();
    assert_eq!(reject_webhook_request(&h), Some(404));
}

#[test]
fn text_plain_is_rejected_with_415() {
    let mut h = post_head();
    h.content_type = Some(b"text/plain".to_vec());
    assert_eq!(reject_webhook_request(&h), Some(415));
}

#[test]
fn missing_content_type_is_rejected_with_415() {
    let mut h = post_head();
    h.content_type = None;
    assert_eq!(reject_webhook_request(&h), Some(415));
}

#[test]
fn json_with_parameters_is_accepted() {
    let mut h = post_head();
    h.content_type = Some(b"application/json; charset=utf-8".to_vec());
    assert_eq!(reject_webhook_request(&h), None);
}

#[test]
fn decode_failure_does_not_stop_later_posts() {
    let h = post_head();
    // first POST carries a broken body: accepted (200), nothing forwarded
    match handle_webhook_request(&h, b"{broken") {
        RequestOutcome::Accepted(m) => assert!(m.is_none()),
        RequestOutcome::Rejected(_) => panic!("a well-formed request is not rejected"),
    }
    // the next valid POST still decodes and is forwarded
    match handle_webhook_request(&h, &envelope("p")) {
        RequestOutcome::Accepted(m) => assert_eq!(m.unwrap().data.person_id.0, "p"),
        RequestOutcome::Rejected(_) => panic!("a well-formed request is not rejected"),
    }
}

#[test]
fn full_queue_delays_but_never_loses_messages() {
    let mut q: BoundedQueue<u64> = BoundedQueue::new(1);
    assert!(q.try_send(1).is_ok());
    // a second concurrent send finds the queue full: the item comes back to
    // its sender, which keeps offering it, delayed, until room appears
    let held = match q.try_send(2) {
        Err(it) => it,
        Ok(()) => panic!("capacity one holds one message"),
    };
    assert_eq!(held, 2);
    assert_eq!(q.recv(), Some(1));
    assert!(q.try_send(held).is_ok());
    assert_eq!(q.recv(), Some(2));
    assert_eq!(q.recv(), None);
}

#[test]
fn queue_delivers_in_order() {
    let mut q: BoundedQueue<u64> = BoundedQueue::new(3);
    assert!(q.try_send(10).is_ok());
    assert!(q.try_send(11).is_ok());
    assert!(q.try_send(12).is_ok());
    assert_eq!(q.recv(), Some(10));
    assert_eq!(q.recv(), Some(11));
    assert_eq!(q.recv(), Some(12));
}

#[test]
fn own_posts_never_reach_hydration() {
    let bot = PersonId("bot-1".to_string());
    let h = post_head();
    let post = match handle_webhook_request(&h, &envelope("bot-1")) {
        RequestOutcome::Accepted(Some(m)) => m,
        _ => panic!("the envelope decodes"),
    };
    assert!(!should_forward(&post, &bot));
    assert_eq!(hydration_target(&post, &bot), None);
}

#[test]
fn foreign_posts_are_hydrated_by_embedded_id() {
    let bot = PersonId("bot-1".to_string());
    let h = post_head();
    let post = match handle_webhook_request(&h, &envelope("someone-else")) {
        RequestOutcome::Accepted(Some(m)) => m,
        _ => panic!("the envelope decodes"),
    };
    assert!(should_forward(&post, &bot));
    assert_eq!(hydration_target(&post, &bot), Some(MessageId("msg-1".to_string())));
}

#[test]
fn hydration_failure_drops_only_that_message() {
    assert_eq!(hydration_outcome(Err(Error::Transport(None))), None);
    let m = match handle_webhook_request(&post_head(), &envelope("p")) {
        RequestOutcome::Accepted(Some(m)) => m.data,
        _ => panic!("the envelope decodes"),
    };
    assert!(hydration_outcome(Ok(m)).is_some());
}

#[test]
fn noop_actions_are_filtered() {
    assert!(is_noop(&Action::<u32>::NoOp));
    assert!(!is_noop(&Action::ReviewEvent(5u32)));
}

#[test]
fn reply_and_persist_sends_one_reply_and_schedules_one_save() {
    let resp = Response { person_id: PersonId("p".to_string()), message: "hi".to_string() };
    let eff = apply_task(Some(Task::ReplyAndPersist(resp.clone())));
    assert_eq!(eff.reply, Some(resp));
    assert!(eff.persist);
}

#[test]
fn plain_reply_schedules_no_save() {
    let resp = Response { person_id: PersonId("p".to_string()), message: "hi".to_string() };
    let eff = apply_task(Some(Task::Reply(resp.clone())));
    assert_eq!(eff.reply, Some(resp));
    assert!(!eff.persist);
}

#[test]
fn no_task_has_no_effect() {
    let eff = apply_task(None);
    assert!(eff.reply.is_none());
    assert!(!eff.persist);
}
