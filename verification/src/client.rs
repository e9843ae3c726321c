//! The messaging API client, modeled as data.
//!
//! Every authenticated call is described by an [`ApiRequest`] value built
//! here; the transport that performs it lives outside the library and hands
//! back a status and body, which the interpreters below turn into typed
//! results. The client itself holds only immutable configuration and the
//! bot's identity, resolved once at bootstrap.

use vstd::prelude::*;
use vstd::string::StringExecFns;

use crate::Error;
use crate::api_types::{
    decode_person_details, decode_webhooks, person_details_of_json, webhooks_of_json, Webhooks,
};
use crate::ids::{MessageId, PersonId, WebhookId};
use crate::json::{
    json_empty_object, json_insert, json_parse, json_string, json_to_bytes, json_view,
    parsed_json, JsonData,
};
use crate::schema::{decode_message, message_of_json, Message};

verus! {

/// HTTP method of an API request.
#[derive(Clone, Copy, Debug, PartialEq, Eq, Structural)]
pub enum HttpMethod {
    Get,
    Post,
    Delete,
}

/// One authenticated request to the platform, as plain data: method, full
/// URL, bearer token, and an optional JSON body. All requests also carry
/// `Accept: application/json`.
#[derive(Clone, Debug, PartialEq)]
pub struct ApiRequest {
    pub method: HttpMethod,
    pub url: String,
    pub bearer: String,
    pub body: Option<Vec<u8>>,
}

/// Join the platform base URL and a resource path with a slash.
pub fn api_url(base: &str, resource: &str) -> (r: String)
    ensures
        r@ == base@ + "/"@ + resource@,
{
    String::from_str(base).concat("/").concat(resource)
}

/// The client: platform base URL, the bot's token, and the bot's own
/// identity, frozen at bootstrap.
#[derive(Clone, Debug, PartialEq)]
pub struct Client {
    pub url: String,
    pub bot_token: String,
    pub bot_id: PersonId,
}

/// The self-lookup request of the bootstrap's first phase.
pub fn bootstrap_request(url: &str, bot_token: &str) -> (r: ApiRequest)
    ensures
        r.method is Get,
        r.url@ == url@ + "/"@ + "people/me"@,
        r.bearer@ == bot_token@,
        r.body is None,
{
    ApiRequest {
        method: HttpMethod::Get,
        url: api_url(url, "people/me"),
        bearer: String::from_str(bot_token),
        body: None,
    }
}

/// The bootstrap's second phase: decode the self-lookup response and freeze
/// the resolved identity. Fails exactly when the response mismatches the
/// person schema; no partial client is produced.
pub fn client_from_identity(url: String, bot_token: String, v: &serde_json::Value) -> (r: Result<
    Client,
    Error,
>)
    ensures
        match person_details_of_json(json_view(*v)) {
            Some(p) => r matches Ok(c) && c.url@ == url@ && c.bot_token@ == bot_token@
                && c.bot_id@ == p.id,
            None => r matches Err(e) && e == Error::Decode,
        },
{
    match decode_person_details(v) {
        Ok(p) => Ok(Client { url, bot_token, bot_id: p.id }),
        Err(e) => Err(e),
    }
}

impl Client {
    /// The bot's own identity; immutable for the lifetime of the client.
    pub fn id(&self) -> (r: &PersonId)
        ensures
            r@ == self.bot_id@,
    {
        &self.bot_id
    }

    /// The request that lists all webhook registrations.
    pub fn list_webhooks_request(&self) -> (r: ApiRequest)
        ensures
            r.method is Get,
            r.url@ == self.url@ + "/"@ + "webhooks"@,
            r.bearer@ == self.bot_token@,
            r.body is None,
    {
        ApiRequest {
            method: HttpMethod::Get,
            url: api_url(self.url.as_str(), "webhooks"),
            bearer: self.bot_token.clone(),
            body: None,
        }
    }

    /// The request that registers a fresh webhook watching created messages
    /// at the given target URL.
    pub fn add_webhook_request(&self, target_url: &str) -> (r: ApiRequest)
        ensures
            r.method is Post,
            r.url@ == self.url@ + "/"@ + "webhooks"@,
            r.bearer@ == self.bot_token@,
            r.body matches Some(b) && parsed_json(b@) == Some(
                registration_json("gerritbot"@, target_url@),
            ),
    {
        let mut doc = json_empty_object();
        json_insert(&mut doc, "name", json_string("gerritbot"));
        json_insert(&mut doc, "targetUrl", json_string(target_url));
        json_insert(&mut doc, "resource", json_string("messages"));
        json_insert(&mut doc, "event", json_string("created"));
        proof {
            lemma_request_documents_shallow(
                "gerritbot"@,
                target_url@,
                Seq::<char>::empty(),
                Seq::<char>::empty(),
            );
        }
        let body = json_to_bytes(&doc);
        ApiRequest {
            method: HttpMethod::Post,
            url: api_url(self.url.as_str(), "webhooks"),
            bearer: self.bot_token.clone(),
            body: Some(body),
        }
    }

    /// The request that deletes one webhook registration by id.
    pub fn delete_webhook_request(&self, id: &WebhookId) -> (r: ApiRequest)
        ensures
            r.method is Delete,
            r.url@ == self.url@ + "/"@ + ("webhooks/"@ + id@),
            r.bearer@ == self.bot_token@,
            r.body is None,
    {
        let resource = String::from_str("webhooks/").concat(id.0.as_str());
        ApiRequest {
            method: HttpMethod::Delete,
            url: api_url(self.url.as_str(), resource.as_str()),
            bearer: self.bot_token.clone(),
            body: None,
        }
    }

    /// The request that sends a direct message to a person.
    pub fn reply_request(&self, person_id: &PersonId, msg: &str) -> (r: ApiRequest)
        ensures
            r.method is Post,
            r.url@ == self.url@ + "/"@ + "messages"@,
            r.bearer@ == self.bot_token@,
            r.body matches Some(b) && parsed_json(b@) == Some(reply_json(person_id@, msg@)),
    {
        let mut doc = json_empty_object();
        json_insert(&mut doc, "toPersonId", json_string(person_id.0.as_str()));
        json_insert(&mut doc, "markdown", json_string(msg));
        proof {
            lemma_request_documents_shallow(
                Seq::<char>::empty(),
                Seq::<char>::empty(),
                person_id@,
                msg@,
            );
        }
        let body = json_to_bytes(&doc);
        ApiRequest {
            method: HttpMethod::Post,
            url: api_url(self.url.as_str(), "messages"),
            bearer: self.bot_token.clone(),
            body: Some(body),
        }
    }

    /// The request that fetches a fully hydrated message by id.
    pub fn get_message_request(&self, message_id: &MessageId) -> (r: ApiRequest)
        ensures
            r.method is Get,
            r.url@ == self.url@ + "/"@ + ("messages/"@ + message_id@),
            r.bearer@ == self.bot_token@,
            r.body is None,
    {
        let resource = String::from_str("messages/").concat(message_id.0.as_str());
        ApiRequest {
            method: HttpMethod::Get,
            url: api_url(self.url.as_str(), resource.as_str()),
            bearer: self.bot_token.clone(),
            body: None,
        }
    }
}

/// The JSON document that registers a webhook watching created messages.
pub open spec fn registration_json(name: Seq<char>, target_url: Seq<char>) -> JsonData {
    JsonData::Obj(
        Map::<Seq<char>, JsonData>::empty().insert("name"@, JsonData::Str(name)).insert(
            "targetUrl"@,
            JsonData::Str(target_url),
        ).insert("resource"@, JsonData::Str("messages"@)).insert(
            "event"@,
            JsonData::Str("created"@),
        ),
    )
}

/// The JSON document that sends a direct markdown message to a person.
pub open spec fn reply_json(person_id: Seq<char>, markdown: Seq<char>) -> JsonData {
    JsonData::Obj(
        Map::<Seq<char>, JsonData>::empty().insert(
            "toPersonId"@,
            JsonData::Str(person_id),
        ).insert("markdown"@, JsonData::Str(markdown)),
    )
}

/// Both request documents are flat objects of strings, so they stay far
/// inside the nesting depth up to which serialized JSON parses back.
proof fn lemma_request_documents_shallow(
    name: Seq<char>,
    target_url: Seq<char>,
    person_id: Seq<char>,
    markdown: Seq<char>,
)
    ensures
        crate::json::within_depth(registration_json(name, target_url), 127),
        crate::json::within_depth(reply_json(person_id, markdown), 127),
{
    let m1 = registration_json(name, target_url)->Obj_0;
    assert forall|k: Seq<char>| m1.dom().contains(k) implies crate::json::within_depth(
        m1[k],
        (127 - 1) as nat,
    ) by {
        assert(m1[k] is Str);
    }
    let m2 = reply_json(person_id, markdown)->Obj_0;
    assert forall|k: Seq<char>| m2.dom().contains(k) implies crate::json::within_depth(
        m2[k],
        (127 - 1) as nat,
    ) by {
        assert(m2[k] is Str);
    }
}

/// Whether an HTTP status reports success.
pub open spec fn is_success_status(s: u16) -> bool {
    200 <= s < 300
}

/// Interpret the transport outcome of a fire-and-forget request (a send or
/// an add): a success status is `Ok`; any other status, and any transport
/// failure (`None`), surfaces as a transport error carrying the status.
pub fn interpret_send_response(status: Option<u16>) -> (r: Result<(), Error>)
    ensures
        match status {
            Some(s) => if is_success_status(s) {
                r is Ok
            } else {
                r == Result::<(), Error>::Err(Error::Transport(Some(s)))
            },
            None => r == Result::<(), Error>::Err(Error::Transport(None::<u16>)),
        },
{
    match status {
        Some(s) => if 200 <= s && s < 300 {
            Ok(())
        } else {
            Err(Error::Transport(Some(s)))
        },
        None => Err(Error::Transport(None)),
    }
}

/// Interpret the transport outcome of a webhook deletion. Deletion is
/// idempotent by design: a success status, "no content" and "not found" all
/// count as success — an id that no longer exists is not an error. Every
/// other outcome is a deletion failure.
pub fn interpret_delete_response(status: Option<u16>) -> (r: Result<(), Error>)
    ensures
        match status {
            Some(s) => if is_success_status(s) || s == 404 {
                r is Ok
            } else {
                r == Result::<(), Error>::Err(Error::DeleteWebhook)
            },
            None => r == Result::<(), Error>::Err(Error::DeleteWebhook),
        },
{
    match status {
        Some(s) => if (200 <= s && s < 300) || s == 404 {
            Ok(())
        } else {
            Err(Error::DeleteWebhook)
        },
        None => Err(Error::DeleteWebhook),
    }
}

/// Decode the body of a webhook-list response.
pub fn decode_webhooks_body(b: &[u8]) -> (r: Result<Webhooks, Error>)
    ensures
        match parsed_json(b@) {
            Some(j) => match webhooks_of_json(j) {
                Some(ws) => r matches Ok(x) && x@ == ws,
                None => r matches Err(e) && e == Error::Decode,
            },
            None => r matches Err(e) && e == Error::Decode,
        },
{
    match json_parse(b) {
        Some(v) => decode_webhooks(&v),
        None => Err(Error::Decode),
    }
}

/// Decode the body of a message-fetch response into a hydrated message.
pub fn decode_message_body(b: &[u8]) -> (r: Result<Message, Error>)
    ensures
        match parsed_json(b@) {
            Some(j) => match message_of_json(j) {
                Some(m) => r matches Ok(x) && x@ == m && x.wf(),
                None => r matches Err(e) && e == Error::Decode,
            },
            None => r matches Err(e) && e == Error::Decode,
        },
{
    match json_parse(b) {
        Some(v) => decode_message(&v),
        None => Err(Error::Decode),
    }
}

/// Decode the body of the self-lookup response and finish the bootstrap.
pub fn bootstrap_from_response(url: String, bot_token: String, b: &[u8]) -> (r: Result<
    Client,
    Error,
>)
    ensures
        match parsed_json(b@) {
            Some(j) => match person_details_of_json(j) {
                Some(p) => r matches Ok(c) && c.url@ == url@ && c.bot_token@ == bot_token@
                    && c.bot_id@ == p.id,
                None => r matches Err(e) && e == Error::Decode,
            },
            None => r matches Err(e) && e == Error::Decode,
        },
{
    match json_parse(b) {
        Some(v) => client_from_identity(url, bot_token, &v),
        None => Err(Error::Decode),
    }
}

} // verus!
