//! The webhook envelope schema: typed chat messages and the envelope that
//! delivers them, with verified decoding from and encoding to abstract JSON.

use vstd::prelude::*;

use crate::Error;
use crate::ids::{Email, EventType, MessageId, PersonId, ResourceId, RoomId, RoomType, WebhookId};
use crate::json::{
    json_as_str, json_empty_object, json_get, json_insert, json_is_null, json_string, JsonData,
};
use crate::timestamp::{format_rfc3339, parse_rfc3339, rfc3339_instant, Timestamp};

verus! {

// ---------------------------------------------------------------------------
// Field extraction from an abstract JSON document
// ---------------------------------------------------------------------------

/// A required string field: present and a string.
pub open spec fn jstr(j: JsonData, k: Seq<char>) -> Option<Seq<char>> {
    match j {
        JsonData::Obj(m) => if m.dom().contains(k) {
            match m[k] {
                JsonData::Str(s) => Some(s),
                _ => None,
            }
        } else {
            None
        },
        _ => None,
    }
}

/// An optional string field: absent or null reads as `None`; any other
/// non-string content is a schema mismatch.
pub open spec fn jopt_str(j: JsonData, k: Seq<char>) -> Option<Option<Seq<char>>> {
    match j {
        JsonData::Obj(m) => if m.dom().contains(k) {
            match m[k] {
                JsonData::Str(s) => Some(Some(s)),
                JsonData::Null => Some(None),
                _ => None,
            }
        } else {
            Some(None)
        },
        _ => None,
    }
}

/// A string field that defaults to the empty string when absent.
pub open spec fn jtext(j: JsonData, k: Seq<char>) -> Option<Seq<char>> {
    match j {
        JsonData::Obj(m) => if m.dom().contains(k) {
            match m[k] {
                JsonData::Str(s) => Some(s),
                _ => None,
            }
        } else {
            Some(Seq::<char>::empty())
        },
        _ => None,
    }
}

/// A required timestamp field: a string holding valid RFC3339 text.
pub open spec fn jts(j: JsonData, k: Seq<char>) -> Option<Timestamp> {
    match jstr(j, k) {
        Some(s) => match rfc3339_instant(s) {
            Some(p) => Some(Timestamp { secs: p.0, nanos: p.1 }),
            None => None,
        },
        None => None,
    }
}

/// An optional timestamp field: absent or null reads as `None`; present text
/// must be valid RFC3339.
pub open spec fn jopt_ts(j: JsonData, k: Seq<char>) -> Option<Option<Timestamp>> {
    match jopt_str(j, k) {
        Some(Some(s)) => match rfc3339_instant(s) {
            Some(p) => Some(Some(Timestamp { secs: p.0, nanos: p.1 })),
            None => None,
        },
        Some(None) => Some(None),
        None => None,
    }
}

/// Read a required string field of a JSON object.
pub fn get_str_field(v: &serde_json::Value, key: &str) -> (r: Option<String>)
    ensures
        match jstr(crate::json::json_view(*v), key@) {
            Some(s) => r matches Some(t) && t@ == s,
            None => r is None,
        },
{
    match json_get(v, key) {
        Some(w) => match json_as_str(w) {
            Some(s) => Some(s.to_owned()),
            None => None,
        },
        None => None,
    }
}

/// Read an optional string field of a JSON object. The outer `None` reports a
/// schema mismatch; `Some(None)` reports an absent or null field.
pub fn get_opt_str_field(v: &serde_json::Value, key: &str) -> (r: Option<Option<String>>)
    ensures
        match jopt_str(crate::json::json_view(*v), key@) {
            Some(Some(s)) => r matches Some(t) && t matches Some(u) && u@ == s,
            Some(None) => r == Some(None::<String>),
            None => r is None,
        },
{
    if !crate::json::json_is_object(v) {
        return None;
    }
    match json_get(v, key) {
        Some(w) => if json_is_null(w) {
            Some(None)
        } else {
            match json_as_str(w) {
                Some(s) => Some(Some(s.to_owned())),
                None => None,
            }
        },
        None => Some(None),
    }
}

/// Read a string field that defaults to the empty string when absent.
pub fn get_text_field(v: &serde_json::Value, key: &str) -> (r: Option<String>)
    ensures
        match jtext(crate::json::json_view(*v), key@) {
            Some(s) => r matches Some(t) && t@ == s,
            None => r is None,
        },
{
    if !crate::json::json_is_object(v) {
        return None;
    }
    match json_get(v, key) {
        Some(w) => match json_as_str(w) {
            Some(s) => Some(s.to_owned()),
            None => None,
        },
        None => Some(String::new()),
    }
}

/// Read a required RFC3339 timestamp field of a JSON object.
pub fn get_ts_field(v: &serde_json::Value, key: &str) -> (r: Option<Timestamp>)
    ensures
        match jts(crate::json::json_view(*v), key@) {
            Some(t) => r == Some(t) && t.wf(),
            None => r is None,
        },
{
    match get_str_field(v, key) {
        Some(s) => parse_rfc3339(s.as_str()),
        None => None,
    }
}

/// Read an optional RFC3339 timestamp field of a JSON object.
pub fn get_opt_ts_field(v: &serde_json::Value, key: &str) -> (r: Option<Option<Timestamp>>)
    ensures
        match jopt_ts(crate::json::json_view(*v), key@) {
            Some(Some(t)) => r == Some(Some(t)) && t.wf(),
            Some(None) => r == Some(None::<Timestamp>),
            None => r is None,
        },
{
    match get_opt_str_field(v, key) {
        Some(Some(s)) => match parse_rfc3339(s.as_str()) {
            Some(t) => Some(Some(t)),
            None => None,
        },
        Some(None) => Some(None),
        None => None,
    }
}

// ---------------------------------------------------------------------------
// Closed enumerations as text
// ---------------------------------------------------------------------------

/// The event kind a piece of schema text denotes.
pub open spec fn event_type_of(s: Seq<char>) -> Option<EventType> {
    if s == "created"@ {
        Some(EventType::Created)
    } else if s == "updated"@ {
        Some(EventType::Updated)
    } else if s == "deleted"@ {
        Some(EventType::Deleted)
    } else {
        None
    }
}

/// The schema text of an event kind.
pub open spec fn event_type_text(e: EventType) -> Seq<char> {
    match e {
        EventType::Created => "created"@,
        EventType::Updated => "updated"@,
        EventType::Deleted => "deleted"@,
    }
}

/// The room kind a piece of schema text denotes.
pub open spec fn room_type_of(s: Seq<char>) -> Option<RoomType> {
    if s == "direct"@ {
        Some(RoomType::Direct)
    } else if s == "group"@ {
        Some(RoomType::Group)
    } else {
        None
    }
}

/// The schema text of a room kind.
pub open spec fn room_type_text(t: RoomType) -> Seq<char> {
    match t {
        RoomType::Direct => "direct"@,
        RoomType::Group => "group"@,
    }
}

/// The resource kind a piece of schema text denotes.
pub open spec fn resource_type_of(s: Seq<char>) -> Option<crate::ids::ResourceType> {
    if s == "memberships"@ {
        Some(crate::ids::ResourceType::Memberships)
    } else if s == "messages"@ {
        Some(crate::ids::ResourceType::Messages)
    } else if s == "rooms"@ {
        Some(crate::ids::ResourceType::Rooms)
    } else {
        None
    }
}

/// The schema text of a resource kind.
pub open spec fn resource_type_text(t: crate::ids::ResourceType) -> Seq<char> {
    match t {
        crate::ids::ResourceType::Memberships => "memberships"@,
        crate::ids::ResourceType::Messages => "messages"@,
        crate::ids::ResourceType::Rooms => "rooms"@,
    }
}

/// Reading back the text of an event kind yields that kind.
pub proof fn lemma_event_type_round_trip(e: EventType)
    ensures
        event_type_of(event_type_text(e)) == Some(e),
{
    reveal_strlit("created");
    reveal_strlit("updated");
    reveal_strlit("deleted");
    assert("created"@[0] == 'c');
    assert("updated"@[0] == 'u');
    assert("deleted"@[0] == 'd');
}

/// Reading back the text of a room kind yields that kind.
pub proof fn lemma_room_type_round_trip(t: RoomType)
    ensures
        room_type_of(room_type_text(t)) == Some(t),
{
    reveal_strlit("direct");
    reveal_strlit("group");
    assert("direct"@.len() == 6);
    assert("group"@.len() == 5);
}

/// Reading back the text of a resource kind yields that kind.
pub proof fn lemma_resource_type_round_trip(t: crate::ids::ResourceType)
    ensures
        resource_type_of(resource_type_text(t)) == Some(t),
{
    reveal_strlit("memberships");
    reveal_strlit("messages");
    reveal_strlit("rooms");
    assert("memberships"@.len() == 11);
    assert("messages"@.len() == 8);
    assert("rooms"@.len() == 5);
}

/// Parse the schema text of an event kind.
pub fn parse_event_type(s: &str) -> (r: Option<EventType>)
    ensures
        r == event_type_of(s@),
{
    if crate::json::str_eq(s, "created") {
        Some(EventType::Created)
    } else if crate::json::str_eq(s, "updated") {
        Some(EventType::Updated)
    } else if crate::json::str_eq(s, "deleted") {
        Some(EventType::Deleted)
    } else {
        None
    }
}

/// Parse the schema text of a room kind.
pub fn parse_room_type(s: &str) -> (r: Option<RoomType>)
    ensures
        r == room_type_of(s@),
{
    if crate::json::str_eq(s, "direct") {
        Some(RoomType::Direct)
    } else if crate::json::str_eq(s, "group") {
        Some(RoomType::Group)
    } else {
        None
    }
}

/// Parse the schema text of a resource kind.
pub fn parse_resource_type(s: &str) -> (r: Option<crate::ids::ResourceType>)
    ensures
        r == resource_type_of(s@),
{
    if crate::json::str_eq(s, "memberships") {
        Some(crate::ids::ResourceType::Memberships)
    } else if crate::json::str_eq(s, "messages") {
        Some(crate::ids::ResourceType::Messages)
    } else if crate::json::str_eq(s, "rooms") {
        Some(crate::ids::ResourceType::Rooms)
    } else {
        None
    }
}

// ---------------------------------------------------------------------------
// Message
// ---------------------------------------------------------------------------

/// A chat message. As embedded in a webhook envelope it is a stub (body
/// fields absent, `text` empty); fetched by id it is hydrated.
#[derive(Clone, Debug, PartialEq)]
pub struct Message {
    pub created: Option<Timestamp>,
    pub id: MessageId,
    pub person_email: Email,
    pub person_id: PersonId,
    pub room_id: RoomId,
    pub room_type: RoomType,
    pub text: String,
    pub markdown: Option<String>,
    pub html: Option<String>,
}

/// Abstract value of a [`Message`].
pub struct MessageV {
    pub created: Option<Timestamp>,
    pub id: Seq<char>,
    pub person_email: Seq<char>,
    pub person_id: Seq<char>,
    pub room_id: Seq<char>,
    pub room_type: RoomType,
    pub text: Seq<char>,
    pub markdown: Option<Seq<char>>,
    pub html: Option<Seq<char>>,
}

impl View for Message {
    type V = MessageV;

    open spec fn view(&self) -> MessageV {
        MessageV {
            created: self.created,
            id: self.id@,
            person_email: self.person_email@,
            person_id: self.person_id@,
            room_id: self.room_id@,
            room_type: self.room_type,
            text: self.text@,
            markdown: match self.markdown {
                Some(s) => Some(s@),
                None => None,
            },
            html: match self.html {
                Some(s) => Some(s@),
                None => None,
            },
        }
    }
}

impl MessageV {
    /// Whether the embedded creation time, if any, falls in the years that
    /// RFC3339 text can carry — what re-encoding the message needs.
    pub open spec fn times_in_text_range(self) -> bool {
        match self.created {
            Some(t) => crate::timestamp::rfc3339_four_digit_year(t.secs),
            None => true,
        }
    }
}

impl Message {
    /// Well-formedness: an embedded creation time is representable.
    pub open spec fn wf(&self) -> bool {
        match self.created {
            Some(t) => t.wf(),
            None => true,
        }
    }
}

/// The message a JSON document describes, or `None` on a schema mismatch.
pub open spec fn message_of_json(j: JsonData) -> Option<MessageV> {
    let id = jstr(j, "id"@);
    let pe = jstr(j, "personEmail"@);
    let pid = jstr(j, "personId"@);
    let rid = jstr(j, "roomId"@);
    let rt = match jstr(j, "roomType"@) {
        Some(s) => room_type_of(s),
        None => None,
    };
    let created = jopt_ts(j, "created"@);
    let text = jtext(j, "text"@);
    let md = jopt_str(j, "markdown"@);
    let html = jopt_str(j, "html"@);
    if id is Some && pe is Some && pid is Some && rid is Some && rt is Some && created is Some
        && text is Some && md is Some && html is Some {
        Some(
            MessageV {
                created: created->0,
                id: id->0,
                person_email: pe->0,
                person_id: pid->0,
                room_id: rid->0,
                room_type: rt->0,
                text: text->0,
                markdown: md->0,
                html: html->0,
            },
        )
    } else {
        None
    }
}

/// Decode a chat message from a JSON document.
pub fn decode_message(v: &serde_json::Value) -> (r: Result<Message, Error>)
    ensures
        match message_of_json(crate::json::json_view(*v)) {
            Some(mv) => r matches Ok(m) && m@ == mv && m.wf(),
            None => r matches Err(e) && e == Error::Decode,
        },
{
    let id = match get_str_field(v, "id") {
        Some(s) => MessageId(s),
        None => {
            return Err(Error::Decode);
        },
    };
    let person_email = match get_str_field(v, "personEmail") {
        Some(s) => Email(s),
        None => {
            return Err(Error::Decode);
        },
    };
    let person_id = match get_str_field(v, "personId") {
        Some(s) => PersonId(s),
        None => {
            return Err(Error::Decode);
        },
    };
    let room_id = match get_str_field(v, "roomId") {
        Some(s) => RoomId(s),
        None => {
            return Err(Error::Decode);
        },
    };
    let room_type = match get_str_field(v, "roomType") {
        Some(s) => match parse_room_type(s.as_str()) {
            Some(t) => t,
            None => {
                return Err(Error::Decode);
            },
        },
        None => {
            return Err(Error::Decode);
        },
    };
    let created = match get_opt_ts_field(v, "created") {
        Some(c) => c,
        None => {
            return Err(Error::Decode);
        },
    };
    let text = match get_text_field(v, "text") {
        Some(s) => s,
        None => {
            return Err(Error::Decode);
        },
    };
    let markdown = match get_opt_str_field(v, "markdown") {
        Some(m) => m,
        None => {
            return Err(Error::Decode);
        },
    };
    let html = match get_opt_str_field(v, "html") {
        Some(m) => m,
        None => {
            return Err(Error::Decode);
        },
    };
    Ok(Message { created, id, person_email, person_id, room_id, room_type, text, markdown, html })
}

/// Encode a chat message as a JSON document. Fails only when an embedded
/// creation time cannot be written as RFC3339 text (not representable, or
/// its year outside four digits); decoding the result yields the message
/// back, field for field.
pub fn encode_message(m: &Message) -> (r: Option<serde_json::Value>)
    ensures
        r matches Some(v) ==> message_of_json(crate::json::json_view(v)) == Some(m@),
        m.wf() && m@.times_in_text_range() ==> r is Some,
{
    let mut obj = json_empty_object();
    json_insert(&mut obj, "id", json_string(m.id.0.as_str()));
    json_insert(&mut obj, "personEmail", json_string(m.person_email.0.as_str()));
    json_insert(&mut obj, "personId", json_string(m.person_id.0.as_str()));
    json_insert(&mut obj, "roomId", json_string(m.room_id.0.as_str()));
    match m.room_type {
        RoomType::Direct => json_insert(&mut obj, "roomType", json_string("direct")),
        RoomType::Group => json_insert(&mut obj, "roomType", json_string("group")),
    }
    match &m.created {
        Some(t) => {
            if !t.in_text_range() {
                return None;
            }
            let s = match format_rfc3339(t) {
                Some(s) => s,
                None => {
                    return None;
                },
            };
            json_insert(&mut obj, "created", json_string(s.as_str()));
        },
        None => {},
    }
    json_insert(&mut obj, "text", json_string(m.text.as_str()));
    match &m.markdown {
        Some(s) => json_insert(&mut obj, "markdown", json_string(s.as_str())),
        None => {},
    }
    match &m.html {
        Some(s) => json_insert(&mut obj, "html", json_string(s.as_str())),
        None => {},
    }
    proof {
        reveal_strlit("id");
        reveal_strlit("personEmail");
        reveal_strlit("personId");
        reveal_strlit("roomId");
        reveal_strlit("roomType");
        reveal_strlit("created");
        reveal_strlit("text");
        reveal_strlit("markdown");
        reveal_strlit("html");
        assert("id"@.len() == 2 && "id"@[0] == 'i');
        assert("personEmail"@.len() == 11 && "personEmail"@[0] == 'p');
        assert("personId"@.len() == 8 && "personId"@[0] == 'p');
        assert("roomId"@.len() == 6 && "roomId"@[0] == 'r');
        assert("roomType"@.len() == 8 && "roomType"@[0] == 'r');
        assert("created"@.len() == 7 && "created"@[0] == 'c');
        assert("text"@.len() == 4 && "text"@[0] == 't');
        assert("markdown"@.len() == 8 && "markdown"@[0] == 'm');
        assert("html"@.len() == 4 && "html"@[0] == 'h');
        lemma_room_type_round_trip(m.room_type);
    }
    Some(obj)
}

// ---------------------------------------------------------------------------
// Webhook envelope
// ---------------------------------------------------------------------------

/// The raw envelope delivered by a webhook POST: metadata about the event
/// plus an embedded stub message. It exists only for the duration of one
/// request before being unwrapped.
#[derive(Clone, Debug, PartialEq)]
pub struct WebhookMessage {
    pub id: WebhookId,
    pub actor_id: PersonId,
    pub app_id: String,
    pub created: Timestamp,
    pub created_by: PersonId,
    pub data: Message,
    pub event: EventType,
    pub name: String,
    pub org_id: String,
    pub owned_by: String,
    pub resource: ResourceId,
    pub status: String,
    pub target_url: String,
}

/// Abstract value of a [`WebhookMessage`].
pub struct WebhookMessageV {
    pub id: Seq<char>,
    pub actor_id: Seq<char>,
    pub app_id: Seq<char>,
    pub created: Timestamp,
    pub created_by: Seq<char>,
    pub data: MessageV,
    pub event: EventType,
    pub name: Seq<char>,
    pub org_id: Seq<char>,
    pub owned_by: Seq<char>,
    pub resource: Seq<char>,
    pub status: Seq<char>,
    pub target_url: Seq<char>,
}

impl View for WebhookMessage {
    type V = WebhookMessageV;

    open spec fn view(&self) -> WebhookMessageV {
        WebhookMessageV {
            id: self.id@,
            actor_id: self.actor_id@,
            app_id: self.app_id@,
            created: self.created,
            created_by: self.created_by@,
            data: self.data@,
            event: self.event,
            name: self.name@,
            org_id: self.org_id@,
            owned_by: self.owned_by@,
            resource: self.resource@,
            status: self.status@,
            target_url: self.target_url@,
        }
    }
}

impl WebhookMessageV {
    /// Whether every instant the envelope carries falls in the years that
    /// RFC3339 text can carry — what re-encoding the envelope needs.
    pub open spec fn times_in_text_range(self) -> bool {
        crate::timestamp::rfc3339_four_digit_year(self.created.secs)
            && self.data.times_in_text_range()
    }
}

impl WebhookMessage {
    /// Well-formedness: the envelope's creation time and the embedded
    /// message are representable.
    pub open spec fn wf(&self) -> bool {
        self.created.wf() && self.data.wf()
    }
}

/// The embedded message of an envelope document, or `None` when the `data`
/// field is absent or mismatched.
pub open spec fn jdata(j: JsonData) -> Option<MessageV> {
    match j {
        JsonData::Obj(m) => if m.dom().contains("data"@) {
            message_of_json(m["data"@])
        } else {
            None
        },
        _ => None,
    }
}

/// The webhook envelope a JSON document describes, or `None` on a schema
/// mismatch.
pub open spec fn webhook_message_of_json(j: JsonData) -> Option<WebhookMessageV> {
    let id = jstr(j, "id"@);
    let actor_id = jstr(j, "actorId"@);
    let app_id = jstr(j, "appId"@);
    let created = jts(j, "created"@);
    let created_by = jstr(j, "createdBy"@);
    let data = jdata(j);
    let event = match jstr(j, "event"@) {
        Some(s) => event_type_of(s),
        None => None,
    };
    let name = jstr(j, "name"@);
    let org_id = jstr(j, "orgId"@);
    let owned_by = jstr(j, "ownedBy"@);
    let resource = jstr(j, "resource"@);
    let status = jstr(j, "status"@);
    let target_url = jstr(j, "targetUrl"@);
    if id is Some && actor_id is Some && app_id is Some && created is Some && created_by is Some
        && data is Some && event is Some && name is Some && org_id is Some && owned_by is Some
        && resource is Some && status is Some && target_url is Some {
        Some(
            WebhookMessageV {
                id: id->0,
                actor_id: actor_id->0,
                app_id: app_id->0,
                created: created->0,
                created_by: created_by->0,
                data: data->0,
                event: event->0,
                name: name->0,
                org_id: org_id->0,
                owned_by: owned_by->0,
                resource: resource->0,
                status: status->0,
                target_url: target_url->0,
            },
        )
    } else {
        None
    }
}

/// Decode a webhook envelope from a JSON document.
pub fn decode_webhook_message(v: &serde_json::Value) -> (r: Result<WebhookMessage, Error>)
    ensures
        match webhook_message_of_json(crate::json::json_view(*v)) {
            Some(mv) => r matches Ok(m) && m@ == mv && m.wf(),
            None => r matches Err(e) && e == Error::Decode,
        },
{
    let id = match get_str_field(v, "id") {
        Some(s) => WebhookId(s),
        None => {
            return Err(Error::Decode);
        },
    };
    let actor_id = match get_str_field(v, "actorId") {
        Some(s) => PersonId(s),
        None => {
            return Err(Error::Decode);
        },
    };
    let app_id = match get_str_field(v, "appId") {
        Some(s) => s,
        None => {
            return Err(Error::Decode);
        },
    };
    let created = match get_ts_field(v, "created") {
        Some(t) => t,
        None => {
            return Err(Error::Decode);
        },
    };
    let created_by = match get_str_field(v, "createdBy") {
        Some(s) => PersonId(s),
        None => {
            return Err(Error::Decode);
        },
    };
    let data = match json_get(v, "data") {
        Some(w) => match decode_message(w) {
            Ok(m) => m,
            Err(e) => {
                return Err(e);
            },
        },
        None => {
            return Err(Error::Decode);
        },
    };
    let event = match get_str_field(v, "event") {
        Some(s) => match parse_event_type(s.as_str()) {
            Some(e) => e,
            None => {
                return Err(Error::Decode);
            },
        },
        None => {
            return Err(Error::Decode);
        },
    };
    let name = match get_str_field(v, "name") {
        Some(s) => s,
        None => {
            return Err(Error::Decode);
        },
    };
    let org_id = match get_str_field(v, "orgId") {
        Some(s) => s,
        None => {
            return Err(Error::Decode);
        },
    };
    let owned_by = match get_str_field(v, "ownedBy") {
        Some(s) => s,
        None => {
            return Err(Error::Decode);
        },
    };
    let resource = match get_str_field(v, "resource") {
        Some(s) => ResourceId(s),
        None => {
            return Err(Error::Decode);
        },
    };
    let status = match get_str_field(v, "status") {
        Some(s) => s,
        None => {
            return Err(Error::Decode);
        },
    };
    let target_url = match get_str_field(v, "targetUrl") {
        Some(s) => s,
        None => {
            return Err(Error::Decode);
        },
    };
    Ok(
        WebhookMessage {
            id,
            actor_id,
            app_id,
            created,
            created_by,
            data,
            event,
            name,
            org_id,
            owned_by,
            resource,
            status,
            target_url,
        },
    )
}

/// Encode a webhook envelope as a JSON document. Fails only when a carried
/// instant cannot be written as RFC3339 text; decoding the result yields
/// the envelope back, field for field — in particular every identifier and
/// every timestamp instant round-trips exactly.
pub fn encode_webhook_message(m: &WebhookMessage) -> (r: Option<serde_json::Value>)
    ensures
        r matches Some(v) ==> webhook_message_of_json(crate::json::json_view(v)) == Some(m@),
        m.wf() && m@.times_in_text_range() ==> r is Some,
{
    let data = match encode_message(&m.data) {
        Some(d) => d,
        None => {
            return None;
        },
    };
    if !m.created.in_text_range() {
        return None;
    }
    let created = match format_rfc3339(&m.created) {
        Some(s) => s,
        None => {
            return None;
        },
    };
    let mut obj = json_empty_object();
    json_insert(&mut obj, "id", json_string(m.id.0.as_str()));
    json_insert(&mut obj, "actorId", json_string(m.actor_id.0.as_str()));
    json_insert(&mut obj, "appId", json_string(m.app_id.as_str()));
    json_insert(&mut obj, "created", json_string(created.as_str()));
    json_insert(&mut obj, "createdBy", json_string(m.created_by.0.as_str()));
    json_insert(&mut obj, "data", data);
    match m.event {
        EventType::Created => json_insert(&mut obj, "event", json_string("created")),
        EventType::Updated => json_insert(&mut obj, "event", json_string("updated")),
        EventType::Deleted => json_insert(&mut obj, "event", json_string("deleted")),
    }
    json_insert(&mut obj, "name", json_string(m.name.as_str()));
    json_insert(&mut obj, "orgId", json_string(m.org_id.as_str()));
    json_insert(&mut obj, "ownedBy", json_string(m.owned_by.as_str()));
    json_insert(&mut obj, "resource", json_string(m.resource.0.as_str()));
    json_insert(&mut obj, "status", json_string(m.status.as_str()));
    json_insert(&mut obj, "targetUrl", json_string(m.target_url.as_str()));
    proof {
        reveal_strlit("id");
        reveal_strlit("actorId");
        reveal_strlit("appId");
        reveal_strlit("created");
        reveal_strlit("createdBy");
        reveal_strlit("data");
        reveal_strlit("event");
        reveal_strlit("name");
        reveal_strlit("orgId");
        reveal_strlit("ownedBy");
        reveal_strlit("resource");
        reveal_strlit("status");
        reveal_strlit("targetUrl");
        assert("id"@.len() == 2 && "id"@[0] == 'i');
        assert("actorId"@.len() == 7 && "actorId"@[0] == 'a');
        assert("appId"@.len() == 5 && "appId"@[0] == 'a' && "appId"@[1] == 'p');
        assert("created"@.len() == 7 && "created"@[0] == 'c');
        assert("createdBy"@.len() == 9 && "createdBy"@[0] == 'c');
        assert("data"@.len() == 4 && "data"@[0] == 'd');
        assert("event"@.len() == 5 && "event"@[0] == 'e');
        assert("name"@.len() == 4 && "name"@[0] == 'n');
        assert("orgId"@.len() == 5 && "orgId"@[0] == 'o');
        assert("ownedBy"@.len() == 7 && "ownedBy"@[0] == 'o' && "ownedBy"@[1] == 'w');
        assert("resource"@.len() == 8 && "resource"@[0] == 'r');
        assert("status"@.len() == 6 && "status"@[0] == 's');
        assert("targetUrl"@.len() == 9 && "targetUrl"@[0] == 't');
        lemma_event_type_round_trip(m.event);
    }
    Some(obj)
}

/// Decode a webhook envelope and encode it again. Whenever the re-encoding
/// exists, it decodes to the very same envelope, so the identifier fields
/// and the timestamp instants round-trip exactly; and it exists for every
/// decodable envelope whose UTC-normalized instants stay within four-digit
/// years (an offset of up to ±23:59 in the input text can push an instant
/// just past a year boundary that RFC3339 output cannot carry).
pub fn reencode_webhook_message(v: &serde_json::Value) -> (r: Option<serde_json::Value>)
    ensures
        match webhook_message_of_json(crate::json::json_view(*v)) {
            Some(mv) => {
                &&& (r matches Some(w) ==> webhook_message_of_json(crate::json::json_view(w))
                    == Some(mv))
                &&& mv.times_in_text_range() ==> r is Some
            },
            None => r is None,
        },
{
    match decode_webhook_message(v) {
        Ok(m) => encode_webhook_message(&m),
        Err(_) => None,
    }
}

} // verus!
