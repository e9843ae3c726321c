//! Platform-side records read back from the messaging API: webhook
//! registration records and the bot's own person record.

use vstd::prelude::*;

use crate::Error;
use crate::ids::{Email, EventType, PersonId, ResourceType, WebhookId};
use crate::json::{json_as_array, json_as_str, json_get, JsonData};
use crate::schema::{
    get_opt_str_field, get_str_field, get_ts_field, jopt_str, jstr, jts, parse_event_type,
    parse_resource_type, resource_type_of,
};
use crate::timestamp::Timestamp;

verus! {

// ---------------------------------------------------------------------------
// Webhook registration records
// ---------------------------------------------------------------------------

/// A webhook registration record as the platform reports it.
#[derive(Clone, Debug, PartialEq)]
pub struct Webhook {
    pub id: WebhookId,
    pub name: String,
    pub target_url: String,
    pub resource: ResourceType,
    pub event: EventType,
    pub org_id: String,
    pub created_by: String,
    pub app_id: String,
    pub owned_by: String,
    pub status: String,
    pub created: Timestamp,
}

/// Abstract value of a [`Webhook`].
pub struct WebhookV {
    pub id: Seq<char>,
    pub name: Seq<char>,
    pub target_url: Seq<char>,
    pub resource: ResourceType,
    pub event: EventType,
    pub org_id: Seq<char>,
    pub created_by: Seq<char>,
    pub app_id: Seq<char>,
    pub owned_by: Seq<char>,
    pub status: Seq<char>,
    pub created: Timestamp,
}

impl View for Webhook {
    type V = WebhookV;

    open spec fn view(&self) -> WebhookV {
        WebhookV {
            id: self.id@,
            name: self.name@,
            target_url: self.target_url@,
            resource: self.resource,
            event: self.event,
            org_id: self.org_id@,
            created_by: self.created_by@,
            app_id: self.app_id@,
            owned_by: self.owned_by@,
            status: self.status@,
            created: self.created,
        }
    }
}

/// The registration record a JSON document describes, or `None` on a schema
/// mismatch.
pub open spec fn webhook_of_json(j: JsonData) -> Option<WebhookV> {
    let id = jstr(j, "id"@);
    let name = jstr(j, "name"@);
    let target_url = jstr(j, "targetUrl"@);
    let resource = match jstr(j, "resource"@) {
        Some(s) => resource_type_of(s),
        None => None,
    };
    let event = match jstr(j, "event"@) {
        Some(s) => crate::schema::event_type_of(s),
        None => None,
    };
    let org_id = jstr(j, "orgId"@);
    let created_by = jstr(j, "createdBy"@);
    let app_id = jstr(j, "appId"@);
    let owned_by = jstr(j, "ownedBy"@);
    let status = jstr(j, "status"@);
    let created = jts(j, "created"@);
    if id is Some && name is Some && target_url is Some && resource is Some && event is Some
        && org_id is Some && created_by is Some && app_id is Some && owned_by is Some
        && status is Some && created is Some {
        Some(
            WebhookV {
                id: id->0,
                name: name->0,
                target_url: target_url->0,
                resource: resource->0,
                event: event->0,
                org_id: org_id->0,
                created_by: created_by->0,
                app_id: app_id->0,
                owned_by: owned_by->0,
                status: status->0,
                created: created->0,
            },
        )
    } else {
        None
    }
}

/// Decode one registration record from a JSON document.
pub fn decode_webhook(v: &serde_json::Value) -> (r: Result<Webhook, Error>)
    ensures
        match webhook_of_json(crate::json::json_view(*v)) {
            Some(wv) => r matches Ok(w) && w@ == wv,
            None => r matches Err(e) && e == Error::Decode,
        },
{
    let id = match get_str_field(v, "id") {
        Some(s) => WebhookId(s),
        None => {
            return Err(Error::Decode);
        },
    };
    let name = match get_str_field(v, "name") {
        Some(s) => s,
        None => {
            return Err(Error::Decode);
        },
    };
    let target_url = match get_str_field(v, "targetUrl") {
        Some(s) => s,
        None => {
            return Err(Error::Decode);
        },
    };
    let resource = match get_str_field(v, "resource") {
        Some(s) => match parse_resource_type(s.as_str()) {
            Some(t) => t,
            None => {
                return Err(Error::Decode);
            },
        },
        None => {
            return Err(Error::Decode);
        },
    };
    let event = match get_str_field(v, "event") {
        Some(s) => match parse_event_type(s.as_str()) {
            Some(e) => e,
            None => {
                return Err(Error::Decode);
            },
        },
        None => {
            return Err(Error::Decode);
        },
    };
    let org_id = match get_str_field(v, "orgId") {
        Some(s) => s,
        None => {
            return Err(Error::Decode);
        },
    };
    let created_by = match get_str_field(v, "createdBy") {
        Some(s) => s,
        None => {
            return Err(Error::Decode);
        },
    };
    let app_id = match get_str_field(v, "appId") {
        Some(s) => s,
        None => {
            return Err(Error::Decode);
        },
    };
    let owned_by = match get_str_field(v, "ownedBy") {
        Some(s) => s,
        None => {
            return Err(Error::Decode);
        },
    };
    let status = match get_str_field(v, "status") {
        Some(s) => s,
        None => {
            return Err(Error::Decode);
        },
    };
    let created = match get_ts_field(v, "created") {
        Some(t) => t,
        None => {
            return Err(Error::Decode);
        },
    };
    Ok(
        Webhook {
            id,
            name,
            target_url,
            resource,
            event,
            org_id,
            created_by,
            app_id,
            owned_by,
            status,
            created,
        },
    )
}

/// A list of registration records, as the list endpoint reports it.
#[derive(Clone, Debug, PartialEq)]
pub struct Webhooks {
    pub items: Vec<Webhook>,
}

impl View for Webhooks {
    type V = Seq<WebhookV>;

    open spec fn view(&self) -> Seq<WebhookV> {
        Seq::new(self.items@.len(), |i: int| self.items@[i]@)
    }
}

/// The registration records a JSON array describes, or `None` when any
/// element mismatches the schema.
pub open spec fn webhook_seq_of(s: Seq<JsonData>) -> Option<Seq<WebhookV>> {
    if forall|i: int| 0 <= i < s.len() ==> webhook_of_json(s[i]) is Some {
        Some(Seq::new(s.len(), |i: int| webhook_of_json(s[i])->0))
    } else {
        None
    }
}

/// The registration list a JSON document describes, or `None` on a schema
/// mismatch.
pub open spec fn webhooks_of_json(j: JsonData) -> Option<Seq<WebhookV>> {
    match j {
        JsonData::Obj(m) => if m.dom().contains("items"@) {
            match m["items"@] {
                JsonData::Arr(s) => webhook_seq_of(s),
                _ => None,
            }
        } else {
            None
        },
        _ => None,
    }
}

/// Decode the registration list from a JSON document.
#[verifier::loop_isolation(false)]
pub fn decode_webhooks(v: &serde_json::Value) -> (r: Result<Webhooks, Error>)
    ensures
        match webhooks_of_json(crate::json::json_view(*v)) {
            Some(ws) => r matches Ok(x) && x@ == ws,
            None => r matches Err(e) && e == Error::Decode,
        },
{
    let arr = match json_get(v, "items") {
        Some(w) => match json_as_array(w) {
            Some(a) => a,
            None => {
                return Err(Error::Decode);
            },
        },
        None => {
            return Err(Error::Decode);
        },
    };
    let ghost s: Seq<JsonData> = crate::json::json_view(
        *v,
    )->Obj_0["items"@]->Arr_0;
    let mut items: Vec<Webhook> = Vec::new();
    let mut i: usize = 0;
    while i < arr.len()
        invariant
            i <= arr.len(),
            arr@.len() == s.len(),
            forall|k: int| 0 <= k < s.len() ==> crate::json::json_view(arr@[k]) == s[k],
            items@.len() == i,
            forall|k: int| 0 <= k < i ==> (#[trigger] webhook_of_json(s[k])) is Some,
            forall|k: int| 0 <= k < i ==> (#[trigger] items@[k]@) == webhook_of_json(s[k])->0,
        decreases arr.len() - i,
    {
        match decode_webhook(&arr[i]) {
            Ok(w) => items.push(w),
            Err(e) => {
                proof {
                    assert(!(webhook_of_json(s[i as int]) is Some));
                }
                return Err(e);
            },
        }
        i += 1;
    }
    proof {
        let ws = webhook_seq_of(s)->0;
        assert(Webhooks { items }@ =~= ws);
    }
    Ok(Webhooks { items })
}

// ---------------------------------------------------------------------------
// The bot's own person record
// ---------------------------------------------------------------------------

/// The bot's person record, read once at bootstrap to resolve its identity.
#[derive(Clone, Debug, PartialEq)]
pub struct PersonDetails {
    pub id: PersonId,
    pub emails: Vec<Email>,
    pub display_name: String,
    pub nick_name: Option<String>,
    pub org_id: String,
    pub created: Timestamp,
    pub last_activity: Option<String>,
    pub status: Option<String>,
    pub person_type: String,
}

/// Abstract value of a [`PersonDetails`].
pub struct PersonDetailsV {
    pub id: Seq<char>,
    pub emails: Seq<Seq<char>>,
    pub display_name: Seq<char>,
    pub nick_name: Option<Seq<char>>,
    pub org_id: Seq<char>,
    pub created: Timestamp,
    pub last_activity: Option<Seq<char>>,
    pub status: Option<Seq<char>>,
    pub person_type: Seq<char>,
}

impl View for PersonDetails {
    type V = PersonDetailsV;

    open spec fn view(&self) -> PersonDetailsV {
        PersonDetailsV {
            id: self.id@,
            emails: Seq::new(self.emails@.len(), |i: int| self.emails@[i]@),
            display_name: self.display_name@,
            nick_name: match self.nick_name {
                Some(s) => Some(s@),
                None => None,
            },
            org_id: self.org_id@,
            created: self.created,
            last_activity: match self.last_activity {
                Some(s) => Some(s@),
                None => None,
            },
            status: match self.status {
                Some(s) => Some(s@),
                None => None,
            },
            person_type: self.person_type@,
        }
    }
}

/// The strings a JSON array holds, or `None` when any element is not a
/// string.
pub open spec fn str_seq_of(s: Seq<JsonData>) -> Option<Seq<Seq<char>>> {
    if forall|i: int| 0 <= i < s.len() ==> s[i] is Str {
        Some(Seq::new(s.len(), |i: int| s[i]->Str_0))
    } else {
        None
    }
}

/// The person record a JSON document describes, or `None` on a schema
/// mismatch.
pub open spec fn person_details_of_json(j: JsonData) -> Option<PersonDetailsV> {
    let id = jstr(j, "id"@);
    let emails = match j {
        JsonData::Obj(m) => if m.dom().contains("emails"@) {
            match m["emails"@] {
                JsonData::Arr(s) => str_seq_of(s),
                _ => None,
            }
        } else {
            None
        },
        _ => None,
    };
    let display_name = jstr(j, "displayName"@);
    let nick_name = jopt_str(j, "nickName"@);
    let org_id = jstr(j, "orgId"@);
    let created = jts(j, "created"@);
    let last_activity = jopt_str(j, "lastActivity"@);
    let status = jopt_str(j, "status"@);
    let person_type = jstr(j, "type"@);
    if id is Some && emails is Some && display_name is Some && nick_name is Some && org_id is Some
        && created is Some && last_activity is Some && status is Some && person_type is Some {
        Some(
            PersonDetailsV {
                id: id->0,
                emails: emails->0,
                display_name: display_name->0,
                nick_name: nick_name->0,
                org_id: org_id->0,
                created: created->0,
                last_activity: last_activity->0,
                status: status->0,
                person_type: person_type->0,
            },
        )
    } else {
        None
    }
}

/// Decode the bot's person record from a JSON document.
#[verifier::loop_isolation(false)]
pub fn decode_person_details(v: &serde_json::Value) -> (r: Result<PersonDetails, Error>)
    ensures
        match person_details_of_json(crate::json::json_view(*v)) {
            Some(pv) => r matches Ok(p) && p@ == pv,
            None => r matches Err(e) && e == Error::Decode,
        },
{
    let id = match get_str_field(v, "id") {
        Some(s) => PersonId(s),
        None => {
            return Err(Error::Decode);
        },
    };
    let arr = match json_get(v, "emails") {
        Some(w) => match json_as_array(w) {
            Some(a) => a,
            None => {
                return Err(Error::Decode);
            },
        },
        None => {
            return Err(Error::Decode);
        },
    };
    let ghost es: Seq<JsonData> = crate::json::json_view(
        *v,
    )->Obj_0["emails"@]->Arr_0;
    let mut emails: Vec<Email> = Vec::new();
    let mut i: usize = 0;
    while i < arr.len()
        invariant
            i <= arr.len(),
            arr@.len() == es.len(),
            forall|k: int| 0 <= k < es.len() ==> crate::json::json_view(arr@[k]) == es[k],
            emails@.len() == i,
            forall|k: int| 0 <= k < i ==> es[k] is Str && emails@[k]@ == es[k]->Str_0,
        decreases arr.len() - i,
    {
        match json_as_str(&arr[i]) {
            Some(s) => emails.push(Email(s.to_owned())),
            None => {
                proof {
                    assert(!(es[i as int] is Str));
                }
                return Err(Error::Decode);
            },
        }
        i += 1;
    }
    let display_name = match get_str_field(v, "displayName") {
        Some(s) => s,
        None => {
            return Err(Error::Decode);
        },
    };
    let nick_name = match get_opt_str_field(v, "nickName") {
        Some(o) => o,
        None => {
            return Err(Error::Decode);
        },
    };
    let org_id = match get_str_field(v, "orgId") {
        Some(s) => s,
        None => {
            return Err(Error::Decode);
        },
    };
    let created = match get_ts_field(v, "created") {
        Some(t) => t,
        None => {
            return Err(Error::Decode);
        },
    };
    let last_activity = match get_opt_str_field(v, "lastActivity") {
        Some(o) => o,
        None => {
            return Err(Error::Decode);
        },
    };
    let status = match get_opt_str_field(v, "status") {
        Some(o) => o,
        None => {
            return Err(Error::Decode);
        },
    };
    let person_type = match get_str_field(v, "type") {
        Some(s) => s,
        None => {
            return Err(Error::Decode);
        },
    };
    let p = PersonDetails {
        id,
        emails,
        display_name,
        nick_name,
        org_id,
        created,
        last_activity,
        status,
        person_type,
    };
    proof {
        let pv = person_details_of_json(crate::json::json_view(*v))->0;
        assert(p@.emails =~= pv.emails);
    }
    Ok(p)
}

} // verus!
