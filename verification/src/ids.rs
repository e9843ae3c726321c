//! Nominal string wrappers for the platform's identifier kinds, and the
//! closed enumerations of the webhook schema.
//!
//! Each identifier kind is a distinct single-field type so that ids of
//! different kinds can never be substituted for one another.

use vstd::prelude::*;

verus! {

/// Platform id of a person.
#[derive(Clone, Debug, PartialEq, Eq, Hash)]
pub struct PersonId(pub String);

/// Platform id of a watched resource.
#[derive(Clone, Debug, PartialEq, Eq, Hash)]
pub struct ResourceId(pub String);

/// An e-mail address.
#[derive(Clone, Debug, PartialEq, Eq, Hash)]
pub struct Email(pub String);

/// Platform id of a webhook registration.
#[derive(Clone, Debug, PartialEq, Eq, Hash)]
pub struct WebhookId(pub String);

/// Platform id of a chat message.
#[derive(Clone, Debug, PartialEq, Eq, Hash)]
pub struct MessageId(pub String);

/// Platform id of a chat room.
#[derive(Clone, Debug, PartialEq, Eq, Hash)]
pub struct RoomId(pub String);

impl View for PersonId {
    type V = Seq<char>;

    open spec fn view(&self) -> Seq<char> {
        self.0@
    }
}

impl View for ResourceId {
    type V = Seq<char>;

    open spec fn view(&self) -> Seq<char> {
        self.0@
    }
}

impl View for Email {
    type V = Seq<char>;

    open spec fn view(&self) -> Seq<char> {
        self.0@
    }
}

impl View for WebhookId {
    type V = Seq<char>;

    open spec fn view(&self) -> Seq<char> {
        self.0@
    }
}

impl View for MessageId {
    type V = Seq<char>;

    open spec fn view(&self) -> Seq<char> {
        self.0@
    }
}

impl View for RoomId {
    type V = Seq<char>;

    open spec fn view(&self) -> Seq<char> {
        self.0@
    }
}

impl PersonId {
    /// Whether two person ids name the same person.
    pub fn same_as(&self, other: &PersonId) -> (r: bool)
        ensures
            r == (self@ == other@),
    {
        self.0 == other.0
    }
}

impl WebhookId {
    /// Whether two webhook ids name the same registration.
    pub fn same_as(&self, other: &WebhookId) -> (r: bool)
        ensures
            r == (self@ == other@),
    {
        self.0 == other.0
    }
}

/// Kind of chat room a message was posted in.
#[derive(Clone, Copy, Debug, PartialEq, Eq, Structural, Hash)]
pub enum RoomType {
    Direct,
    Group,
}

/// Kind of resource a webhook registration watches.
#[derive(Clone, Copy, Debug, PartialEq, Eq, Structural, Hash)]
pub enum ResourceType {
    Memberships,
    Messages,
    Rooms,
}

/// Kind of event a webhook registration watches.
#[derive(Clone, Copy, Debug, PartialEq, Eq, Structural, Hash)]
pub enum EventType {
    Created,
    Updated,
    Deleted,
}

} // verus!
