use vstd::prelude::*;

use crate::ids::Uuid;
use crate::models::{Category, Identifier, Relation, Id, Timestamp};
use crate::request::{single_pair, Method, Request};

verus! {

/// The subtypes of events.
#[derive(Clone, Copy, Debug, PartialEq, Eq, Structural)]
pub enum EventType {
    Lease,
    Booking,
}

impl EventType {
    /// The subtype's tag: the list filter value, the wire discriminator and
    /// the type of a relation to an entity of this subtype.
    pub open spec fn spec_str(&self) -> Seq<char> {
        match self {
            EventType::Lease => "lease"@,
            EventType::Booking => "booking"@,
        }
    }

    pub fn to_string(&self) -> (r: String)
        ensures
            r@ == self.spec_str(),
    {
        match self {
            EventType::Lease => String::from_str("lease"),
            EventType::Booking => String::from_str("booking"),
        }
    }
}

/// A stored event, of one of its subtypes.
#[derive(Clone, Debug)]
pub enum Event {
    Lease(Lease),
    Booking(Booking),
}

#[derive(Clone, Debug)]
pub struct Lease {
    pub id: Uuid,
    pub name: String,
    pub start: Timestamp,
    pub end: Option<Timestamp>,
    pub identifiers: Option<Vec<Identifier>>,
    pub leasee: Option<Vec<Relation>>,
    pub leasor: Option<Vec<Relation>>,
    pub lease_of: Option<Vec<Relation>>,
}

#[derive(Clone, Debug)]
pub struct Booking {
    pub id: Uuid,
    pub name: String,
    pub start: Timestamp,
    pub end: Timestamp,
    pub identifiers: Option<Vec<Identifier>>,
    pub booked_by: Option<Relation>,
    pub lease: Option<Relation>,
    pub room: Option<Relation>,
}

/// An event to create: an entity without its id, which the server assigns.
#[derive(Clone, Debug)]
pub enum NewEvent {
    Lease {
        name: String,
        start: String,
        end: Option<String>,
        identifiers: Option<Vec<Identifier>>,
        leasee: Option<Vec<Id>>,
        leasor: Option<Vec<Id>>,
        lease_of: Option<Vec<Id>>,
    },
    Booking {
        name: String,
        start: String,
        end: String,
        identifiers: Option<Vec<Identifier>>,
        booked_by: Option<Id>,
        lease: Id,
        room: Option<Id>,
    },
}

impl Event {
    pub open spec fn spec_id(&self) -> Uuid {
        match self {
            Event::Lease(e) => e.id,
            Event::Booking(e) => e.id,
        }
    }

    pub open spec fn spec_name(&self) -> Seq<char> {
        match self {
            Event::Lease(e) => e.name@,
            Event::Booking(e) => e.name@,
        }
    }

    pub open spec fn spec_type(&self) -> EventType {
        match self {
            Event::Lease(_) => EventType::Lease,
            Event::Booking(_) => EventType::Booking,
        }
    }

    pub fn id(&self) -> (r: Uuid)
        ensures
            r == self.spec_id(),
    {
        match self {
            Event::Lease(e) => e.id,
            Event::Booking(e) => e.id,
        }
    }

    pub fn event_type(&self) -> (r: EventType)
        ensures
            r == self.spec_type(),
    {
        match self {
            Event::Lease(_) => EventType::Lease,
            Event::Booking(_) => EventType::Booking,
        }
    }
}

impl NewEvent {
    pub open spec fn spec_type(&self) -> EventType {
        match self {
            NewEvent::Lease { .. } => EventType::Lease,
            NewEvent::Booking { .. } => EventType::Booking,
        }
    }

    pub fn event_type(&self) -> (r: EventType)
        ensures
            r == self.spec_type(),
    {
        match self {
            NewEvent::Lease { .. } => EventType::Lease,
            NewEvent::Booking { .. } => EventType::Booking,
        }
    }
}

/// Lists the events of one subtype: `GET event?type=<subtype>`.
impl Request for EventType {
    open spec fn spec_endpoint(&self) -> Seq<char> {
        Category::Event.spec_path()
    }

    open spec fn spec_method(&self) -> Method {
        Method::Get
    }

    open spec fn spec_query(&self) -> Option<Seq<(Seq<char>, Seq<char>)>> {
        Some(seq![("type"@, self.spec_str())])
    }

    open spec fn spec_form(&self) -> Option<Seq<(Seq<char>, Seq<char>)>> {
        None
    }

    open spec fn spec_basic_auth(&self) -> Option<(Seq<char>, Option<Seq<char>>)> {
        None
    }

    open spec fn spec_has_body(&self) -> bool {
        false
    }

    fn endpoint(&self) -> String {
        Category::Event.path()
    }

    fn method(&self) -> Method {
        Method::Get
    }

    fn query(&self) -> Option<Vec<(String, String)>> {
        Some(single_pair("type", self.to_string()))
    }

    fn form(&self) -> Option<Vec<(String, String)>> {
        None
    }

    fn basic_auth(&self) -> Option<(String, Option<String>)> {
        None
    }

    fn has_body(&self) -> bool {
        false
    }
}

/// Creates an entry: `POST event` with the entry as the body.
impl Request for NewEvent {
    open spec fn spec_endpoint(&self) -> Seq<char> {
        Category::Event.spec_path()
    }

    open spec fn spec_method(&self) -> Method {
        Method::Post
    }

    open spec fn spec_query(&self) -> Option<Seq<(Seq<char>, Seq<char>)>> {
        None
    }

    open spec fn spec_form(&self) -> Option<Seq<(Seq<char>, Seq<char>)>> {
        None
    }

    open spec fn spec_basic_auth(&self) -> Option<(Seq<char>, Option<Seq<char>>)> {
        None
    }

    open spec fn spec_has_body(&self) -> bool {
        true
    }

    fn endpoint(&self) -> String {
        Category::Event.path()
    }

    fn method(&self) -> Method {
        Method::Post
    }

    fn query(&self) -> Option<Vec<(String, String)>> {
        None
    }

    fn form(&self) -> Option<Vec<(String, String)>> {
        None
    }

    fn basic_auth(&self) -> Option<(String, Option<String>)> {
        None
    }

    fn has_body(&self) -> bool {
        true
    }
}

/// Replaces an entry: `PUT event/<id>` with the whole entry as the body.
impl Request for Event {
    open spec fn spec_endpoint(&self) -> Seq<char> {
        Category::Event.spec_item_path(self.spec_id())
    }

    open spec fn spec_method(&self) -> Method {
        Method::Put
    }

    open spec fn spec_query(&self) -> Option<Seq<(Seq<char>, Seq<char>)>> {
        None
    }

    open spec fn spec_form(&self) -> Option<Seq<(Seq<char>, Seq<char>)>> {
        None
    }

    open spec fn spec_basic_auth(&self) -> Option<(Seq<char>, Option<Seq<char>>)> {
        None
    }

    open spec fn spec_has_body(&self) -> bool {
        true
    }

    fn endpoint(&self) -> String {
        Category::Event.item_path(self.id())
    }

    fn method(&self) -> Method {
        Method::Put
    }

    fn query(&self) -> Option<Vec<(String, String)>> {
        None
    }

    fn form(&self) -> Option<Vec<(String, String)>> {
        None
    }

    fn basic_auth(&self) -> Option<(String, Option<String>)> {
        None
    }

    fn has_body(&self) -> bool {
        true
    }
}

} // verus!
