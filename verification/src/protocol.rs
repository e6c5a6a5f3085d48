//! The messages of the mesh and the fields that a node announces.
use crate::outside::{is_random_uuid, random_uuid, utc_now};
use chrono::NaiveDateTime;
use serde_json::Value;
use vstd::prelude::*;

verus! {

/// The version of the protocol that this library speaks.
pub const PROTOCOL_VERSION: i32 = 1;

/// A field of a node: something to call or something to listen to.
#[derive(Debug, PartialEq)]
pub enum Field {
    Method(MethodField),
    Event(EventField),
}

impl Clone for Field {
    fn clone(&self) -> (copy: Self)
        ensures
            copy == *self,
    {
        match self {
            Field::Method(field) => Field::Method(field.clone()),
            Field::Event(field) => Field::Event(field.clone()),
        }
    }
}

impl Field {
    /// The id of the field.
    pub open spec fn spec_id(self) -> Seq<char> {
        match self {
            Field::Method(field) => field.id@,
            Field::Event(field) => field.id@,
        }
    }

    /// The id of the field.
    pub fn id(&self) -> (id: &str)
        ensures
            id@ == self.spec_id(),
    {
        match self {
            Field::Method(field) => field.id.as_str(),
            Field::Event(field) => field.id.as_str(),
        }
    }
}

/// A field that can be called.
#[derive(Debug, PartialEq)]
pub struct MethodField {
    pub id: String,
    pub friendly_name: Option<String>,
    pub description: Option<String>,
    pub query_schema: Option<Value>,
    pub receipt_schema: Option<Value>,
}

impl Clone for MethodField {
    fn clone(&self) -> (copy: Self)
        ensures
            copy == *self,
    {
        MethodField {
            id: self.id.clone(),
            friendly_name: self.friendly_name.clone(),
            description: self.description.clone(),
            query_schema: self.query_schema.clone(),
            receipt_schema: self.receipt_schema.clone(),
        }
    }
}

impl MethodField {
    /// A method with an id and nothing else.
    pub fn new(id: &str) -> (field: Self)
        ensures
            field.id@ == id@,
            field.friendly_name is None,
            field.description is None,
            field.query_schema is None,
            field.receipt_schema is None,
    {
        MethodField {
            id: id.to_owned(),
            friendly_name: None,
            description: None,
            query_schema: None,
            receipt_schema: None,
        }
    }

    /// The method under a name for people.
    pub fn friendly_name(self, friendly_name: &str) -> (field: Self)
        ensures
            field.friendly_name.deep_view() == Some(friendly_name@),
            field == (MethodField { friendly_name: field.friendly_name, ..self }),
    {
        MethodField { friendly_name: Some(friendly_name.to_owned()), ..self }
    }

    /// The method with a description.
    pub fn description(self, description: &str) -> (field: Self)
        ensures
            field.description.deep_view() == Some(description@),
            field == (MethodField { description: field.description, ..self }),
    {
        MethodField { description: Some(description.to_owned()), ..self }
    }

    /// The method with a schema for its argument.
    pub fn query_schema(self, schema: Value) -> (field: Self)
        ensures
            field == (MethodField { query_schema: Some(schema), ..self }),
    {
        MethodField { query_schema: Some(schema), ..self }
    }

    /// The method with a schema for its result.
    pub fn receipt_schema(self, schema: Value) -> (field: Self)
        ensures
            field == (MethodField { receipt_schema: Some(schema), ..self }),
    {
        MethodField { receipt_schema: Some(schema), ..self }
    }

    /// Whether the method takes no argument and returns no result.
    pub fn is_action(&self) -> (action: bool)
        ensures
            action == (self.query_schema is None && self.receipt_schema is None),
    {
        self.query_schema.is_none() && self.receipt_schema.is_none()
    }

    /// Whether the method can be called without an argument.
    pub fn is_actable(&self) -> (actable: bool)
        ensures
            actable == (self.query_schema is None),
    {
        self.query_schema.is_none()
    }
}

/// A field that can be listened to.
#[derive(Debug, PartialEq)]
pub struct EventField {
    pub id: String,
    pub friendly_name: Option<String>,
    pub description: Option<String>,
    pub call_arg_schema: Option<Value>,
}

impl Clone for EventField {
    fn clone(&self) -> (copy: Self)
        ensures
            copy == *self,
    {
        EventField {
            id: self.id.clone(),
            friendly_name: self.friendly_name.clone(),
            description: self.description.clone(),
            call_arg_schema: self.call_arg_schema.clone(),
        }
    }
}

impl EventField {
    /// An event with an id and nothing else.
    pub fn new(id: &str) -> (field: Self)
        ensures
            field.id@ == id@,
            field.friendly_name is None,
            field.description is None,
            field.call_arg_schema is None,
    {
        EventField {
            id: id.to_owned(),
            friendly_name: None,
            description: None,
            call_arg_schema: None,
        }
    }

    /// The event under a name for people.
    pub fn friendly_name(self, friendly_name: &str) -> (field: Self)
        ensures
            field.friendly_name.deep_view() == Some(friendly_name@),
            field == (EventField { friendly_name: field.friendly_name, ..self }),
    {
        EventField { friendly_name: Some(friendly_name.to_owned()), ..self }
    }

    /// The event with a description.
    pub fn description(self, description: &str) -> (field: Self)
        ensures
            field.description.deep_view() == Some(description@),
            field == (EventField { description: field.description, ..self }),
    {
        EventField { description: Some(description.to_owned()), ..self }
    }

    /// The event with a schema for its argument.
    pub fn call_arg_schema(self, schema: Value) -> (field: Self)
        ensures
            field == (EventField { call_arg_schema: Some(schema), ..self }),
    {
        EventField { call_arg_schema: Some(schema), ..self }
    }
}

/// What a node tells the mesh about itself.
#[derive(Debug, PartialEq)]
pub struct Beacon {
    pub id: String,
    pub vendor: Option<String>,
    pub protocol_version: Option<i32>,
    pub fields: Vec<Field>,
    pub timestamp: NaiveDateTime,
}

impl Clone for Beacon {
    fn clone(&self) -> (copy: Self)
        ensures
            copy.same_as(*self),
    {
        Beacon {
            id: self.id.clone(),
            vendor: self.vendor.clone(),
            protocol_version: self.protocol_version,
            fields: self.fields.clone(),
            timestamp: self.timestamp,
        }
    }
}

impl Beacon {
    /// Two beacons with the same content.
    pub open spec fn same_as(self, other: Beacon) -> bool {
        &&& self.id == other.id
        &&& self.vendor == other.vendor
        &&& self.protocol_version == other.protocol_version
        &&& self.fields@ == other.fields@
        &&& self.timestamp == other.timestamp
    }

    /// A beacon of the given node and fields at the given time, in the version of this library and
    /// without a vendor.
    pub fn at(id: &str, fields: Vec<Field>, timestamp: NaiveDateTime) -> (beacon: Self)
        ensures
            beacon.id@ == id@,
            beacon.vendor is None,
            beacon.protocol_version == Some(PROTOCOL_VERSION),
            beacon.fields == fields,
            beacon.timestamp == timestamp,
    {
        Beacon {
            id: id.to_owned(),
            vendor: None,
            protocol_version: Some(PROTOCOL_VERSION),
            fields,
            timestamp,
        }
    }

    /// A beacon of the given node and fields, stamped with the current time.
    pub fn new(id: &str, fields: Vec<Field>) -> (beacon: Self)
        ensures
            beacon.id@ == id@,
            beacon.vendor is None,
            beacon.protocol_version == Some(PROTOCOL_VERSION),
            beacon.fields == fields,
    {
        Beacon::at(id, fields, utc_now())
    }
}

/// A call of a field on another node.
#[derive(Debug, PartialEq)]
pub struct Query {
    pub gid: String,
    pub source_gid: Option<String>,
    pub fid: String,
    pub payload: Option<Value>,
    pub qid: u128,
}

impl Clone for Query {
    fn clone(&self) -> (copy: Self)
        ensures
            copy == *self,
    {
        Query {
            gid: self.gid.clone(),
            source_gid: self.source_gid.clone(),
            fid: self.fid.clone(),
            payload: self.payload.clone(),
            qid: self.qid,
        }
    }
}

impl Query {
    /// A call under the given query id.
    pub fn with_qid(
        gid: &str,
        source_gid: &str,
        fid: &str,
        payload: Option<Value>,
        qid: u128,
    ) -> (query: Self)
        ensures
            query.gid@ == gid@,
            query.source_gid.deep_view() == Some(source_gid@),
            query.fid@ == fid@,
            query.payload == payload,
            query.qid == qid,
    {
        Query {
            gid: gid.to_owned(),
            source_gid: Some(source_gid.to_owned()),
            fid: fid.to_owned(),
            payload,
            qid,
        }
    }

    /// A call under a fresh random query id.
    pub fn new(gid: &str, source_gid: &str, fid: &str, payload: Option<Value>) -> (query: Self)
        ensures
            query.gid@ == gid@,
            query.source_gid.deep_view() == Some(source_gid@),
            query.fid@ == fid@,
            query.payload == payload,
            is_random_uuid(query.qid),
    {
        Query::with_qid(gid, source_gid, fid, payload, random_uuid())
    }
}

/// The answer to a query.
#[derive(Debug, PartialEq)]
pub struct Reply {
    pub payload: Option<Value>,
    pub qid: u128,
    pub target_gid: Option<String>,
    pub error: Option<String>,
}

impl Clone for Reply {
    fn clone(&self) -> (copy: Self)
        ensures
            copy == *self,
    {
        Reply {
            payload: self.payload.clone(),
            qid: self.qid,
            target_gid: self.target_gid.clone(),
            error: self.error.clone(),
        }
    }
}

/// Something that happened on a node.
#[derive(Debug, PartialEq)]
pub struct Event {
    pub gid: String,
    pub fid: String,
    pub arg: Option<Value>,
}

impl Clone for Event {
    fn clone(&self) -> (copy: Self)
        ensures
            copy == *self,
    {
        Event { gid: self.gid.clone(), fid: self.fid.clone(), arg: self.arg.clone() }
    }
}

/// The sign of life that a node gives between beacons.
#[derive(Debug, PartialEq, Eq)]
pub struct Heartbeat {
    pub id: String,
}

impl Clone for Heartbeat {
    fn clone(&self) -> (copy: Self)
        ensures
            copy == *self,
    {
        Heartbeat { id: self.id.clone() }
    }
}

/// A message of the mesh.
#[derive(Debug, PartialEq)]
pub enum Glycosyl {
    Beacon(Beacon),
    Query(Query),
    Reply(Reply),
    Event(Event),
    Heartbeat(Heartbeat),
}

impl Clone for Glycosyl {
    fn clone(&self) -> (copy: Self)
        ensures
            copy.same_as(*self),
    {
        match self {
            Glycosyl::Beacon(beacon) => Glycosyl::Beacon(beacon.clone()),
            Glycosyl::Query(query) => Glycosyl::Query(query.clone()),
            Glycosyl::Reply(reply) => Glycosyl::Reply(reply.clone()),
            Glycosyl::Event(event) => Glycosyl::Event(event.clone()),
            Glycosyl::Heartbeat(heartbeat) => Glycosyl::Heartbeat(heartbeat.clone()),
        }
    }
}

impl Glycosyl {
    /// Two messages with the same content.
    pub open spec fn same_as(self, other: Glycosyl) -> bool {
        match (self, other) {
            (Glycosyl::Beacon(a), Glycosyl::Beacon(b)) => a.same_as(b),
            _ => self == other,
        }
    }

    /// The node that a message is for, if it is for one node: the callee of a query, and the caller
    /// that a reply names.
    pub open spec fn spec_receiver(self) -> Option<Seq<char>> {
        match self {
            Glycosyl::Query(query) => Some(query.gid@),
            Glycosyl::Reply(reply) => reply.target_gid.deep_view(),
            _ => None,
        }
    }

    /// The node that a message is for; `None` where it is for all.
    pub fn receiver(&self) -> (receiver: Option<&str>)
        ensures
            match receiver {
                Some(gid) => self.spec_receiver() == Some(gid@),
                None => self.spec_receiver() is None,
            },
    {
        match self {
            Glycosyl::Query(query) => Some(query.gid.as_str()),
            Glycosyl::Reply(reply) => match &reply.target_gid {
                Some(gid) => Some(gid.as_str()),
                None => None,
            },
            _ => None,
        }
    }
}

} // verus!
