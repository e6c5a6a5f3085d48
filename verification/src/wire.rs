//! The text of messages on the wire: JSON objects with Pascal-case member names, a `Type` member
//! in front, and `null` for what is absent.
use crate::error::GlycoError;
use crate::outside::{
    json_quoted, json_text, rfc3339_text, uuid_text, write_json, write_json_string, write_rfc3339,
    write_uuid,
};
use crate::protocol::{Beacon, Event, Field, Glycosyl, Heartbeat, Query, Reply};
use crate::text::{push_signed_decimal, signed_decimal};
use serde_json::Value;
use vstd::prelude::*;
use vstd::slice::slice_to_vec;
use vstd::string::*;
use vstd::utf8::*;

verus! {

/// The JSON text of an optional string.
pub open spec fn optional_string_text(text: Option<String>) -> Seq<char> {
    match text {
        Some(text) => json_quoted(text@),
        None => "null"@,
    }
}

/// The JSON text of an optional document.
pub open spec fn optional_value_text(value: Option<Value>) -> Seq<char> {
    match value {
        Some(value) => json_text(value),
        None => "null"@,
    }
}

/// The JSON text of an optional number.
pub open spec fn optional_number_text(number: Option<i32>) -> Seq<char> {
    match number {
        Some(number) => signed_decimal(number as int),
        None => "null"@,
    }
}

/// The JSON text of a field.
pub open spec fn field_text(field: Field) -> Seq<char> {
    match field {
        Field::Method(field) => "{\"Type\":\"Method\",\"Id\":"@ + json_quoted(field.id@)
            + ",\"FriendlyName\":"@ + optional_string_text(field.friendly_name)
            + ",\"Description\":"@ + optional_string_text(field.description)
            + ",\"QuerySchema\":"@ + optional_value_text(field.query_schema)
            + ",\"ReceiptSchema\":"@ + optional_value_text(field.receipt_schema) + "}"@,
        Field::Event(field) => "{\"Type\":\"Event\",\"Id\":"@ + json_quoted(field.id@)
            + ",\"FriendlyName\":"@ + optional_string_text(field.friendly_name)
            + ",\"Description\":"@ + optional_string_text(field.description)
            + ",\"CallArgSchema\":"@ + optional_value_text(field.call_arg_schema) + "}"@,
    }
}

/// The JSON texts of fields with commas between them.
pub open spec fn fields_text(fields: Seq<Field>) -> Seq<char>
    decreases fields.len(),
{
    if fields.len() == 0 {
        seq![]
    } else if fields.len() == 1 {
        field_text(fields[0])
    } else {
        fields_text(fields.drop_last()) + ","@ + field_text(fields.last())
    }
}

impl Beacon {
    /// The JSON text of the beacon as a message.
    pub open spec fn wire_text(self) -> Seq<char> {
        "{\"Type\":\"Beacon\",\"Id\":"@ + json_quoted(self.id@) + ",\"Vendor\":"@
            + optional_string_text(self.vendor) + ",\"ProtocolVersion\":"@ + optional_number_text(
            self.protocol_version,
        ) + ",\"Fields\":["@ + fields_text(self.fields@) + "],\"Timestamp\":"@ + json_quoted(
            rfc3339_text(self.timestamp),
        ) + "}"@
    }
}

impl Query {
    /// The JSON text of the query as a message.
    pub open spec fn wire_text(self) -> Seq<char> {
        "{\"Type\":\"Query\",\"Gid\":"@ + json_quoted(self.gid@) + ",\"SourceGid\":"@
            + optional_string_text(self.source_gid) + ",\"Fid\":"@ + json_quoted(self.fid@)
            + ",\"Payload\":"@ + optional_value_text(self.payload) + ",\"Qid\":\""@ + uuid_text(
            self.qid,
        ) + "\"}"@
    }
}

impl Reply {
    /// The JSON text of the reply as a message.
    pub open spec fn wire_text(self) -> Seq<char> {
        "{\"Type\":\"Reply\",\"Payload\":"@ + optional_value_text(self.payload) + ",\"Qid\":\""@
            + uuid_text(self.qid) + "\",\"TargetGid\":"@ + optional_string_text(self.target_gid)
            + ",\"Error\":"@ + optional_string_text(self.error) + "}"@
    }
}

impl Event {
    /// The JSON text of the event as a message.
    pub open spec fn wire_text(self) -> Seq<char> {
        "{\"Type\":\"Event\",\"Gid\":"@ + json_quoted(self.gid@) + ",\"Fid\":"@ + json_quoted(
            self.fid@,
        ) + ",\"Arg\":"@ + optional_value_text(self.arg) + "}"@
    }
}

impl Heartbeat {
    /// The JSON text of the heartbeat as a message.
    pub open spec fn wire_text(self) -> Seq<char> {
        "{\"Type\":\"Heartbeat\",\"Id\":"@ + json_quoted(self.id@) + "}"@
    }
}

impl Glycosyl {
    /// The JSON text of the message.
    pub open spec fn wire_text(self) -> Seq<char> {
        match self {
            Glycosyl::Beacon(beacon) => beacon.wire_text(),
            Glycosyl::Query(query) => query.wire_text(),
            Glycosyl::Reply(reply) => reply.wire_text(),
            Glycosyl::Event(event) => event.wire_text(),
            Glycosyl::Heartbeat(heartbeat) => heartbeat.wire_text(),
        }
    }

    /// The bytes of the message on the wire. There is no message that cannot be written.
    pub fn to_bytes(&self) -> (bytes: Result<Vec<u8>, GlycoError>)
        ensures
            bytes matches Ok(bytes) && bytes@ == encode_utf8(self.wire_text()),
    {
        let text = match self {
            Glycosyl::Beacon(beacon) => write_beacon(beacon),
            Glycosyl::Query(query) => write_query(query),
            Glycosyl::Reply(reply) => write_reply(reply),
            Glycosyl::Event(event) => write_event(event),
            Glycosyl::Heartbeat(heartbeat) => write_heartbeat(heartbeat),
        };
        Ok(slice_to_vec(text.as_str().as_bytes()))
    }
}

fn push_optional_string(out: &mut String, text: &Option<String>)
    ensures
        final(out)@ == old(out)@ + optional_string_text(*text),
{
    match text {
        Some(text) => out.append(write_json_string(text.as_str()).as_str()),
        None => out.append("null"),
    }
}

fn push_optional_value(out: &mut String, value: &Option<Value>)
    ensures
        final(out)@ == old(out)@ + optional_value_text(*value),
{
    match value {
        Some(value) => out.append(write_json(value).as_str()),
        None => out.append("null"),
    }
}

fn push_field(out: &mut String, field: &Field)
    ensures
        final(out)@ == old(out)@ + field_text(*field),
{
    match field {
        Field::Method(field) => {
            out.append("{\"Type\":\"Method\",\"Id\":");
            out.append(write_json_string(field.id.as_str()).as_str());
            out.append(",\"FriendlyName\":");
            push_optional_string(out, &field.friendly_name);
            out.append(",\"Description\":");
            push_optional_string(out, &field.description);
            out.append(",\"QuerySchema\":");
            push_optional_value(out, &field.query_schema);
            out.append(",\"ReceiptSchema\":");
            push_optional_value(out, &field.receipt_schema);
            out.append("}");
        },
        Field::Event(field) => {
            out.append("{\"Type\":\"Event\",\"Id\":");
            out.append(write_json_string(field.id.as_str()).as_str());
            out.append(",\"FriendlyName\":");
            push_optional_string(out, &field.friendly_name);
            out.append(",\"Description\":");
            push_optional_string(out, &field.description);
            out.append(",\"CallArgSchema\":");
            push_optional_value(out, &field.call_arg_schema);
            out.append("}");
        },
    }
    assert(out@ =~= old(out)@ + field_text(*field));
}

fn push_fields(out: &mut String, fields: &Vec<Field>)
    ensures
        final(out)@ == old(out)@ + fields_text(fields@),
{
    let ghost start = out@;
    let mut i: usize = 0;
    assert(out@ =~= start + fields_text(fields@.take(0)));
    while i < fields.len()
        invariant
            i <= fields@.len(),
            out@ == start + fields_text(fields@.take(i as int)),
        decreases fields@.len() - i,
    {
        let ghost before = out@;
        if i > 0 {
            out.append(",");
        }
        push_field(out, &fields[i]);
        proof {
            let taken = fields@.take(i + 1);
            assert(taken.drop_last() =~= fields@.take(i as int));
            assert(taken.last() == fields@[i as int]);
            assert(out@ =~= start + fields_text(taken));
        }
        i = i + 1;
    }
    assert(fields@.take(fields@.len() as int) =~= fields@);
}

fn write_beacon(beacon: &Beacon) -> (text: String)
    ensures
        text@ == beacon.wire_text(),
{
    let mut out = "{\"Type\":\"Beacon\",\"Id\":".to_owned();
    out.append(write_json_string(beacon.id.as_str()).as_str());
    out.append(",\"Vendor\":");
    push_optional_string(&mut out, &beacon.vendor);
    out.append(",\"ProtocolVersion\":");
    match beacon.protocol_version {
        Some(version) => push_signed_decimal(&mut out, version as i64),
        None => out.append("null"),
    }
    out.append(",\"Fields\":[");
    push_fields(&mut out, &beacon.fields);
    out.append("],\"Timestamp\":");
    out.append(write_json_string(write_rfc3339(beacon.timestamp).as_str()).as_str());
    out.append("}");
    out
}

fn write_query(query: &Query) -> (text: String)
    ensures
        text@ == query.wire_text(),
{
    let mut out = "{\"Type\":\"Query\",\"Gid\":".to_owned();
    out.append(write_json_string(query.gid.as_str()).as_str());
    out.append(",\"SourceGid\":");
    push_optional_string(&mut out, &query.source_gid);
    out.append(",\"Fid\":");
    out.append(write_json_string(query.fid.as_str()).as_str());
    out.append(",\"Payload\":");
    push_optional_value(&mut out, &query.payload);
    out.append(",\"Qid\":\"");
    out.append(write_uuid(query.qid).as_str());
    out.append("\"}");
    out
}

fn write_reply(reply: &Reply) -> (text: String)
    ensures
        text@ == reply.wire_text(),
{
    let mut out = "{\"Type\":\"Reply\",\"Payload\":".to_owned();
    push_optional_value(&mut out, &reply.payload);
    out.append(",\"Qid\":\"");
    out.append(write_uuid(reply.qid).as_str());
    out.append("\",\"TargetGid\":");
    push_optional_string(&mut out, &reply.target_gid);
    out.append(",\"Error\":");
    push_optional_string(&mut out, &reply.error);
    out.append("}");
    out
}

fn write_event(event: &Event) -> (text: String)
    ensures
        text@ == event.wire_text(),
{
    let mut out = "{\"Type\":\"Event\",\"Gid\":".to_owned();
    out.append(write_json_string(event.gid.as_str()).as_str());
    out.append(",\"Fid\":");
    out.append(write_json_string(event.fid.as_str()).as_str());
    out.append(",\"Arg\":");
    push_optional_value(&mut out, &event.arg);
    out.append("}");
    out
}

fn write_heartbeat(heartbeat: &Heartbeat) -> (text: String)
    ensures
        text@ == heartbeat.wire_text(),
{
    let mut out = "{\"Type\":\"Heartbeat\",\"Id\":".to_owned();
    out.append(write_json_string(heartbeat.id.as_str()).as_str());
    out.append("}");
    out
}

} // verus!
