//! What the bytes of a message say to who reads them by the names of the members: the message itself.
//! Documents are known by their texts, and are taken to be read as single values, as all JSON texts are.
use crate::error::GlycoError;
use crate::members::{
    elements, is_value, label, labelled, lemma_array_read, lemma_object_read, lemma_one_more_item,
    lemma_plain_string_value, lemma_plain_value, lemma_quoted_value, member, member_count,
    object_text, plain_name, with_commas,
};
use crate::outside::{hex_digit, json_quoted, json_text, rfc3339_text, uuid_text};
use crate::protocol::{
    Beacon, Event, EventField, Field, Glycosyl, Heartbeat, MethodField, Query, Reply,
};
use crate::text::{decimal, digit, signed_decimal};
use crate::wire::{
    field_text, fields_text, optional_number_text, optional_string_text, optional_value_text,
};
use crate::wire_laws::lemma_regroup;
use serde_json::Value;
use vstd::arithmetic::power::pow;
use vstd::prelude::*;
use vstd::string::*;
use vstd::utf8::*;

verus! {

/// A document that is read as one value, as every JSON text is.
pub open spec fn readable(document: Option<Value>) -> bool {
    document matches Some(value) ==> is_value(json_text(value))
}

/// A field whose documents are read as single values.
pub open spec fn field_readable(field: Field) -> bool {
    match field {
        Field::Method(method) => readable(method.query_schema) && readable(method.receipt_schema),
        Field::Event(event) => readable(event.call_arg_schema),
    }
}

/// The number that a text of decimal digits stands for.
pub open spec fn digits_value(text: Seq<char>) -> int
    decreases text.len(),
{
    if text.len() == 0 {
        0
    } else {
        10 * digits_value(text.drop_last()) + (text.last() as u32 - 48)
    }
}

/// The number that a text stands for, with its sign.
pub open spec fn number_value(text: Seq<char>) -> int {
    if text.len() > 0 && text[0] == '-' {
        -digits_value(text.skip(1))
    } else {
        digits_value(text)
    }
}

proof fn lemma_decimal_value(n: nat)
    ensures
        digits_value(decimal(n)) == n,
        decimal(n).len() > 0,
        forall|i: int| 0 <= i < decimal(n).len() ==> '0' <= #[trigger] decimal(n)[i] <= '9',
    decreases n,
{
    let text = decimal(n);
    if n < 10 {
        assert(text.drop_last().len() == 0);
        assert(digits_value(text.drop_last()) == 0);
        assert(text.last() == digit(n));
    } else {
        lemma_decimal_value(n / 10);
        assert(text.drop_last() =~= decimal(n / 10));
        assert(text.last() == digit(n % 10));
    }
}

/// A number is read back from its decimal notation.
pub proof fn law_number_read_back(n: int)
    ensures
        number_value(signed_decimal(n)) == n,
{
    lemma_number_read(n);
}

/// A number is read back from its decimal notation, which is one value.
proof fn lemma_number_read(n: int)
    ensures
        number_value(signed_decimal(n)) == n,
        is_value(signed_decimal(n)),
        signed_decimal(n).len() > 0,
{
    let text = signed_decimal(n);
    if n < 0 {
        lemma_decimal_value((-n) as nat);
        assert(text.skip(1) =~= decimal((-n) as nat));
        assert forall|i: int| 0 <= i < text.len() implies #[trigger] text[i] != '"' && text[i] != ','
            && text[i] != '{' && text[i] != '}' && text[i] != '[' && text[i] != ']' by {
            if i > 0 {
                assert(text[i] == decimal((-n) as nat)[i - 1]);
            }
        }
    } else {
        lemma_decimal_value(n as nat);
        assert(text[0] == decimal(n as nat)[0]);
    }
    lemma_plain_value(text);
}

proof fn lemma_null_value()
    ensures
        is_value("null"@),
{
    reveal_strlit("null");
    lemma_plain_value("null"@);
}

proof fn lemma_optional_string_value(text: Option<String>)
    ensures
        is_value(optional_string_text(text)),
{
    lemma_null_value();
    if text is Some {
        lemma_quoted_value(text->Some_0@);
    }
}

proof fn lemma_optional_document_value(value: Option<Value>)
    requires
        readable(value),
    ensures
        is_value(optional_value_text(value)),
{
    lemma_null_value();
}

proof fn lemma_optional_number_value(number: Option<i32>)
    ensures
        is_value(optional_number_text(number)),
{
    lemma_null_value();
    if number is Some {
        lemma_number_read(number->Some_0 as int);
    }
}

/// The text of a UUID between quotes.
pub open spec fn quoted_uuid(number: u128) -> Seq<char> {
    seq!['"'] + uuid_text(number) + seq!['"']
}

proof fn lemma_uuid_value(number: u128)
    ensures
        is_value(quoted_uuid(number)),
{
    let text = uuid_text(number);
    assert forall|i: int| 0 <= i < text.len() implies #[trigger] text[i] != '"' && text[i] != '\\' by {
        let before: int = if i < 8 {
            0
        } else if i < 13 {
            1
        } else if i < 18 {
            2
        } else if i < 23 {
            3
        } else {
            4
        };
        let n = (number as int / pow(16, (31 - (i - before)) as nat)) % 16;
        assert(0 <= n < 16);
        assert(text[i] == '-' || text[i] == hex_digit(n));
    }
    lemma_plain_string_value(text);
}

/// The names of members need no escape.
proof fn lemma_names_plain()
    ensures
        plain_name("Type"@),
        plain_name("Id"@),
        plain_name("FriendlyName"@),
        plain_name("Description"@),
        plain_name("QuerySchema"@),
        plain_name("ReceiptSchema"@),
        plain_name("CallArgSchema"@),
        plain_name("Vendor"@),
        plain_name("ProtocolVersion"@),
        plain_name("Fields"@),
        plain_name("Timestamp"@),
        plain_name("Gid"@),
        plain_name("SourceGid"@),
        plain_name("Fid"@),
        plain_name("Payload"@),
        plain_name("Qid"@),
        plain_name("TargetGid"@),
        plain_name("Error"@),
        plain_name("Arg"@),
{
    assert(plain_name("Type"@)) by {
        reveal_strlit("Type");
    }
    assert(plain_name("Id"@)) by {
        reveal_strlit("Id");
    }
    assert(plain_name("FriendlyName"@)) by {
        reveal_strlit("FriendlyName");
    }
    assert(plain_name("Description"@)) by {
        reveal_strlit("Description");
    }
    assert(plain_name("QuerySchema"@)) by {
        reveal_strlit("QuerySchema");
    }
    assert(plain_name("ReceiptSchema"@)) by {
        reveal_strlit("ReceiptSchema");
    }
    assert(plain_name("CallArgSchema"@)) by {
        reveal_strlit("CallArgSchema");
    }
    assert(plain_name("Vendor"@)) by {
        reveal_strlit("Vendor");
    }
    assert(plain_name("ProtocolVersion"@)) by {
        reveal_strlit("ProtocolVersion");
    }
    assert(plain_name("Fields"@)) by {
        reveal_strlit("Fields");
    }
    assert(plain_name("Timestamp"@)) by {
        reveal_strlit("Timestamp");
    }
    assert(plain_name("Gid"@)) by {
        reveal_strlit("Gid");
    }
    assert(plain_name("SourceGid"@)) by {
        reveal_strlit("SourceGid");
    }
    assert(plain_name("Fid"@)) by {
        reveal_strlit("Fid");
    }
    assert(plain_name("Payload"@)) by {
        reveal_strlit("Payload");
    }
    assert(plain_name("Qid"@)) by {
        reveal_strlit("Qid");
    }
    assert(plain_name("TargetGid"@)) by {
        reveal_strlit("TargetGid");
    }
    assert(plain_name("Error"@)) by {
        reveal_strlit("Error");
    }
    assert(plain_name("Arg"@)) by {
        reveal_strlit("Arg");
    }
}

/// The text of a list of fields.
spec fn fields_array(fields: Seq<Field>) -> Seq<char> {
    seq!['['] + fields_text(fields) + seq![']']
}

/// The names of the members of a method.
spec fn method_names() -> Seq<Seq<char>> {
    seq![
        "Type"@,
        "Id"@,
        "FriendlyName"@,
        "Description"@,
        "QuerySchema"@,
        "ReceiptSchema"@,
    ]
}

/// Their values.
spec fn method_values(method: MethodField) -> Seq<Seq<char>> {
    seq![
        "\"Method\""@,
        json_quoted(method.id@),
        optional_string_text(method.friendly_name),
        optional_string_text(method.description),
        optional_value_text(method.query_schema),
        optional_value_text(method.receipt_schema),
    ]
}

proof fn lemma_method_names()
    ensures
        method_names().no_duplicates(),
        forall|i: int|
            0 <= i < method_names().len() ==> plain_name(
                #[trigger] method_names()[i],
            ),
{
    lemma_names_plain();
    reveal_strlit("Type");
    reveal_strlit("Id");
    reveal_strlit("FriendlyName");
    reveal_strlit("Description");
    reveal_strlit("QuerySchema");
    reveal_strlit("ReceiptSchema");
    assert("Type"@.len() != "Id"@.len());
    assert("Type"@.len() != "FriendlyName"@.len());
    assert("Type"@.len() != "Description"@.len());
    assert("Type"@.len() != "QuerySchema"@.len());
    assert("Type"@.len() != "ReceiptSchema"@.len());
    assert("Id"@.len() != "FriendlyName"@.len());
    assert("Id"@.len() != "Description"@.len());
    assert("Id"@.len() != "QuerySchema"@.len());
    assert("Id"@.len() != "ReceiptSchema"@.len());
    assert("FriendlyName"@.len() != "Description"@.len());
    assert("FriendlyName"@.len() != "QuerySchema"@.len());
    assert("FriendlyName"@.len() != "ReceiptSchema"@.len());
    assert("Description"@[0] != "QuerySchema"@[0]);
    assert("Description"@.len() != "ReceiptSchema"@.len());
    assert("QuerySchema"@.len() != "ReceiptSchema"@.len());
}

proof fn lemma_method_grouped(
    o: Seq<char>,
    t: Seq<char>,
    c: Seq<char>,
    e: Seq<char>,
    l0: Seq<char>,
    l1: Seq<char>,
    l2: Seq<char>,
    l3: Seq<char>,
    l4: Seq<char>,
    l5: Seq<char>,
    v1: Seq<char>,
    v2: Seq<char>,
    v3: Seq<char>,
    v4: Seq<char>,
    v5: Seq<char>,
)
    ensures
        (o + l0 + t + c + l1) + v1 + (c + l2) + v2 + (c + l3) + v3 + (c + l4) + v4 + (c + l5) + v5 + e
            == o + ((((((l0 + t) + c
            + (l1 + v1)) + c
            + (l2 + v2)) + c
            + (l3 + v3)) + c
            + (l4 + v4)) + c
            + (l5 + v5)) + e,
{
    broadcast use lemma_regroup;

}

proof fn lemma_method_text(method: MethodField)
    ensures
        field_text(Field::Method(method)) == object_text(method_names(), method_values(method)),
{
    assert("{\"Type\":\"Method\",\"Id\":"@ == seq!['{'] + label("Type"@) + "\"Method\""@ + seq![','] + label("Id"@)) by {
        reveal_strlit("{\"Type\":\"Method\",\"Id\":");
        reveal_strlit("Type");
        reveal_strlit("\"Method\"");
        reveal_strlit("Id");
        assert("{\"Type\":\"Method\",\"Id\":"@ =~= seq!['{'] + label("Type"@) + "\"Method\""@ + seq![','] + label("Id"@));
    }
    assert(",\"FriendlyName\":"@ == seq![','] + label("FriendlyName"@)) by {
        reveal_strlit(",\"FriendlyName\":");
        reveal_strlit("FriendlyName");
        assert(",\"FriendlyName\":"@ =~= seq![','] + label("FriendlyName"@));
    }
    assert(",\"Description\":"@ == seq![','] + label("Description"@)) by {
        reveal_strlit(",\"Description\":");
        reveal_strlit("Description");
        assert(",\"Description\":"@ =~= seq![','] + label("Description"@));
    }
    assert(",\"QuerySchema\":"@ == seq![','] + label("QuerySchema"@)) by {
        reveal_strlit(",\"QuerySchema\":");
        reveal_strlit("QuerySchema");
        assert(",\"QuerySchema\":"@ =~= seq![','] + label("QuerySchema"@));
    }
    assert(",\"ReceiptSchema\":"@ == seq![','] + label("ReceiptSchema"@)) by {
        reveal_strlit(",\"ReceiptSchema\":");
        reveal_strlit("ReceiptSchema");
        assert(",\"ReceiptSchema\":"@ =~= seq![','] + label("ReceiptSchema"@));
    }
    assert("}"@ == seq!['}']) by {
        reveal_strlit("}");
        assert("}"@ =~= seq!['}']);
    }
    lemma_method_items(method);
    lemma_method_grouped(
        seq!['{'],
        "\"Method\""@,
        seq![','],
        seq!['}'],
        label("Type"@),
        label("Id"@),
        label("FriendlyName"@),
        label("Description"@),
        label("QuerySchema"@),
        label("ReceiptSchema"@),
        json_quoted(method.id@),
        optional_string_text(method.friendly_name),
        optional_string_text(method.description),
        optional_value_text(method.query_schema),
        optional_value_text(method.receipt_schema),
    );
}

proof fn lemma_method_items(method: MethodField)
    ensures
        object_text(method_names(), method_values(method)) 
            == seq!['{'] + ((((((label("Type"@) + "\"Method\""@) + seq![',']
            + (label("Id"@) + json_quoted(method.id@))) + seq![',']
            + (label("FriendlyName"@) + optional_string_text(method.friendly_name))) + seq![',']
            + (label("Description"@) + optional_string_text(method.description))) + seq![',']
            + (label("QuerySchema"@) + optional_value_text(method.query_schema))) + seq![',']
            + (label("ReceiptSchema"@) + optional_value_text(method.receipt_schema)))
            + seq!['}'],
{
    let i0 = label("Type"@) + "\"Method\""@;
    let i1 = label("Id"@) + json_quoted(method.id@);
    let i2 = label("FriendlyName"@) + optional_string_text(method.friendly_name);
    let i3 = label("Description"@) + optional_string_text(method.description);
    let i4 = label("QuerySchema"@) + optional_value_text(method.query_schema);
    let i5 = label("ReceiptSchema"@) + optional_value_text(method.receipt_schema);
    let items = labelled(method_names(), method_values(method));
    assert(items =~= seq![i0, i1, i2, i3, i4, i5]);
    assert(with_commas(seq![i0]) == i0);
    lemma_one_more_item(seq![i0], i1);
    assert(seq![i0].push(i1) =~= seq![i0, i1]);
    lemma_one_more_item(seq![i0, i1], i2);
    assert(seq![i0, i1].push(i2) =~= seq![i0, i1, i2]);
    lemma_one_more_item(seq![i0, i1, i2], i3);
    assert(seq![i0, i1, i2].push(i3) =~= seq![i0, i1, i2, i3]);
    lemma_one_more_item(seq![i0, i1, i2, i3], i4);
    assert(seq![i0, i1, i2, i3].push(i4) =~= seq![i0, i1, i2, i3, i4]);
    lemma_one_more_item(seq![i0, i1, i2, i3, i4], i5);
    assert(seq![i0, i1, i2, i3, i4].push(i5) =~= seq![i0, i1, i2, i3, i4, i5]);
}

proof fn lemma_method_read(method: MethodField)
    requires
        readable(method.query_schema),
        readable(method.receipt_schema),
    ensures
        is_value(field_text(Field::Method(method))),
        field_text(Field::Method(method)).len() > 0,
        field_text(Field::Method(method))[0] == '{',
        field_text(Field::Method(method)).last() == '}',
        member_count(field_text(Field::Method(method))) == 6,
        member(field_text(Field::Method(method)), "Type"@) == Some("\"Method\""@),
        member(field_text(Field::Method(method)), "Id"@) == Some(json_quoted(method.id@)),
        member(field_text(Field::Method(method)), "FriendlyName"@) == Some(optional_string_text(method.friendly_name)),
        member(field_text(Field::Method(method)), "Description"@) == Some(optional_string_text(method.description)),
        member(field_text(Field::Method(method)), "QuerySchema"@) == Some(optional_value_text(method.query_schema)),
        member(field_text(Field::Method(method)), "ReceiptSchema"@) == Some(optional_value_text(method.receipt_schema)),
{
    lemma_method_names();
    lemma_method_text(method);
    assert(is_value("\"Method\""@)) by {
        reveal_strlit("Method");
        reveal_strlit("\"Method\"");
        lemma_plain_string_value("Method"@);
        assert("\"Method\""@ =~= seq!['"'] + "Method"@ + seq!['"']);
    }
    lemma_quoted_value(method.id@);
    lemma_optional_string_value(method.friendly_name);
    lemma_optional_string_value(method.description);
    lemma_optional_document_value(method.query_schema);
    lemma_optional_document_value(method.receipt_schema);
    let (names, values) = (method_names(), method_values(method));
    assert forall|i: int| 0 <= i < values.len() implies is_value(#[trigger] values[i]) by {
        assert(i == 0 || i == 1 || i == 2 || i == 3 || i == 4 || i == 5);
    }
    lemma_object_read(names, values);
    assert(names[0] == "Type"@);
    assert(names[1] == "Id"@);
    assert(names[2] == "FriendlyName"@);
    assert(names[3] == "Description"@);
    assert(names[4] == "QuerySchema"@);
    assert(names[5] == "ReceiptSchema"@);
}

/// The names of the members of an event field.
spec fn event_field_names() -> Seq<Seq<char>> {
    seq![
        "Type"@,
        "Id"@,
        "FriendlyName"@,
        "Description"@,
        "CallArgSchema"@,
    ]
}

/// Their values.
spec fn event_field_values(event: EventField) -> Seq<Seq<char>> {
    seq![
        "\"Event\""@,
        json_quoted(event.id@),
        optional_string_text(event.friendly_name),
        optional_string_text(event.description),
        optional_value_text(event.call_arg_schema),
    ]
}

proof fn lemma_event_field_names()
    ensures
        event_field_names().no_duplicates(),
        forall|i: int|
            0 <= i < event_field_names().len() ==> plain_name(
                #[trigger] event_field_names()[i],
            ),
{
    lemma_names_plain();
    reveal_strlit("Type");
    reveal_strlit("Id");
    reveal_strlit("FriendlyName");
    reveal_strlit("Description");
    reveal_strlit("CallArgSchema");
    assert("Type"@.len() != "Id"@.len());
    assert("Type"@.len() != "FriendlyName"@.len());
    assert("Type"@.len() != "Description"@.len());
    assert("Type"@.len() != "CallArgSchema"@.len());
    assert("Id"@.len() != "FriendlyName"@.len());
    assert("Id"@.len() != "Description"@.len());
    assert("Id"@.len() != "CallArgSchema"@.len());
    assert("FriendlyName"@.len() != "Description"@.len());
    assert("FriendlyName"@.len() != "CallArgSchema"@.len());
    assert("Description"@.len() != "CallArgSchema"@.len());
}

proof fn lemma_event_field_grouped(
    o: Seq<char>,
    t: Seq<char>,
    c: Seq<char>,
    e: Seq<char>,
    l0: Seq<char>,
    l1: Seq<char>,
    l2: Seq<char>,
    l3: Seq<char>,
    l4: Seq<char>,
    v1: Seq<char>,
    v2: Seq<char>,
    v3: Seq<char>,
    v4: Seq<char>,
)
    ensures
        (o + l0 + t + c + l1) + v1 + (c + l2) + v2 + (c + l3) + v3 + (c + l4) + v4 + e
            == o + (((((l0 + t) + c
            + (l1 + v1)) + c
            + (l2 + v2)) + c
            + (l3 + v3)) + c
            + (l4 + v4)) + e,
{
    broadcast use lemma_regroup;

}

proof fn lemma_event_field_text(event: EventField)
    ensures
        field_text(Field::Event(event)) == object_text(event_field_names(), event_field_values(event)),
{
    assert("{\"Type\":\"Event\",\"Id\":"@ == seq!['{'] + label("Type"@) + "\"Event\""@ + seq![','] + label("Id"@)) by {
        reveal_strlit("{\"Type\":\"Event\",\"Id\":");
        reveal_strlit("Type");
        reveal_strlit("\"Event\"");
        reveal_strlit("Id");
        assert("{\"Type\":\"Event\",\"Id\":"@ =~= seq!['{'] + label("Type"@) + "\"Event\""@ + seq![','] + label("Id"@));
    }
    assert(",\"FriendlyName\":"@ == seq![','] + label("FriendlyName"@)) by {
        reveal_strlit(",\"FriendlyName\":");
        reveal_strlit("FriendlyName");
        assert(",\"FriendlyName\":"@ =~= seq![','] + label("FriendlyName"@));
    }
    assert(",\"Description\":"@ == seq![','] + label("Description"@)) by {
        reveal_strlit(",\"Description\":");
        reveal_strlit("Description");
        assert(",\"Description\":"@ =~= seq![','] + label("Description"@));
    }
    assert(",\"CallArgSchema\":"@ == seq![','] + label("CallArgSchema"@)) by {
        reveal_strlit(",\"CallArgSchema\":");
        reveal_strlit("CallArgSchema");
        assert(",\"CallArgSchema\":"@ =~= seq![','] + label("CallArgSchema"@));
    }
    assert("}"@ == seq!['}']) by {
        reveal_strlit("}");
        assert("}"@ =~= seq!['}']);
    }
    lemma_event_field_items(event);
    lemma_event_field_grouped(
        seq!['{'],
        "\"Event\""@,
        seq![','],
        seq!['}'],
        label("Type"@),
        label("Id"@),
        label("FriendlyName"@),
        label("Description"@),
        label("CallArgSchema"@),
        json_quoted(event.id@),
        optional_string_text(event.friendly_name),
        optional_string_text(event.description),
        optional_value_text(event.call_arg_schema),
    );
}

proof fn lemma_event_field_items(event: EventField)
    ensures
        object_text(event_field_names(), event_field_values(event)) 
            == seq!['{'] + (((((label("Type"@) + "\"Event\""@) + seq![',']
            + (label("Id"@) + json_quoted(event.id@))) + seq![',']
            + (label("FriendlyName"@) + optional_string_text(event.friendly_name))) + seq![',']
            + (label("Description"@) + optional_string_text(event.description))) + seq![',']
            + (label("CallArgSchema"@) + optional_value_text(event.call_arg_schema)))
            + seq!['}'],
{
    let i0 = label("Type"@) + "\"Event\""@;
    let i1 = label("Id"@) + json_quoted(event.id@);
    let i2 = label("FriendlyName"@) + optional_string_text(event.friendly_name);
    let i3 = label("Description"@) + optional_string_text(event.description);
    let i4 = label("CallArgSchema"@) + optional_value_text(event.call_arg_schema);
    let items = labelled(event_field_names(), event_field_values(event));
    assert(items =~= seq![i0, i1, i2, i3, i4]);
    assert(with_commas(seq![i0]) == i0);
    lemma_one_more_item(seq![i0], i1);
    assert(seq![i0].push(i1) =~= seq![i0, i1]);
    lemma_one_more_item(seq![i0, i1], i2);
    assert(seq![i0, i1].push(i2) =~= seq![i0, i1, i2]);
    lemma_one_more_item(seq![i0, i1, i2], i3);
    assert(seq![i0, i1, i2].push(i3) =~= seq![i0, i1, i2, i3]);
    lemma_one_more_item(seq![i0, i1, i2, i3], i4);
    assert(seq![i0, i1, i2, i3].push(i4) =~= seq![i0, i1, i2, i3, i4]);
}

proof fn lemma_event_field_read(event: EventField)
    requires
        readable(event.call_arg_schema),
    ensures
        is_value(field_text(Field::Event(event))),
        field_text(Field::Event(event)).len() > 0,
        field_text(Field::Event(event))[0] == '{',
        field_text(Field::Event(event)).last() == '}',
        member_count(field_text(Field::Event(event))) == 5,
        member(field_text(Field::Event(event)), "Type"@) == Some("\"Event\""@),
        member(field_text(Field::Event(event)), "Id"@) == Some(json_quoted(event.id@)),
        member(field_text(Field::Event(event)), "FriendlyName"@) == Some(optional_string_text(event.friendly_name)),
        member(field_text(Field::Event(event)), "Description"@) == Some(optional_string_text(event.description)),
        member(field_text(Field::Event(event)), "CallArgSchema"@) == Some(optional_value_text(event.call_arg_schema)),
{
    lemma_event_field_names();
    lemma_event_field_text(event);
    assert(is_value("\"Event\""@)) by {
        reveal_strlit("Event");
        reveal_strlit("\"Event\"");
        lemma_plain_string_value("Event"@);
        assert("\"Event\""@ =~= seq!['"'] + "Event"@ + seq!['"']);
    }
    lemma_quoted_value(event.id@);
    lemma_optional_string_value(event.friendly_name);
    lemma_optional_string_value(event.description);
    lemma_optional_document_value(event.call_arg_schema);
    let (names, values) = (event_field_names(), event_field_values(event));
    assert forall|i: int| 0 <= i < values.len() implies is_value(#[trigger] values[i]) by {
        assert(i == 0 || i == 1 || i == 2 || i == 3 || i == 4);
    }
    lemma_object_read(names, values);
    assert(names[0] == "Type"@);
    assert(names[1] == "Id"@);
    assert(names[2] == "FriendlyName"@);
    assert(names[3] == "Description"@);
    assert(names[4] == "CallArgSchema"@);
}

/// The texts of fields.
spec fn field_texts(fields: Seq<Field>) -> Seq<Seq<char>> {
    fields.map_values(|field: Field| field_text(field))
}

proof fn lemma_fields_joined(fields: Seq<Field>)
    ensures
        fields_text(fields) == with_commas(field_texts(fields)),
    decreases fields.len(),
{
    reveal_strlit(",");
    assert(","@ =~= seq![',']);
    if fields.len() > 1 {
        lemma_fields_joined(fields.drop_last());
        assert(field_texts(fields).drop_last() =~= field_texts(fields.drop_last()));
        assert(field_texts(fields).last() == field_text(fields.last()));
    }
}

proof fn lemma_fields_array(fields: Seq<Field>)
    requires
        forall|i: int| 0 <= i < fields.len() ==> field_readable(#[trigger] fields[i]),
    ensures
        is_value(fields_array(fields)),
        elements(fields_array(fields)).len() == fields.len(),
        forall|i: int|
            0 <= i < fields.len() ==> elements(fields_array(fields))[i] == field_text(
                #[trigger] fields[i],
            ),
{
    let items = field_texts(fields);
    lemma_fields_joined(fields);
    assert forall|i: int| 0 <= i < items.len() implies is_value(#[trigger] items[i])
        && items[i].len() > 0 by {
        assert(field_readable(fields[i]));
        match fields[i] {
            Field::Method(method) => lemma_method_read(method),
            Field::Event(event) => lemma_event_field_read(event),
        }
    }
    lemma_array_read(items);
}

/// The names of the members of a beacon.
spec fn beacon_names() -> Seq<Seq<char>> {
    seq![
        "Type"@,
        "Id"@,
        "Vendor"@,
        "ProtocolVersion"@,
        "Fields"@,
        "Timestamp"@,
    ]
}

/// Their values.
spec fn beacon_values(beacon: Beacon) -> Seq<Seq<char>> {
    seq![
        "\"Beacon\""@,
        json_quoted(beacon.id@),
        optional_string_text(beacon.vendor),
        optional_number_text(beacon.protocol_version),
        fields_array(beacon.fields@),
        json_quoted(rfc3339_text(beacon.timestamp)),
    ]
}

proof fn lemma_beacon_names()
    ensures
        beacon_names().no_duplicates(),
        forall|i: int|
            0 <= i < beacon_names().len() ==> plain_name(
                #[trigger] beacon_names()[i],
            ),
{
    lemma_names_plain();
    reveal_strlit("Type");
    reveal_strlit("Id");
    reveal_strlit("Vendor");
    reveal_strlit("ProtocolVersion");
    reveal_strlit("Fields");
    reveal_strlit("Timestamp");
    assert("Type"@.len() != "Id"@.len());
    assert("Type"@.len() != "Vendor"@.len());
    assert("Type"@.len() != "ProtocolVersion"@.len());
    assert("Type"@.len() != "Fields"@.len());
    assert("Type"@.len() != "Timestamp"@.len());
    assert("Id"@.len() != "Vendor"@.len());
    assert("Id"@.len() != "ProtocolVersion"@.len());
    assert("Id"@.len() != "Fields"@.len());
    assert("Id"@.len() != "Timestamp"@.len());
    assert("Vendor"@.len() != "ProtocolVersion"@.len());
    assert("Vendor"@[0] != "Fields"@[0]);
    assert("Vendor"@.len() != "Timestamp"@.len());
    assert("ProtocolVersion"@.len() != "Fields"@.len());
    assert("ProtocolVersion"@.len() != "Timestamp"@.len());
    assert("Fields"@.len() != "Timestamp"@.len());
}

proof fn lemma_beacon_grouped(
    o: Seq<char>,
    t: Seq<char>,
    c: Seq<char>,
    e: Seq<char>,
    l0: Seq<char>,
    l1: Seq<char>,
    l2: Seq<char>,
    l3: Seq<char>,
    l4: Seq<char>,
    l5: Seq<char>,
    v1: Seq<char>,
    v2: Seq<char>,
    v3: Seq<char>,
    v4: Seq<char>,
    v5: Seq<char>,
    b: Seq<char>,
    d: Seq<char>,
)
    ensures
        (o + l0 + t + c + l1) + v1 + (c + l2) + v2 + (c + l3) + v3 + (c + l4 + b) + v4 + (d + c + l5) + v5 + e
            == o + ((((((l0 + t) + c
            + (l1 + v1)) + c
            + (l2 + v2)) + c
            + (l3 + v3)) + c
            + (l4 + (b + v4 + d))) + c
            + (l5 + v5)) + e,
{
    broadcast use lemma_regroup;

}

proof fn lemma_beacon_text(beacon: Beacon)
    ensures
        beacon.wire_text() == object_text(beacon_names(), beacon_values(beacon)),
{
    assert("{\"Type\":\"Beacon\",\"Id\":"@ == seq!['{'] + label("Type"@) + "\"Beacon\""@ + seq![','] + label("Id"@)) by {
        reveal_strlit("{\"Type\":\"Beacon\",\"Id\":");
        reveal_strlit("Type");
        reveal_strlit("\"Beacon\"");
        reveal_strlit("Id");
        assert("{\"Type\":\"Beacon\",\"Id\":"@ =~= seq!['{'] + label("Type"@) + "\"Beacon\""@ + seq![','] + label("Id"@));
    }
    assert(",\"Vendor\":"@ == seq![','] + label("Vendor"@)) by {
        reveal_strlit(",\"Vendor\":");
        reveal_strlit("Vendor");
        assert(",\"Vendor\":"@ =~= seq![','] + label("Vendor"@));
    }
    assert(",\"ProtocolVersion\":"@ == seq![','] + label("ProtocolVersion"@)) by {
        reveal_strlit(",\"ProtocolVersion\":");
        reveal_strlit("ProtocolVersion");
        assert(",\"ProtocolVersion\":"@ =~= seq![','] + label("ProtocolVersion"@));
    }
    assert(",\"Fields\":["@ == seq![','] + label("Fields"@) + seq!['[']) by {
        reveal_strlit(",\"Fields\":[");
        reveal_strlit("Fields");
        assert(",\"Fields\":["@ =~= seq![','] + label("Fields"@) + seq!['[']);
    }
    assert("],\"Timestamp\":"@ == seq![']'] + seq![','] + label("Timestamp"@)) by {
        reveal_strlit("],\"Timestamp\":");
        reveal_strlit("Timestamp");
        assert("],\"Timestamp\":"@ =~= seq![']'] + seq![','] + label("Timestamp"@));
    }
    assert("}"@ == seq!['}']) by {
        reveal_strlit("}");
        assert("}"@ =~= seq!['}']);
    }
    lemma_beacon_items(beacon);
    lemma_beacon_grouped(
        seq!['{'],
        "\"Beacon\""@,
        seq![','],
        seq!['}'],
        label("Type"@),
        label("Id"@),
        label("Vendor"@),
        label("ProtocolVersion"@),
        label("Fields"@),
        label("Timestamp"@),
        json_quoted(beacon.id@),
        optional_string_text(beacon.vendor),
        optional_number_text(beacon.protocol_version),
        fields_text(beacon.fields@),
        json_quoted(rfc3339_text(beacon.timestamp)),
        seq!['['],
        seq![']'],
    );
}

proof fn lemma_beacon_items(beacon: Beacon)
    ensures
        object_text(beacon_names(), beacon_values(beacon)) 
            == seq!['{'] + ((((((label("Type"@) + "\"Beacon\""@) + seq![',']
            + (label("Id"@) + json_quoted(beacon.id@))) + seq![',']
            + (label("Vendor"@) + optional_string_text(beacon.vendor))) + seq![',']
            + (label("ProtocolVersion"@) + optional_number_text(beacon.protocol_version))) + seq![',']
            + (label("Fields"@) + fields_array(beacon.fields@))) + seq![',']
            + (label("Timestamp"@) + json_quoted(rfc3339_text(beacon.timestamp))))
            + seq!['}'],
{
    let i0 = label("Type"@) + "\"Beacon\""@;
    let i1 = label("Id"@) + json_quoted(beacon.id@);
    let i2 = label("Vendor"@) + optional_string_text(beacon.vendor);
    let i3 = label("ProtocolVersion"@) + optional_number_text(beacon.protocol_version);
    let i4 = label("Fields"@) + fields_array(beacon.fields@);
    let i5 = label("Timestamp"@) + json_quoted(rfc3339_text(beacon.timestamp));
    let items = labelled(beacon_names(), beacon_values(beacon));
    assert(items =~= seq![i0, i1, i2, i3, i4, i5]);
    assert(with_commas(seq![i0]) == i0);
    lemma_one_more_item(seq![i0], i1);
    assert(seq![i0].push(i1) =~= seq![i0, i1]);
    lemma_one_more_item(seq![i0, i1], i2);
    assert(seq![i0, i1].push(i2) =~= seq![i0, i1, i2]);
    lemma_one_more_item(seq![i0, i1, i2], i3);
    assert(seq![i0, i1, i2].push(i3) =~= seq![i0, i1, i2, i3]);
    lemma_one_more_item(seq![i0, i1, i2, i3], i4);
    assert(seq![i0, i1, i2, i3].push(i4) =~= seq![i0, i1, i2, i3, i4]);
    lemma_one_more_item(seq![i0, i1, i2, i3, i4], i5);
    assert(seq![i0, i1, i2, i3, i4].push(i5) =~= seq![i0, i1, i2, i3, i4, i5]);
}

proof fn lemma_beacon_read(beacon: Beacon)
    requires
        forall|i: int|
            0 <= i < beacon.fields@.len() ==> field_readable(#[trigger] beacon.fields@[i]),
    ensures
        is_value(beacon.wire_text()),
        beacon.wire_text().len() > 0,
        beacon.wire_text()[0] == '{',
        beacon.wire_text().last() == '}',
        member_count(beacon.wire_text()) == 6,
        member(beacon.wire_text(), "Type"@) == Some("\"Beacon\""@),
        member(beacon.wire_text(), "Id"@) == Some(json_quoted(beacon.id@)),
        member(beacon.wire_text(), "Vendor"@) == Some(optional_string_text(beacon.vendor)),
        member(beacon.wire_text(), "ProtocolVersion"@) == Some(optional_number_text(beacon.protocol_version)),
        member(beacon.wire_text(), "Fields"@) == Some(fields_array(beacon.fields@)),
        member(beacon.wire_text(), "Timestamp"@) == Some(json_quoted(rfc3339_text(beacon.timestamp))),
{
    lemma_beacon_names();
    lemma_beacon_text(beacon);
    assert(is_value("\"Beacon\""@)) by {
        reveal_strlit("Beacon");
        reveal_strlit("\"Beacon\"");
        lemma_plain_string_value("Beacon"@);
        assert("\"Beacon\""@ =~= seq!['"'] + "Beacon"@ + seq!['"']);
    }
    lemma_quoted_value(beacon.id@);
    lemma_optional_string_value(beacon.vendor);
    lemma_optional_number_value(beacon.protocol_version);
    lemma_fields_array(beacon.fields@);
    lemma_quoted_value(rfc3339_text(beacon.timestamp));
    let (names, values) = (beacon_names(), beacon_values(beacon));
    assert forall|i: int| 0 <= i < values.len() implies is_value(#[trigger] values[i]) by {
        assert(i == 0 || i == 1 || i == 2 || i == 3 || i == 4 || i == 5);
    }
    lemma_object_read(names, values);
    assert(names[0] == "Type"@);
    assert(names[1] == "Id"@);
    assert(names[2] == "Vendor"@);
    assert(names[3] == "ProtocolVersion"@);
    assert(names[4] == "Fields"@);
    assert(names[5] == "Timestamp"@);
}

/// The names of the members of a query.
spec fn query_names() -> Seq<Seq<char>> {
    seq![
        "Type"@,
        "Gid"@,
        "SourceGid"@,
        "Fid"@,
        "Payload"@,
        "Qid"@,
    ]
}

/// Their values.
spec fn query_values(query: Query) -> Seq<Seq<char>> {
    seq![
        "\"Query\""@,
        json_quoted(query.gid@),
        optional_string_text(query.source_gid),
        json_quoted(query.fid@),
        optional_value_text(query.payload),
        quoted_uuid(query.qid),
    ]
}

proof fn lemma_query_names()
    ensures
        query_names().no_duplicates(),
        forall|i: int|
            0 <= i < query_names().len() ==> plain_name(
                #[trigger] query_names()[i],
            ),
{
    lemma_names_plain();
    reveal_strlit("Type");
    reveal_strlit("Gid");
    reveal_strlit("SourceGid");
    reveal_strlit("Fid");
    reveal_strlit("Payload");
    reveal_strlit("Qid");
    assert("Type"@.len() != "Gid"@.len());
    assert("Type"@.len() != "SourceGid"@.len());
    assert("Type"@.len() != "Fid"@.len());
    assert("Type"@.len() != "Payload"@.len());
    assert("Type"@.len() != "Qid"@.len());
    assert("Gid"@.len() != "SourceGid"@.len());
    assert("Gid"@[0] != "Fid"@[0]);
    assert("Gid"@.len() != "Payload"@.len());
    assert("Gid"@[0] != "Qid"@[0]);
    assert("SourceGid"@.len() != "Fid"@.len());
    assert("SourceGid"@.len() != "Payload"@.len());
    assert("SourceGid"@.len() != "Qid"@.len());
    assert("Fid"@.len() != "Payload"@.len());
    assert("Fid"@[0] != "Qid"@[0]);
    assert("Payload"@.len() != "Qid"@.len());
}

proof fn lemma_query_grouped(
    o: Seq<char>,
    t: Seq<char>,
    c: Seq<char>,
    e: Seq<char>,
    l0: Seq<char>,
    l1: Seq<char>,
    l2: Seq<char>,
    l3: Seq<char>,
    l4: Seq<char>,
    l5: Seq<char>,
    v1: Seq<char>,
    v2: Seq<char>,
    v3: Seq<char>,
    v4: Seq<char>,
    v5: Seq<char>,
    q: Seq<char>,
)
    ensures
        (o + l0 + t + c + l1) + v1 + (c + l2) + v2 + (c + l3) + v3 + (c + l4) + v4 + (c + l5 + q) + v5 + (q + e)
            == o + ((((((l0 + t) + c
            + (l1 + v1)) + c
            + (l2 + v2)) + c
            + (l3 + v3)) + c
            + (l4 + v4)) + c
            + (l5 + (q + v5 + q))) + e,
{
    broadcast use lemma_regroup;

}

proof fn lemma_query_text(query: Query)
    ensures
        query.wire_text() == object_text(query_names(), query_values(query)),
{
    assert("{\"Type\":\"Query\",\"Gid\":"@ == seq!['{'] + label("Type"@) + "\"Query\""@ + seq![','] + label("Gid"@)) by {
        reveal_strlit("{\"Type\":\"Query\",\"Gid\":");
        reveal_strlit("Type");
        reveal_strlit("\"Query\"");
        reveal_strlit("Gid");
        assert("{\"Type\":\"Query\",\"Gid\":"@ =~= seq!['{'] + label("Type"@) + "\"Query\""@ + seq![','] + label("Gid"@));
    }
    assert(",\"SourceGid\":"@ == seq![','] + label("SourceGid"@)) by {
        reveal_strlit(",\"SourceGid\":");
        reveal_strlit("SourceGid");
        assert(",\"SourceGid\":"@ =~= seq![','] + label("SourceGid"@));
    }
    assert(",\"Fid\":"@ == seq![','] + label("Fid"@)) by {
        reveal_strlit(",\"Fid\":");
        reveal_strlit("Fid");
        assert(",\"Fid\":"@ =~= seq![','] + label("Fid"@));
    }
    assert(",\"Payload\":"@ == seq![','] + label("Payload"@)) by {
        reveal_strlit(",\"Payload\":");
        reveal_strlit("Payload");
        assert(",\"Payload\":"@ =~= seq![','] + label("Payload"@));
    }
    assert(",\"Qid\":\""@ == seq![','] + label("Qid"@) + seq!['"']) by {
        reveal_strlit(",\"Qid\":\"");
        reveal_strlit("Qid");
        assert(",\"Qid\":\""@ =~= seq![','] + label("Qid"@) + seq!['"']);
    }
    assert("\"}"@ == seq!['"'] + seq!['}']) by {
        reveal_strlit("\"}");
        assert("\"}"@ =~= seq!['"'] + seq!['}']);
    }
    lemma_query_items(query);
    lemma_query_grouped(
        seq!['{'],
        "\"Query\""@,
        seq![','],
        seq!['}'],
        label("Type"@),
        label("Gid"@),
        label("SourceGid"@),
        label("Fid"@),
        label("Payload"@),
        label("Qid"@),
        json_quoted(query.gid@),
        optional_string_text(query.source_gid),
        json_quoted(query.fid@),
        optional_value_text(query.payload),
        uuid_text(query.qid),
        seq!['"'],
    );
}

proof fn lemma_query_items(query: Query)
    ensures
        object_text(query_names(), query_values(query)) 
            == seq!['{'] + ((((((label("Type"@) + "\"Query\""@) + seq![',']
            + (label("Gid"@) + json_quoted(query.gid@))) + seq![',']
            + (label("SourceGid"@) + optional_string_text(query.source_gid))) + seq![',']
            + (label("Fid"@) + json_quoted(query.fid@))) + seq![',']
            + (label("Payload"@) + optional_value_text(query.payload))) + seq![',']
            + (label("Qid"@) + quoted_uuid(query.qid)))
            + seq!['}'],
{
    let i0 = label("Type"@) + "\"Query\""@;
    let i1 = label("Gid"@) + json_quoted(query.gid@);
    let i2 = label("SourceGid"@) + optional_string_text(query.source_gid);
    let i3 = label("Fid"@) + json_quoted(query.fid@);
    let i4 = label("Payload"@) + optional_value_text(query.payload);
    let i5 = label("Qid"@) + quoted_uuid(query.qid);
    let items = labelled(query_names(), query_values(query));
    assert(items =~= seq![i0, i1, i2, i3, i4, i5]);
    assert(with_commas(seq![i0]) == i0);
    lemma_one_more_item(seq![i0], i1);
    assert(seq![i0].push(i1) =~= seq![i0, i1]);
    lemma_one_more_item(seq![i0, i1], i2);
    assert(seq![i0, i1].push(i2) =~= seq![i0, i1, i2]);
    lemma_one_more_item(seq![i0, i1, i2], i3);
    assert(seq![i0, i1, i2].push(i3) =~= seq![i0, i1, i2, i3]);
    lemma_one_more_item(seq![i0, i1, i2, i3], i4);
    assert(seq![i0, i1, i2, i3].push(i4) =~= seq![i0, i1, i2, i3, i4]);
    lemma_one_more_item(seq![i0, i1, i2, i3, i4], i5);
    assert(seq![i0, i1, i2, i3, i4].push(i5) =~= seq![i0, i1, i2, i3, i4, i5]);
}

proof fn lemma_query_read(query: Query)
    requires
        readable(query.payload),
    ensures
        is_value(query.wire_text()),
        query.wire_text().len() > 0,
        query.wire_text()[0] == '{',
        query.wire_text().last() == '}',
        member_count(query.wire_text()) == 6,
        member(query.wire_text(), "Type"@) == Some("\"Query\""@),
        member(query.wire_text(), "Gid"@) == Some(json_quoted(query.gid@)),
        member(query.wire_text(), "SourceGid"@) == Some(optional_string_text(query.source_gid)),
        member(query.wire_text(), "Fid"@) == Some(json_quoted(query.fid@)),
        member(query.wire_text(), "Payload"@) == Some(optional_value_text(query.payload)),
        member(query.wire_text(), "Qid"@) == Some(quoted_uuid(query.qid)),
{
    lemma_query_names();
    lemma_query_text(query);
    assert(is_value("\"Query\""@)) by {
        reveal_strlit("Query");
        reveal_strlit("\"Query\"");
        lemma_plain_string_value("Query"@);
        assert("\"Query\""@ =~= seq!['"'] + "Query"@ + seq!['"']);
    }
    lemma_quoted_value(query.gid@);
    lemma_optional_string_value(query.source_gid);
    lemma_quoted_value(query.fid@);
    lemma_optional_document_value(query.payload);
    lemma_uuid_value(query.qid);
    let (names, values) = (query_names(), query_values(query));
    assert forall|i: int| 0 <= i < values.len() implies is_value(#[trigger] values[i]) by {
        assert(i == 0 || i == 1 || i == 2 || i == 3 || i == 4 || i == 5);
    }
    lemma_object_read(names, values);
    assert(names[0] == "Type"@);
    assert(names[1] == "Gid"@);
    assert(names[2] == "SourceGid"@);
    assert(names[3] == "Fid"@);
    assert(names[4] == "Payload"@);
    assert(names[5] == "Qid"@);
}

/// The names of the members of a reply.
spec fn reply_names() -> Seq<Seq<char>> {
    seq![
        "Type"@,
        "Payload"@,
        "Qid"@,
        "TargetGid"@,
        "Error"@,
    ]
}

/// Their values.
spec fn reply_values(reply: Reply) -> Seq<Seq<char>> {
    seq![
        "\"Reply\""@,
        optional_value_text(reply.payload),
        quoted_uuid(reply.qid),
        optional_string_text(reply.target_gid),
        optional_string_text(reply.error),
    ]
}

proof fn lemma_reply_names()
    ensures
        reply_names().no_duplicates(),
        forall|i: int|
            0 <= i < reply_names().len() ==> plain_name(
                #[trigger] reply_names()[i],
            ),
{
    lemma_names_plain();
    reveal_strlit("Type");
    reveal_strlit("Payload");
    reveal_strlit("Qid");
    reveal_strlit("TargetGid");
    reveal_strlit("Error");
    assert("Type"@.len() != "Payload"@.len());
    assert("Type"@.len() != "Qid"@.len());
    assert("Type"@.len() != "TargetGid"@.len());
    assert("Type"@.len() != "Error"@.len());
    assert("Payload"@.len() != "Qid"@.len());
    assert("Payload"@.len() != "TargetGid"@.len());
    assert("Payload"@.len() != "Error"@.len());
    assert("Qid"@.len() != "TargetGid"@.len());
    assert("Qid"@.len() != "Error"@.len());
    assert("TargetGid"@.len() != "Error"@.len());
}

proof fn lemma_reply_grouped(
    o: Seq<char>,
    t: Seq<char>,
    c: Seq<char>,
    e: Seq<char>,
    l0: Seq<char>,
    l1: Seq<char>,
    l2: Seq<char>,
    l3: Seq<char>,
    l4: Seq<char>,
    v1: Seq<char>,
    v2: Seq<char>,
    v3: Seq<char>,
    v4: Seq<char>,
    q: Seq<char>,
)
    ensures
        (o + l0 + t + c + l1) + v1 + (c + l2 + q) + v2 + (q + c + l3) + v3 + (c + l4) + v4 + e
            == o + (((((l0 + t) + c
            + (l1 + v1)) + c
            + (l2 + (q + v2 + q))) + c
            + (l3 + v3)) + c
            + (l4 + v4)) + e,
{
    broadcast use lemma_regroup;

}

proof fn lemma_reply_text(reply: Reply)
    ensures
        reply.wire_text() == object_text(reply_names(), reply_values(reply)),
{
    assert("{\"Type\":\"Reply\",\"Payload\":"@ == seq!['{'] + label("Type"@) + "\"Reply\""@ + seq![','] + label("Payload"@)) by {
        reveal_strlit("{\"Type\":\"Reply\",\"Payload\":");
        reveal_strlit("Type");
        reveal_strlit("\"Reply\"");
        reveal_strlit("Payload");
        assert("{\"Type\":\"Reply\",\"Payload\":"@ =~= seq!['{'] + label("Type"@) + "\"Reply\""@ + seq![','] + label("Payload"@));
    }
    assert(",\"Qid\":\""@ == seq![','] + label("Qid"@) + seq!['"']) by {
        reveal_strlit(",\"Qid\":\"");
        reveal_strlit("Qid");
        assert(",\"Qid\":\""@ =~= seq![','] + label("Qid"@) + seq!['"']);
    }
    assert("\",\"TargetGid\":"@ == seq!['"'] + seq![','] + label("TargetGid"@)) by {
        reveal_strlit("\",\"TargetGid\":");
        reveal_strlit("TargetGid");
        assert("\",\"TargetGid\":"@ =~= seq!['"'] + seq![','] + label("TargetGid"@));
    }
    assert(",\"Error\":"@ == seq![','] + label("Error"@)) by {
        reveal_strlit(",\"Error\":");
        reveal_strlit("Error");
        assert(",\"Error\":"@ =~= seq![','] + label("Error"@));
    }
    assert("}"@ == seq!['}']) by {
        reveal_strlit("}");
        assert("}"@ =~= seq!['}']);
    }
    lemma_reply_items(reply);
    lemma_reply_grouped(
        seq!['{'],
        "\"Reply\""@,
        seq![','],
        seq!['}'],
        label("Type"@),
        label("Payload"@),
        label("Qid"@),
        label("TargetGid"@),
        label("Error"@),
        optional_value_text(reply.payload),
        uuid_text(reply.qid),
        optional_string_text(reply.target_gid),
        optional_string_text(reply.error),
        seq!['"'],
    );
}

proof fn lemma_reply_items(reply: Reply)
    ensures
        object_text(reply_names(), reply_values(reply)) 
            == seq!['{'] + (((((label("Type"@) + "\"Reply\""@) + seq![',']
            + (label("Payload"@) + optional_value_text(reply.payload))) + seq![',']
            + (label("Qid"@) + quoted_uuid(reply.qid))) + seq![',']
            + (label("TargetGid"@) + optional_string_text(reply.target_gid))) + seq![',']
            + (label("Error"@) + optional_string_text(reply.error)))
            + seq!['}'],
{
    let i0 = label("Type"@) + "\"Reply\""@;
    let i1 = label("Payload"@) + optional_value_text(reply.payload);
    let i2 = label("Qid"@) + quoted_uuid(reply.qid);
    let i3 = label("TargetGid"@) + optional_string_text(reply.target_gid);
    let i4 = label("Error"@) + optional_string_text(reply.error);
    let items = labelled(reply_names(), reply_values(reply));
    assert(items =~= seq![i0, i1, i2, i3, i4]);
    assert(with_commas(seq![i0]) == i0);
    lemma_one_more_item(seq![i0], i1);
    assert(seq![i0].push(i1) =~= seq![i0, i1]);
    lemma_one_more_item(seq![i0, i1], i2);
    assert(seq![i0, i1].push(i2) =~= seq![i0, i1, i2]);
    lemma_one_more_item(seq![i0, i1, i2], i3);
    assert(seq![i0, i1, i2].push(i3) =~= seq![i0, i1, i2, i3]);
    lemma_one_more_item(seq![i0, i1, i2, i3], i4);
    assert(seq![i0, i1, i2, i3].push(i4) =~= seq![i0, i1, i2, i3, i4]);
}

proof fn lemma_reply_read(reply: Reply)
    requires
        readable(reply.payload),
    ensures
        is_value(reply.wire_text()),
        reply.wire_text().len() > 0,
        reply.wire_text()[0] == '{',
        reply.wire_text().last() == '}',
        member_count(reply.wire_text()) == 5,
        member(reply.wire_text(), "Type"@) == Some("\"Reply\""@),
        member(reply.wire_text(), "Payload"@) == Some(optional_value_text(reply.payload)),
        member(reply.wire_text(), "Qid"@) == Some(quoted_uuid(reply.qid)),
        member(reply.wire_text(), "TargetGid"@) == Some(optional_string_text(reply.target_gid)),
        member(reply.wire_text(), "Error"@) == Some(optional_string_text(reply.error)),
{
    lemma_reply_names();
    lemma_reply_text(reply);
    assert(is_value("\"Reply\""@)) by {
        reveal_strlit("Reply");
        reveal_strlit("\"Reply\"");
        lemma_plain_string_value("Reply"@);
        assert("\"Reply\""@ =~= seq!['"'] + "Reply"@ + seq!['"']);
    }
    lemma_optional_document_value(reply.payload);
    lemma_uuid_value(reply.qid);
    lemma_optional_string_value(reply.target_gid);
    lemma_optional_string_value(reply.error);
    let (names, values) = (reply_names(), reply_values(reply));
    assert forall|i: int| 0 <= i < values.len() implies is_value(#[trigger] values[i]) by {
        assert(i == 0 || i == 1 || i == 2 || i == 3 || i == 4);
    }
    lemma_object_read(names, values);
    assert(names[0] == "Type"@);
    assert(names[1] == "Payload"@);
    assert(names[2] == "Qid"@);
    assert(names[3] == "TargetGid"@);
    assert(names[4] == "Error"@);
}

/// The names of the members of an event.
spec fn event_names() -> Seq<Seq<char>> {
    seq![
        "Type"@,
        "Gid"@,
        "Fid"@,
        "Arg"@,
    ]
}

/// Their values.
spec fn event_values(event: Event) -> Seq<Seq<char>> {
    seq![
        "\"Event\""@,
        json_quoted(event.gid@),
        json_quoted(event.fid@),
        optional_value_text(event.arg),
    ]
}

proof fn lemma_event_names()
    ensures
        event_names().no_duplicates(),
        forall|i: int|
            0 <= i < event_names().len() ==> plain_name(
                #[trigger] event_names()[i],
            ),
{
    lemma_names_plain();
    reveal_strlit("Type");
    reveal_strlit("Gid");
    reveal_strlit("Fid");
    reveal_strlit("Arg");
    assert("Type"@.len() != "Gid"@.len());
    assert("Type"@.len() != "Fid"@.len());
    assert("Type"@.len() != "Arg"@.len());
    assert("Gid"@[0] != "Fid"@[0]);
    assert("Gid"@[0] != "Arg"@[0]);
    assert("Fid"@[0] != "Arg"@[0]);
}

proof fn lemma_event_grouped(
    o: Seq<char>,
    t: Seq<char>,
    c: Seq<char>,
    e: Seq<char>,
    l0: Seq<char>,
    l1: Seq<char>,
    l2: Seq<char>,
    l3: Seq<char>,
    v1: Seq<char>,
    v2: Seq<char>,
    v3: Seq<char>,
)
    ensures
        (o + l0 + t + c + l1) + v1 + (c + l2) + v2 + (c + l3) + v3 + e
            == o + ((((l0 + t) + c
            + (l1 + v1)) + c
            + (l2 + v2)) + c
            + (l3 + v3)) + e,
{
    broadcast use lemma_regroup;

}

proof fn lemma_event_text(event: Event)
    ensures
        event.wire_text() == object_text(event_names(), event_values(event)),
{
    assert("{\"Type\":\"Event\",\"Gid\":"@ == seq!['{'] + label("Type"@) + "\"Event\""@ + seq![','] + label("Gid"@)) by {
        reveal_strlit("{\"Type\":\"Event\",\"Gid\":");
        reveal_strlit("Type");
        reveal_strlit("\"Event\"");
        reveal_strlit("Gid");
        assert("{\"Type\":\"Event\",\"Gid\":"@ =~= seq!['{'] + label("Type"@) + "\"Event\""@ + seq![','] + label("Gid"@));
    }
    assert(",\"Fid\":"@ == seq![','] + label("Fid"@)) by {
        reveal_strlit(",\"Fid\":");
        reveal_strlit("Fid");
        assert(",\"Fid\":"@ =~= seq![','] + label("Fid"@));
    }
    assert(",\"Arg\":"@ == seq![','] + label("Arg"@)) by {
        reveal_strlit(",\"Arg\":");
        reveal_strlit("Arg");
        assert(",\"Arg\":"@ =~= seq![','] + label("Arg"@));
    }
    assert("}"@ == seq!['}']) by {
        reveal_strlit("}");
        assert("}"@ =~= seq!['}']);
    }
    lemma_event_items(event);
    lemma_event_grouped(
        seq!['{'],
        "\"Event\""@,
        seq![','],
        seq!['}'],
        label("Type"@),
        label("Gid"@),
        label("Fid"@),
        label("Arg"@),
        json_quoted(event.gid@),
        json_quoted(event.fid@),
        optional_value_text(event.arg),
    );
}

proof fn lemma_event_items(event: Event)
    ensures
        object_text(event_names(), event_values(event)) 
            == seq!['{'] + ((((label("Type"@) + "\"Event\""@) + seq![',']
            + (label("Gid"@) + json_quoted(event.gid@))) + seq![',']
            + (label("Fid"@) + json_quoted(event.fid@))) + seq![',']
            + (label("Arg"@) + optional_value_text(event.arg)))
            + seq!['}'],
{
    let i0 = label("Type"@) + "\"Event\""@;
    let i1 = label("Gid"@) + json_quoted(event.gid@);
    let i2 = label("Fid"@) + json_quoted(event.fid@);
    let i3 = label("Arg"@) + optional_value_text(event.arg);
    let items = labelled(event_names(), event_values(event));
    assert(items =~= seq![i0, i1, i2, i3]);
    assert(with_commas(seq![i0]) == i0);
    lemma_one_more_item(seq![i0], i1);
    assert(seq![i0].push(i1) =~= seq![i0, i1]);
    lemma_one_more_item(seq![i0, i1], i2);
    assert(seq![i0, i1].push(i2) =~= seq![i0, i1, i2]);
    lemma_one_more_item(seq![i0, i1, i2], i3);
    assert(seq![i0, i1, i2].push(i3) =~= seq![i0, i1, i2, i3]);
}

proof fn lemma_event_read(event: Event)
    requires
        readable(event.arg),
    ensures
        is_value(event.wire_text()),
        event.wire_text().len() > 0,
        event.wire_text()[0] == '{',
        event.wire_text().last() == '}',
        member_count(event.wire_text()) == 4,
        member(event.wire_text(), "Type"@) == Some("\"Event\""@),
        member(event.wire_text(), "Gid"@) == Some(json_quoted(event.gid@)),
        member(event.wire_text(), "Fid"@) == Some(json_quoted(event.fid@)),
        member(event.wire_text(), "Arg"@) == Some(optional_value_text(event.arg)),
{
    lemma_event_names();
    lemma_event_text(event);
    assert(is_value("\"Event\""@)) by {
        reveal_strlit("Event");
        reveal_strlit("\"Event\"");
        lemma_plain_string_value("Event"@);
        assert("\"Event\""@ =~= seq!['"'] + "Event"@ + seq!['"']);
    }
    lemma_quoted_value(event.gid@);
    lemma_quoted_value(event.fid@);
    lemma_optional_document_value(event.arg);
    let (names, values) = (event_names(), event_values(event));
    assert forall|i: int| 0 <= i < values.len() implies is_value(#[trigger] values[i]) by {
        assert(i == 0 || i == 1 || i == 2 || i == 3);
    }
    lemma_object_read(names, values);
    assert(names[0] == "Type"@);
    assert(names[1] == "Gid"@);
    assert(names[2] == "Fid"@);
    assert(names[3] == "Arg"@);
}

/// The names of the members of a heartbeat.
spec fn heartbeat_names() -> Seq<Seq<char>> {
    seq![
        "Type"@,
        "Id"@,
    ]
}

/// Their values.
spec fn heartbeat_values(heartbeat: Heartbeat) -> Seq<Seq<char>> {
    seq![
        "\"Heartbeat\""@,
        json_quoted(heartbeat.id@),
    ]
}

proof fn lemma_heartbeat_names()
    ensures
        heartbeat_names().no_duplicates(),
        forall|i: int|
            0 <= i < heartbeat_names().len() ==> plain_name(
                #[trigger] heartbeat_names()[i],
            ),
{
    lemma_names_plain();
    reveal_strlit("Type");
    reveal_strlit("Id");
    assert("Type"@.len() != "Id"@.len());
}

proof fn lemma_heartbeat_grouped(
    o: Seq<char>,
    t: Seq<char>,
    c: Seq<char>,
    e: Seq<char>,
    l0: Seq<char>,
    l1: Seq<char>,
    v1: Seq<char>,
)
    ensures
        (o + l0 + t + c + l1) + v1 + e
            == o + ((l0 + t) + c
            + (l1 + v1)) + e,
{
    broadcast use lemma_regroup;

}

proof fn lemma_heartbeat_text(heartbeat: Heartbeat)
    ensures
        heartbeat.wire_text() == object_text(heartbeat_names(), heartbeat_values(heartbeat)),
{
    assert("{\"Type\":\"Heartbeat\",\"Id\":"@ == seq!['{'] + label("Type"@) + "\"Heartbeat\""@ + seq![','] + label("Id"@)) by {
        reveal_strlit("{\"Type\":\"Heartbeat\",\"Id\":");
        reveal_strlit("Type");
        reveal_strlit("\"Heartbeat\"");
        reveal_strlit("Id");
        assert("{\"Type\":\"Heartbeat\",\"Id\":"@ =~= seq!['{'] + label("Type"@) + "\"Heartbeat\""@ + seq![','] + label("Id"@));
    }
    assert("}"@ == seq!['}']) by {
        reveal_strlit("}");
        assert("}"@ =~= seq!['}']);
    }
    lemma_heartbeat_items(heartbeat);
    lemma_heartbeat_grouped(
        seq!['{'],
        "\"Heartbeat\""@,
        seq![','],
        seq!['}'],
        label("Type"@),
        label("Id"@),
        json_quoted(heartbeat.id@),
    );
}

proof fn lemma_heartbeat_items(heartbeat: Heartbeat)
    ensures
        object_text(heartbeat_names(), heartbeat_values(heartbeat)) 
            == seq!['{'] + ((label("Type"@) + "\"Heartbeat\""@) + seq![',']
            + (label("Id"@) + json_quoted(heartbeat.id@)))
            + seq!['}'],
{
    let i0 = label("Type"@) + "\"Heartbeat\""@;
    let i1 = label("Id"@) + json_quoted(heartbeat.id@);
    let items = labelled(heartbeat_names(), heartbeat_values(heartbeat));
    assert(items =~= seq![i0, i1]);
    assert(with_commas(seq![i0]) == i0);
    lemma_one_more_item(seq![i0], i1);
    assert(seq![i0].push(i1) =~= seq![i0, i1]);
}

proof fn lemma_heartbeat_read(heartbeat: Heartbeat)
    ensures
        is_value(heartbeat.wire_text()),
        heartbeat.wire_text().len() > 0,
        heartbeat.wire_text()[0] == '{',
        heartbeat.wire_text().last() == '}',
        member_count(heartbeat.wire_text()) == 2,
        member(heartbeat.wire_text(), "Type"@) == Some("\"Heartbeat\""@),
        member(heartbeat.wire_text(), "Id"@) == Some(json_quoted(heartbeat.id@)),
{
    lemma_heartbeat_names();
    lemma_heartbeat_text(heartbeat);
    assert(is_value("\"Heartbeat\""@)) by {
        reveal_strlit("Heartbeat");
        reveal_strlit("\"Heartbeat\"");
        lemma_plain_string_value("Heartbeat"@);
        assert("\"Heartbeat\""@ =~= seq!['"'] + "Heartbeat"@ + seq!['"']);
    }
    lemma_quoted_value(heartbeat.id@);
    let (names, values) = (heartbeat_names(), heartbeat_values(heartbeat));
    assert forall|i: int| 0 <= i < values.len() implies is_value(#[trigger] values[i]) by {
        assert(i == 0 || i == 1);
    }
    lemma_object_read(names, values);
    assert(names[0] == "Type"@);
    assert(names[1] == "Id"@);
}

/// The bytes of a query, read by the names of the members, are the query: whom it calls, who calls, what
/// is called, with which document, and under which id. There are no other members.
pub proof fn law_query_read_by_members(
    message: &Glycosyl,
    query: Query,
    bytes: Result<Vec<u8>, GlycoError>,
    text: Seq<char>,
)
    requires
        *message == Glycosyl::Query(query),
        call_ensures(Glycosyl::to_bytes, (message,), bytes),
        bytes matches Ok(written) ==> text == decode_utf8(written@),
        readable(query.payload),
    ensures
        bytes is Ok,
        text.len() > 0 && text[0] == '{' && text.last() == '}',
        member_count(text) == 6,
        member(text, "Type"@) == Some("\"Query\""@),
        member(text, "Gid"@) == Some(json_quoted(query.gid@)),
        member(text, "SourceGid"@) == Some(match query.source_gid {
            Some(text) => json_quoted(text@),
            None => "null"@,
        }),
        member(text, "Fid"@) == Some(json_quoted(query.fid@)),
        member(text, "Payload"@) == Some(match query.payload {
            Some(document) => json_text(document),
            None => "null"@,
        }),
        member(text, "Qid"@) == Some(seq!['"'] + uuid_text(query.qid) + seq!['"']),
{
    encode_utf8_decode_utf8(query.wire_text());
    lemma_query_read(query);
}

/// The bytes of a reply, read by the names of the members, are the reply: its document, the id of its
/// query, whom it is for, and the error. There are no other members.
pub proof fn law_reply_read_by_members(
    message: &Glycosyl,
    reply: Reply,
    bytes: Result<Vec<u8>, GlycoError>,
    text: Seq<char>,
)
    requires
        *message == Glycosyl::Reply(reply),
        call_ensures(Glycosyl::to_bytes, (message,), bytes),
        bytes matches Ok(written) ==> text == decode_utf8(written@),
        readable(reply.payload),
    ensures
        bytes is Ok,
        text.len() > 0 && text[0] == '{' && text.last() == '}',
        member_count(text) == 5,
        member(text, "Type"@) == Some("\"Reply\""@),
        member(text, "Payload"@) == Some(match reply.payload {
            Some(document) => json_text(document),
            None => "null"@,
        }),
        member(text, "Qid"@) == Some(seq!['"'] + uuid_text(reply.qid) + seq!['"']),
        member(text, "TargetGid"@) == Some(match reply.target_gid {
            Some(text) => json_quoted(text@),
            None => "null"@,
        }),
        member(text, "Error"@) == Some(match reply.error {
            Some(text) => json_quoted(text@),
            None => "null"@,
        }),
{
    encode_utf8_decode_utf8(reply.wire_text());
    lemma_reply_read(reply);
}

/// The bytes of an event, read by the names of the members, are the event: whose it is, of which field,
/// and with which document. There are no other members.
pub proof fn law_event_read_by_members(
    message: &Glycosyl,
    event: Event,
    bytes: Result<Vec<u8>, GlycoError>,
    text: Seq<char>,
)
    requires
        *message == Glycosyl::Event(event),
        call_ensures(Glycosyl::to_bytes, (message,), bytes),
        bytes matches Ok(written) ==> text == decode_utf8(written@),
        readable(event.arg),
    ensures
        bytes is Ok,
        text.len() > 0 && text[0] == '{' && text.last() == '}',
        member_count(text) == 4,
        member(text, "Type"@) == Some("\"Event\""@),
        member(text, "Gid"@) == Some(json_quoted(event.gid@)),
        member(text, "Fid"@) == Some(json_quoted(event.fid@)),
        member(text, "Arg"@) == Some(match event.arg {
            Some(document) => json_text(document),
            None => "null"@,
        }),
{
    encode_utf8_decode_utf8(event.wire_text());
    lemma_event_read(event);
}

/// The bytes of a heartbeat, read by the names of the members, are the id of its node.
pub proof fn law_heartbeat_read_by_members(
    message: &Glycosyl,
    heartbeat: Heartbeat,
    bytes: Result<Vec<u8>, GlycoError>,
    text: Seq<char>,
)
    requires
        *message == Glycosyl::Heartbeat(heartbeat),
        call_ensures(Glycosyl::to_bytes, (message,), bytes),
        bytes matches Ok(written) ==> text == decode_utf8(written@),
    ensures
        bytes is Ok,
        text.len() > 0 && text[0] == '{' && text.last() == '}',
        member_count(text) == 2,
        member(text, "Type"@) == Some("\"Heartbeat\""@),
        member(text, "Id"@) == Some(json_quoted(heartbeat.id@)),
{
    encode_utf8_decode_utf8(heartbeat.wire_text());
    lemma_heartbeat_read(heartbeat);
}

/// The bytes of a beacon, read by the names of the members, are the beacon: whose it is, its vendor, the
/// version of the protocol as a number, the time, and as many fields as it has.
pub proof fn law_beacon_read_by_members(
    message: &Glycosyl,
    beacon: Beacon,
    bytes: Result<Vec<u8>, GlycoError>,
    text: Seq<char>,
)
    requires
        *message == Glycosyl::Beacon(beacon),
        call_ensures(Glycosyl::to_bytes, (message,), bytes),
        bytes matches Ok(written) ==> text == decode_utf8(written@),
        forall|i: int|
            0 <= i < beacon.fields@.len() ==> field_readable(#[trigger] beacon.fields@[i]),
    ensures
        bytes is Ok,
        text.len() > 0 && text[0] == '{' && text.last() == '}',
        member_count(text) == 6,
        member(text, "Type"@) == Some("\"Beacon\""@),
        member(text, "Id"@) == Some(json_quoted(beacon.id@)),
        member(text, "Vendor"@) == Some(match beacon.vendor {
            Some(text) => json_quoted(text@),
            None => "null"@,
        }),
        member(text, "ProtocolVersion"@) matches Some(version) && match beacon.protocol_version {
            Some(number) => number_value(version) == number,
            None => version == "null"@,
        },
        member(text, "Timestamp"@) == Some(json_quoted(rfc3339_text(beacon.timestamp))),
        member(text, "Fields"@) matches Some(array) && array[0] == '[' && array.last() == ']'
            && elements(array).len() == beacon.fields@.len(),
{
    encode_utf8_decode_utf8(beacon.wire_text());
    lemma_beacon_read(beacon);
    lemma_fields_array(beacon.fields@);
    if beacon.protocol_version is Some {
        lemma_number_read(beacon.protocol_version->Some_0 as int);
    }
}

/// The fields in the bytes of a beacon, read by the names of the members, are the fields of the beacon,
/// in their order: each method with its id, its name and its description for people, the schema of its
/// argument and that of its result, and each event with its id, its name, its description and the
/// schema of its argument, every one under its own name.
pub proof fn law_fields_read_by_members(
    message: &Glycosyl,
    beacon: Beacon,
    bytes: Result<Vec<u8>, GlycoError>,
    text: Seq<char>,
    i: int,
    read: Seq<char>,
)
    requires
        *message == Glycosyl::Beacon(beacon),
        call_ensures(Glycosyl::to_bytes, (message,), bytes),
        bytes matches Ok(written) ==> text == decode_utf8(written@),
        forall|j: int|
            0 <= j < beacon.fields@.len() ==> field_readable(#[trigger] beacon.fields@[j]),
        0 <= i < beacon.fields@.len(),
        member(text, "Fields"@) matches Some(array) ==> read == elements(array)[i],
    ensures
        beacon.fields@[i] matches Field::Method(method) ==> {
            &&& read[0] == '{' && read.last() == '}'
            &&& member_count(read) == 6
            &&& member(read, "Type"@) == Some("\"Method\""@)
            &&& member(read, "Id"@) == Some(json_quoted(method.id@))
            &&& member(read, "FriendlyName"@) == Some(match method.friendly_name {
                        Some(text) => json_quoted(text@),
                        None => "null"@,
                    })
            &&& member(read, "Description"@) == Some(match method.description {
                        Some(text) => json_quoted(text@),
                        None => "null"@,
                    })
            &&& member(read, "QuerySchema"@) == Some(match method.query_schema {
                        Some(document) => json_text(document),
                        None => "null"@,
                    })
            &&& member(read, "ReceiptSchema"@) == Some(match method.receipt_schema {
                        Some(document) => json_text(document),
                        None => "null"@,
                    })
        },
        beacon.fields@[i] matches Field::Event(event) ==> {
            &&& read[0] == '{' && read.last() == '}'
            &&& member_count(read) == 5
            &&& member(read, "Type"@) == Some("\"Event\""@)
            &&& member(read, "Id"@) == Some(json_quoted(event.id@))
            &&& member(read, "FriendlyName"@) == Some(match event.friendly_name {
                        Some(text) => json_quoted(text@),
                        None => "null"@,
                    })
            &&& member(read, "Description"@) == Some(match event.description {
                        Some(text) => json_quoted(text@),
                        None => "null"@,
                    })
            &&& member(read, "CallArgSchema"@) == Some(match event.call_arg_schema {
                        Some(document) => json_text(document),
                        None => "null"@,
                    })
        },
{
    encode_utf8_decode_utf8(beacon.wire_text());
    lemma_beacon_read(beacon);
    lemma_fields_array(beacon.fields@);
    assert(field_readable(beacon.fields@[i]));
    assert(read == field_text(beacon.fields@[i]));
    match beacon.fields@[i] {
        Field::Method(method) => lemma_method_read(method),
        Field::Event(event) => lemma_event_field_read(event),
    }
}

} // verus!
