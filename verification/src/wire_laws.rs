//! What the bytes of messages tell: two messages with the same bytes are the same message, as far as
//! the documents in them are known by their texts.
use crate::outside::{
    hex_digit, json_escaped, json_inside, json_quoted, rfc3339_text, uuid_text,
};
use crate::presence::{same_announcement, same_field};
use crate::protocol::{
    Beacon, Event, EventField, Field, Glycosyl, Heartbeat, MethodField, Query, Reply,
};
use crate::text::{decimal, digit, lemma_utf8_injective};
use crate::wire::{
    field_text, fields_text, optional_number_text, optional_string_text, optional_value_text,
};
use serde_json::Value;
use vstd::arithmetic::div_mod::{lemma_div_denominator, lemma_fundamental_div_mod};
use vstd::arithmetic::power::{lemma_pow0, lemma_pow_adds, lemma_pow1, lemma_pow_positive, pow};
use vstd::prelude::*;
use vstd::string::*;
use vstd::utf8::*;

verus! {

/// What follows a common beginning is determined.
proof fn lemma_cancel(beginning: Seq<char>, left: Seq<char>, right: Seq<char>)
    requires
        beginning + left == beginning + right,
    ensures
        left == right,
{
    let n = beginning.len() as int;
    assert((beginning + left).skip(n) =~= left);
    assert((beginning + right).skip(n) =~= right);
}

/// Hexadecimal digits tell numbers apart.
proof fn lemma_hex_digit(a: int, b: int)
    requires
        0 <= a < 16,
        0 <= b < 16,
    ensures
        hex_digit(a) == hex_digit(b) ==> a == b,
{
}

/// How a character stands inside a JSON string tells which it is, whatever follows.
proof fn lemma_escaped(a: char, b: char, x: Seq<char>, y: Seq<char>)
    requires
        json_escaped(a) + x == json_escaped(b) + y,
    ensures
        a == b,
        x == y,
{
    let left = json_escaped(a) + x;
    let right = json_escaped(b) + y;
    assert(left[0] == right[0]);
    assert(left[0] == json_escaped(a)[0]);
    assert(right[0] == json_escaped(b)[0]);
    if json_escaped(a).len() > 1 && json_escaped(b).len() > 1 {
        assert(left[1] == right[1]);
        assert(left[1] == json_escaped(a)[1]);
        assert(right[1] == json_escaped(b)[1]);
        if json_escaped(a).len() > 2 && json_escaped(b).len() > 2 {
            assert(left[4] == right[4]);
            assert(left[5] == right[5]);
            assert(left[4] == json_escaped(a)[4]);
            assert(right[4] == json_escaped(b)[4]);
            assert(left[5] == json_escaped(a)[5]);
            assert(right[5] == json_escaped(b)[5]);
            let (m, n) = (a as u32 as int, b as u32 as int);
            lemma_hex_digit(m / 16, n / 16);
            lemma_hex_digit(m % 16, n % 16);
            assert(m == n);
        }
    }
    assert(a == b);
    lemma_cancel(json_escaped(a), x, y);
}

proof fn lemma_inside(a: Seq<char>, b: Seq<char>, x: Seq<char>, y: Seq<char>)
    requires
        json_inside(a) + seq!['"'] + x == json_inside(b) + seq!['"'] + y,
    ensures
        a == b,
        x == y,
    decreases a.len(),
{
    let left = json_inside(a) + seq!['"'] + x;
    let right = json_inside(b) + seq!['"'] + y;
    if a.len() == 0 && b.len() == 0 {
        assert(a =~= b);
        assert(left =~= seq!['"'] + x);
        assert(right =~= seq!['"'] + y);
        lemma_cancel(seq!['"'], x, y);
    } else if a.len() == 0 {
        assert(left[0] == '"');
        assert(right[0] == json_escaped(b[0])[0]);
        assert(false);
    } else if b.len() == 0 {
        assert(right[0] == '"');
        assert(left[0] == json_escaped(a[0])[0]);
        assert(false);
    } else {
        let (p, q) = (a.drop_first(), b.drop_first());
        let (u, v) = (json_inside(p) + seq!['"'] + x, json_inside(q) + seq!['"'] + y);
        assert(left =~= json_escaped(a[0]) + u);
        assert(right =~= json_escaped(b[0]) + v);
        lemma_escaped(a[0], b[0], u, v);
        lemma_inside(p, q, x, y);
        assert(a =~= seq![a[0]] + p);
        assert(b =~= seq![b[0]] + q);
    }
}

/// A JSON string tells which text it is and where it ends.
proof fn lemma_quoted(a: Seq<char>, b: Seq<char>, x: Seq<char>, y: Seq<char>)
    requires
        json_quoted(a) + x == json_quoted(b) + y,
    ensures
        a == b,
        x == y,
{
    let (u, v) = (json_inside(a) + seq!['"'] + x, json_inside(b) + seq!['"'] + y);
    assert(json_quoted(a) + x =~= seq!['"'] + u);
    assert(json_quoted(b) + y =~= seq!['"'] + v);
    lemma_cancel(seq!['"'], u, v);
    lemma_inside(a, b, x, y);
}

/// An optional JSON string tells which text it is, if it is one, and where it ends.
proof fn lemma_optional_string(
    a: Option<String>,
    b: Option<String>,
    x: Seq<char>,
    y: Seq<char>,
)
    requires
        optional_string_text(a) + x == optional_string_text(b) + y,
    ensures
        a.deep_view() == b.deep_view(),
        x == y,
{
    reveal_strlit("null");
    let left = optional_string_text(a) + x;
    let right = optional_string_text(b) + y;
    assert(left[0] == right[0]);
    match (a, b) {
        (Some(s), Some(t)) => {
            lemma_quoted(s@, t@, x, y);
        },
        (None, None) => {
            lemma_cancel("null"@, x, y);
        },
        (Some(s), None) => {
            assert(left[0] == json_quoted(s@)[0]);
            assert(right[0] == "null"@[0]);
            assert(false);
        },
        (None, Some(t)) => {
            assert(right[0] == json_quoted(t@)[0]);
            assert(left[0] == "null"@[0]);
            assert(false);
        },
    }
}

/// The characters of a decimal number are digits.
proof fn lemma_decimal_digits(n: nat)
    ensures
        decimal(n).len() > 0,
        forall|i: int| 0 <= i < decimal(n).len() ==> '0' <= #[trigger] decimal(n)[i] <= '9',
    decreases n,
{
    if n >= 10 {
        lemma_decimal_digits(n / 10);
    }
}

/// Decimal notation tells numbers apart.
proof fn lemma_decimal_injective(m: nat, n: nat)
    requires
        decimal(m) == decimal(n),
    ensures
        m == n,
    decreases m,
{
    assert(decimal(m).last() == digit(m % 10));
    assert(decimal(n).last() == digit(n % 10));
    assert(m % 10 == n % 10);
    if m >= 10 && n >= 10 {
        assert(decimal(m).drop_last() =~= decimal(m / 10));
        assert(decimal(n).drop_last() =~= decimal(n / 10));
        lemma_decimal_injective(m / 10, n / 10);
    } else if m >= 10 {
        lemma_decimal_digits(m / 10);
        assert(decimal(m).len() > 1);
    } else if n >= 10 {
        lemma_decimal_digits(n / 10);
        assert(decimal(n).len() > 1);
    }
}

/// The texts of a UUID tell numbers apart.
pub proof fn law_uuid_text_injective(a: u128, b: u128)
    requires
        uuid_text(a) == uuid_text(b),
    ensures
        a == b,
{
    assert forall|k: nat| k < 32 implies (a as int / pow(16, k)) % 16 == (b as int / #[trigger] pow(
        16,
        k,
    )) % 16 by {
        let p = 31 - k;
        let i = if p < 8 {
            p
        } else if p < 12 {
            p + 1
        } else if p < 16 {
            p + 2
        } else if p < 20 {
            p + 3
        } else {
            p + 4
        };
        assert(uuid_text(a)[i] == hex_digit((a as int / pow(16, k)) % 16));
        assert(uuid_text(b)[i] == hex_digit((b as int / pow(16, k)) % 16));
        lemma_hex_digit((a as int / pow(16, k)) % 16, (b as int / pow(16, k)) % 16);
    }
    lemma_pow0(16);
    lemma_hex_digits_determine(a as int, b as int, 0);
    assert(a as int / 1 == a as int);
    assert(b as int / 1 == b as int);
}

/// Numbers below 16 to the power of 32 with the same hexadecimal digits from some place on are the
/// same from that place on.
proof fn lemma_hex_digits_determine(a: int, b: int, k: nat)
    requires
        0 <= a <= u128::MAX,
        0 <= b <= u128::MAX,
        k <= 32,
        forall|j: nat|
            j < 32 ==> (a / pow(16, j)) % 16 == (b / #[trigger] pow(16, j)) % 16,
    ensures
        a / pow(16, k) == b / pow(16, k),
    decreases 32 - k,
{
    if k == 32 {
        assert(pow(16, 32) == 0x1_0000_0000_0000_0000_0000_0000_0000_0000) by {
            reveal_with_fuel(pow, 33);
        }
    } else {
        lemma_hex_digits_determine(a, b, k + 1);
        lemma_pow_positive(16, k);
        lemma_pow_adds(16, k, 1);
        lemma_pow1(16);
        lemma_div_denominator(a, pow(16, k), 16);
        lemma_div_denominator(b, pow(16, k), 16);
        lemma_fundamental_div_mod(a / pow(16, k), 16);
        lemma_fundamental_div_mod(b / pow(16, k), 16);
    }
}

/// An optional number tells which it is, if it is one, and where it ends before a comma.
proof fn lemma_optional_number(a: Option<i32>, b: Option<i32>, x: Seq<char>, y: Seq<char>)
    requires
        optional_number_text(a) + x == optional_number_text(b) + y,
        x.len() > 0 && x[0] == ',',
        y.len() > 0 && y[0] == ',',
    ensures
        a == b,
        x == y,
{
    reveal_strlit("null");
    let (s, t) = (optional_number_text(a), optional_number_text(b));
    let left = s + x;
    let right = t + y;
    assert forall|i: int| 0 <= i < s.len() implies #[trigger] s[i] != ',' by {
        lemma_number_has_no_comma(a, i);
    }
    assert forall|i: int| 0 <= i < t.len() implies #[trigger] t[i] != ',' by {
        lemma_number_has_no_comma(b, i);
    }
    if s.len() < t.len() {
        assert(left[s.len() as int] == ',');
        assert(right[s.len() as int] == t[s.len() as int]);
    }
    if t.len() < s.len() {
        assert(right[t.len() as int] == ',');
        assert(left[t.len() as int] == s[t.len() as int]);
    }
    assert(left.take(s.len() as int) =~= s);
    assert(right.take(t.len() as int) =~= t);
    assert(s == t);
    lemma_cancel(s, x, y);
    lemma_number_first(a);
    lemma_number_first(b);
    match (a, b) {
        (Some(m), Some(n)) => {
            if m < 0 && n < 0 {
                lemma_cancel(seq!['-'], decimal((-m) as nat), decimal((-n) as nat));
                lemma_decimal_injective((-m) as nat, (-n) as nat);
            } else if m >= 0 && n >= 0 {
                lemma_decimal_injective(m as nat, n as nat);
            }
        },
        _ => {},
    }
}

proof fn lemma_number_has_no_comma(a: Option<i32>, i: int)
    requires
        0 <= i < optional_number_text(a).len(),
    ensures
        optional_number_text(a)[i] != ',',
{
    reveal_strlit("null");
    match a {
        Some(n) => {
            if n < 0 {
                lemma_decimal_digits((-n) as nat);
            } else {
                lemma_decimal_digits(n as nat);
            }
        },
        None => {},
    }
}

proof fn lemma_number_first(a: Option<i32>)
    ensures
        optional_number_text(a).len() > 0,
        match a {
            None => optional_number_text(a)[0] == 'n',
            Some(n) => if n < 0 {
                optional_number_text(a)[0] == '-'
            } else {
                '0' <= optional_number_text(a)[0] <= '9'
            },
        },
{
    reveal_strlit("null");
    match a {
        Some(n) => {
            if n >= 0 {
                lemma_decimal_digits(n as nat);
            }
        },
        None => {},
    }
}

/// What may follow a document in a message.
pub open spec fn follows_document(text: Seq<char>) -> bool {
    text.len() > 0 && (text[0] == ',' || text[0] == '}')
}

/// Two texts of documents, of which neither can be taken for the beginning of the other, whatever
/// follows them in a message. All JSON texts are so.
pub open spec fn delimit(left: Seq<char>, right: Seq<char>) -> bool {
    forall|x: Seq<char>, y: Seq<char>|
        follows_document(x) && follows_document(y) && #[trigger] (left + x) == #[trigger] (right
            + y) ==> left == right
}

/// The texts of the documents of a field.
pub open spec fn field_documents(field: Field) -> Set<Seq<char>> {
    match field {
        Field::Method(method) => set![
            optional_value_text(method.query_schema),
            optional_value_text(method.receipt_schema),
        ],
        Field::Event(event) => set![optional_value_text(event.call_arg_schema)],
    }
}

/// The texts of the documents of a message.
pub open spec fn message_documents(message: Glycosyl) -> Set<Seq<char>> {
    match message {
        Glycosyl::Beacon(beacon) => Set::new(
            |text: Seq<char>|
                exists|i: int|
                    0 <= i < beacon.fields@.len() && field_documents(
                        #[trigger] beacon.fields@[i],
                    ).contains(text),
        ),
        Glycosyl::Query(query) => set![optional_value_text(query.payload)],
        Glycosyl::Reply(reply) => set![optional_value_text(reply.payload)],
        Glycosyl::Event(event) => set![optional_value_text(event.arg)],
        Glycosyl::Heartbeat(_) => Set::empty(),
    }
}

/// Two messages of the same content, with documents and times known by their texts.
pub open spec fn same_content(left: Glycosyl, right: Glycosyl) -> bool {
    match (left, right) {
        (Glycosyl::Beacon(a), Glycosyl::Beacon(b)) => {
            &&& same_announcement(a, b)
            &&& rfc3339_text(a.timestamp) == rfc3339_text(b.timestamp)
        },
        (Glycosyl::Query(a), Glycosyl::Query(b)) => {
            &&& a.gid@ == b.gid@
            &&& a.source_gid.deep_view() == b.source_gid.deep_view()
            &&& a.fid@ == b.fid@
            &&& optional_value_text(a.payload) == optional_value_text(b.payload)
            &&& a.qid == b.qid
        },
        (Glycosyl::Reply(a), Glycosyl::Reply(b)) => {
            &&& optional_value_text(a.payload) == optional_value_text(b.payload)
            &&& a.qid == b.qid
            &&& a.target_gid.deep_view() == b.target_gid.deep_view()
            &&& a.error.deep_view() == b.error.deep_view()
        },
        (Glycosyl::Event(a), Glycosyl::Event(b)) => {
            &&& a.gid@ == b.gid@
            &&& a.fid@ == b.fid@
            &&& optional_value_text(a.arg) == optional_value_text(b.arg)
        },
        (Glycosyl::Heartbeat(a), Glycosyl::Heartbeat(b)) => a.id@ == b.id@,
        _ => false,
    }
}

/// Documents of which no two can be taken for each other.
pub open spec fn documents_delimit(left: Set<Seq<char>>, right: Set<Seq<char>>) -> bool {
    forall|s: Seq<char>, t: Seq<char>|
        #![trigger left.contains(s), right.contains(t)]
        left.contains(s) && right.contains(t) ==> delimit(s, t)
}

/// An optional document tells its text and where it ends.
proof fn lemma_optional_value(a: Option<Value>, b: Option<Value>, x: Seq<char>, y: Seq<char>)
    requires
        optional_value_text(a) + x == optional_value_text(b) + y,
        delimit(optional_value_text(a), optional_value_text(b)),
        follows_document(x),
        follows_document(y),
    ensures
        optional_value_text(a) == optional_value_text(b),
        x == y,
{
    assert(optional_value_text(a) + x == optional_value_text(b) + y);
    lemma_cancel(optional_value_text(a), x, y);
}

/// Concatenation is associative.
pub broadcast proof fn lemma_regroup(a: Seq<char>, b: Seq<char>, c: Seq<char>)
    ensures
        #[trigger] ((a + b) + c) == a + (b + c),
{
    assert((a + b) + c =~= a + (b + c));
}

/// The text of a labelled string and what follows it.
spec fn string_part(label: Seq<char>, value: Option<String>, rest: Seq<char>) -> Seq<char> {
    label + (optional_string_text(value) + rest)
}

/// The text of a labelled document and what follows it.
spec fn value_part(label: Seq<char>, value: Option<Value>, rest: Seq<char>) -> Seq<char> {
    label + (optional_value_text(value) + rest)
}

proof fn lemma_string_part(
    label: Seq<char>,
    a: Option<String>,
    b: Option<String>,
    x: Seq<char>,
    y: Seq<char>,
)
    requires
        string_part(label, a, x) == string_part(label, b, y),
    ensures
        a.deep_view() == b.deep_view(),
        x == y,
{
    lemma_cancel(label, optional_string_text(a) + x, optional_string_text(b) + y);
    lemma_optional_string(a, b, x, y);
}

proof fn lemma_value_part(
    label: Seq<char>,
    a: Option<Value>,
    b: Option<Value>,
    x: Seq<char>,
    y: Seq<char>,
)
    requires
        value_part(label, a, x) == value_part(label, b, y),
        delimit(optional_value_text(a), optional_value_text(b)),
        follows_document(x),
        follows_document(y),
    ensures
        optional_value_text(a) == optional_value_text(b),
        x == y,
{
    lemma_cancel(label, optional_value_text(a) + x, optional_value_text(b) + y);
    lemma_optional_value(a, b, x, y);
}

/// The text of a method from its id on.
spec fn method_rest(method: MethodField, rest: Seq<char>) -> Seq<char> {
    json_quoted(method.id@) + string_part(
        ",\"FriendlyName\":"@,
        method.friendly_name,
        string_part(
            ",\"Description\":"@,
            method.description,
            value_part(
                ",\"QuerySchema\":"@,
                method.query_schema,
                value_part(",\"ReceiptSchema\":"@, method.receipt_schema, "}"@ + rest),
            ),
        ),
    )
}

/// The text of an event field from its id on.
spec fn event_rest(event: EventField, rest: Seq<char>) -> Seq<char> {
    json_quoted(event.id@) + string_part(
        ",\"FriendlyName\":"@,
        event.friendly_name,
        string_part(
            ",\"Description\":"@,
            event.description,
            value_part(",\"CallArgSchema\":"@, event.call_arg_schema, "}"@ + rest),
        ),
    )
}

proof fn lemma_method_regroup(method: MethodField, rest: Seq<char>)
    ensures
        field_text(Field::Method(method)) + rest == "{\"Type\":\"Method\",\"Id\":"@ + method_rest(
            method,
            rest,
        ),
{
    broadcast use lemma_regroup;

}

proof fn lemma_event_regroup(event: EventField, rest: Seq<char>)
    ensures
        field_text(Field::Event(event)) + rest == "{\"Type\":\"Event\",\"Id\":"@ + event_rest(
            event,
            rest,
        ),
{
    broadcast use lemma_regroup;

}

/// What follows a part that begins with a comma or a closing brace is what follows a document.
proof fn lemma_value_part_follows(label: Seq<char>, value: Option<Value>, rest: Seq<char>)
    requires
        label.len() > 0,
        label[0] == ',',
    ensures
        follows_document(value_part(label, value, rest)),
{
    assert(value_part(label, value, rest)[0] == label[0]);
}

proof fn lemma_brace_follows(rest: Seq<char>)
    ensures
        follows_document("}"@ + rest),
{
    reveal_strlit("}");
    assert(("}"@ + rest)[0] == '}');
}

proof fn lemma_methods(a: MethodField, b: MethodField, x: Seq<char>, y: Seq<char>)
    requires
        method_rest(a, x) == method_rest(b, y),
        delimit(optional_value_text(a.query_schema), optional_value_text(b.query_schema)),
        delimit(optional_value_text(a.receipt_schema), optional_value_text(b.receipt_schema)),
    ensures
        same_field(Field::Method(a), Field::Method(b)),
        x == y,
{
    let (p4, q4) = (
        value_part(",\"ReceiptSchema\":"@, a.receipt_schema, "}"@ + x),
        value_part(",\"ReceiptSchema\":"@, b.receipt_schema, "}"@ + y),
    );
    let (p3, q3) = (
        value_part(",\"QuerySchema\":"@, a.query_schema, p4),
        value_part(",\"QuerySchema\":"@, b.query_schema, q4),
    );
    let (p2, q2) = (
        string_part(",\"Description\":"@, a.description, p3),
        string_part(",\"Description\":"@, b.description, q3),
    );
    lemma_quoted(
        a.id@,
        b.id@,
        string_part(",\"FriendlyName\":"@, a.friendly_name, p2),
        string_part(",\"FriendlyName\":"@, b.friendly_name, q2),
    );
    lemma_string_part(",\"FriendlyName\":"@, a.friendly_name, b.friendly_name, p2, q2);
    lemma_string_part(",\"Description\":"@, a.description, b.description, p3, q3);
    assert(follows_document(p4) && follows_document(q4)) by {
        reveal_strlit(",\"ReceiptSchema\":");
        lemma_value_part_follows(",\"ReceiptSchema\":"@, a.receipt_schema, "}"@ + x);
        lemma_value_part_follows(",\"ReceiptSchema\":"@, b.receipt_schema, "}"@ + y);
    }
    lemma_value_part(",\"QuerySchema\":"@, a.query_schema, b.query_schema, p4, q4);
    lemma_brace_follows(x);
    lemma_brace_follows(y);
    lemma_value_part(
        ",\"ReceiptSchema\":"@,
        a.receipt_schema,
        b.receipt_schema,
        "}"@ + x,
        "}"@ + y,
    );
    lemma_cancel("}"@, x, y);
}

proof fn lemma_events(a: EventField, b: EventField, x: Seq<char>, y: Seq<char>)
    requires
        event_rest(a, x) == event_rest(b, y),
        delimit(optional_value_text(a.call_arg_schema), optional_value_text(b.call_arg_schema)),
    ensures
        same_field(Field::Event(a), Field::Event(b)),
        x == y,
{
    let (p3, q3) = (
        value_part(",\"CallArgSchema\":"@, a.call_arg_schema, "}"@ + x),
        value_part(",\"CallArgSchema\":"@, b.call_arg_schema, "}"@ + y),
    );
    let (p2, q2) = (
        string_part(",\"Description\":"@, a.description, p3),
        string_part(",\"Description\":"@, b.description, q3),
    );
    lemma_quoted(
        a.id@,
        b.id@,
        string_part(",\"FriendlyName\":"@, a.friendly_name, p2),
        string_part(",\"FriendlyName\":"@, b.friendly_name, q2),
    );
    lemma_string_part(",\"FriendlyName\":"@, a.friendly_name, b.friendly_name, p2, q2);
    lemma_string_part(",\"Description\":"@, a.description, b.description, p3, q3);
    lemma_brace_follows(x);
    lemma_brace_follows(y);
    lemma_value_part(
        ",\"CallArgSchema\":"@,
        a.call_arg_schema,
        b.call_arg_schema,
        "}"@ + x,
        "}"@ + y,
    );
    lemma_cancel("}"@, x, y);
}

/// Texts that begin with these two are different.
proof fn lemma_field_kinds(x: Seq<char>, y: Seq<char>)
    ensures
        "{\"Type\":\"Method\",\"Id\":"@ + x != "{\"Type\":\"Event\",\"Id\":"@ + y,
{
    reveal_strlit("{\"Type\":\"Method\",\"Id\":");
    reveal_strlit("{\"Type\":\"Event\",\"Id\":");
    assert(("{\"Type\":\"Method\",\"Id\":"@ + x)[9] == 'M');
    assert(("{\"Type\":\"Event\",\"Id\":"@ + y)[9] == 'E');
}

/// The text of a field tells its content and where it ends.
proof fn lemma_field(a: Field, b: Field, x: Seq<char>, y: Seq<char>)
    requires
        field_text(a) + x == field_text(b) + y,
        documents_delimit(field_documents(a), field_documents(b)),
    ensures
        same_field(a, b),
        x == y,
{
    match (a, b) {
        (Field::Method(m), Field::Method(n)) => {
            lemma_method_regroup(m, x);
            lemma_method_regroup(n, y);
            lemma_cancel("{\"Type\":\"Method\",\"Id\":"@, method_rest(m, x), method_rest(n, y));
            assert(field_documents(a).contains(optional_value_text(m.query_schema)));
            assert(field_documents(b).contains(optional_value_text(n.query_schema)));
            assert(field_documents(a).contains(optional_value_text(m.receipt_schema)));
            assert(field_documents(b).contains(optional_value_text(n.receipt_schema)));
            lemma_methods(m, n, x, y);
        },
        (Field::Event(m), Field::Event(n)) => {
            lemma_event_regroup(m, x);
            lemma_event_regroup(n, y);
            lemma_cancel("{\"Type\":\"Event\",\"Id\":"@, event_rest(m, x), event_rest(n, y));
            assert(field_documents(a).contains(optional_value_text(m.call_arg_schema)));
            assert(field_documents(b).contains(optional_value_text(n.call_arg_schema)));
            lemma_events(m, n, x, y);
        },
        (Field::Method(m), Field::Event(n)) => {
            lemma_method_regroup(m, x);
            lemma_event_regroup(n, y);
            lemma_field_kinds(method_rest(m, x), event_rest(n, y));
        },
        (Field::Event(m), Field::Method(n)) => {
            lemma_event_regroup(m, x);
            lemma_method_regroup(n, y);
            lemma_field_kinds(method_rest(n, y), event_rest(m, x));
        },
    }
}

/// The text of a list of fields begins with that of the first.
proof fn lemma_fields_first(fields: Seq<Field>)
    requires
        fields.len() > 1,
    ensures
        fields_text(fields) == field_text(fields[0]) + (","@ + fields_text(fields.drop_first())),
    decreases fields.len(),
{
    let shorter = fields.drop_last();
    let tail = fields.drop_first();
    assert(tail.last() == fields.last());
    if fields.len() == 2 {
        assert(fields_text(shorter) == field_text(fields[0]));
        assert(fields_text(tail) == field_text(fields[1]));
        assert(fields_text(fields) =~= field_text(fields[0]) + (","@ + fields_text(tail)));
    } else {
        lemma_fields_first(shorter);
        assert(shorter.drop_first() =~= tail.drop_last());
        assert(fields_text(tail) == fields_text(tail.drop_last()) + ","@ + field_text(tail.last()));
        assert(fields_text(fields) =~= field_text(fields[0]) + (","@ + fields_text(tail)));
    }
}

/// The text of a field begins with a brace.
proof fn lemma_field_first_char(field: Field)
    ensures
        field_text(field).len() > 0,
        field_text(field)[0] == '{',
{
    match field {
        Field::Method(method) => {
            lemma_method_regroup(method, seq![]);
            reveal_strlit("{\"Type\":\"Method\",\"Id\":");
            assert(field_text(field) + Seq::<char>::empty() =~= field_text(field));
        },
        Field::Event(event) => {
            lemma_event_regroup(event, seq![]);
            reveal_strlit("{\"Type\":\"Event\",\"Id\":");
            assert(field_text(field) + Seq::<char>::empty() =~= field_text(field));
        },
    }
}

/// The text of a list of fields, up to a closing bracket, tells the fields and where it ends.
proof fn lemma_fields(a: Seq<Field>, b: Seq<Field>, x: Seq<char>, y: Seq<char>)
    requires
        fields_text(a) + x == fields_text(b) + y,
        x.len() > 0 && x[0] == ']',
        y.len() > 0 && y[0] == ']',
        forall|i: int, j: int|
            0 <= i < a.len() && 0 <= j < b.len() ==> documents_delimit(
                field_documents(#[trigger] a[i]),
                field_documents(#[trigger] b[j]),
            ),
    ensures
        a.len() == b.len(),
        forall|i: int| 0 <= i < a.len() ==> same_field(#[trigger] a[i], b[i]),
        x == y,
    decreases a.len(),
{
    let (left, right) = (fields_text(a) + x, fields_text(b) + y);
    assert(left[0] == right[0]);
    if a.len() == 0 && b.len() == 0 {
        assert(left =~= x);
        assert(right =~= y);
    } else if a.len() == 0 {
        assert(left[0] == ']');
        lemma_fields_begin(b, y);
        assert(false);
    } else if b.len() == 0 {
        assert(right[0] == ']');
        lemma_fields_begin(a, x);
        assert(false);
    } else {
        let (p, q) = (after_first(a, x), after_first(b, y));
        lemma_fields_begin(a, x);
        lemma_fields_begin(b, y);
        lemma_field(a[0], b[0], p, q);
        reveal_strlit(",");
        assert(p[0] == q[0]);
        if a.len() > 1 && b.len() > 1 {
            let (s, t) = (a.drop_first(), b.drop_first());
            lemma_cancel(","@, fields_text(s) + x, fields_text(t) + y);
            assert forall|i: int, j: int|
                0 <= i < s.len() && 0 <= j < t.len() implies documents_delimit(
                field_documents(#[trigger] s[i]),
                field_documents(#[trigger] t[j]),
            ) by {
                assert(s[i] == a[i + 1] && t[j] == b[j + 1]);
            }
            lemma_fields(s, t, x, y);
            assert forall|i: int| 0 <= i < a.len() implies same_field(#[trigger] a[i], b[i]) by {
                if i > 0 {
                    assert(same_field(s[i - 1], t[i - 1]));
                }
            }
        }
    }
}

/// What follows the text of the first field.
spec fn after_first(fields: Seq<Field>, rest: Seq<char>) -> Seq<char> {
    if fields.len() > 1 {
        ","@ + (fields_text(fields.drop_first()) + rest)
    } else {
        rest
    }
}

proof fn lemma_fields_begin(fields: Seq<Field>, rest: Seq<char>)
    requires
        fields.len() > 0,
    ensures
        fields_text(fields) + rest == field_text(fields[0]) + after_first(fields, rest),
        (fields_text(fields) + rest)[0] == '{',
{
    lemma_field_first_char(fields[0]);
    if fields.len() > 1 {
        lemma_fields_first(fields);
        assert(fields_text(fields) + rest =~= field_text(fields[0]) + after_first(fields, rest));
    }
}

/// The text of a UUID tells which it is and where it ends.
proof fn lemma_uuid(a: u128, b: u128, x: Seq<char>, y: Seq<char>)
    requires
        uuid_text(a) + x == uuid_text(b) + y,
    ensures
        a == b,
        x == y,
{
    assert((uuid_text(a) + x).take(36) =~= uuid_text(a));
    assert((uuid_text(b) + y).take(36) =~= uuid_text(b));
    law_uuid_text_injective(a, b);
    lemma_cancel(uuid_text(a), x, y);
}

/// The text of a heartbeat behind its kind.
spec fn heartbeat_rest(heartbeat: Heartbeat) -> Seq<char> {
    json_quoted(heartbeat.id@) + "}"@
}

proof fn lemma_heartbeat_regroup(heartbeat: Heartbeat)
    ensures
        heartbeat.wire_text() == "{\"Type\":\"Heartbeat\",\"Id\":"@ + heartbeat_rest(heartbeat),
{
    broadcast use lemma_regroup;

}

/// The text of an event behind its kind.
spec fn event_message_rest(event: Event) -> Seq<char> {
    json_quoted(event.gid@) + (",\"Fid\":"@ + (json_quoted(event.fid@) + value_part(
        ",\"Arg\":"@,
        event.arg,
        "}"@,
    )))
}

proof fn lemma_event_message_regroup(event: Event)
    ensures
        event.wire_text() == "{\"Type\":\"Event\",\"Gid\":"@ + event_message_rest(event),
{
    broadcast use lemma_regroup;

}

/// The text of a query behind its payload.
spec fn query_end(query: Query) -> Seq<char> {
    ",\"Qid\":\""@ + (uuid_text(query.qid) + "\"}"@)
}

/// The text of a query behind its kind.
spec fn query_rest(query: Query) -> Seq<char> {
    json_quoted(query.gid@) + string_part(
        ",\"SourceGid\":"@,
        query.source_gid,
        ",\"Fid\":"@ + (json_quoted(query.fid@) + value_part(
            ",\"Payload\":"@,
            query.payload,
            query_end(query),
        )),
    )
}

proof fn lemma_query_regroup(query: Query)
    ensures
        query.wire_text() == "{\"Type\":\"Query\",\"Gid\":"@ + query_rest(query),
{
    broadcast use lemma_regroup;

}

/// The text of a reply behind its payload.
spec fn reply_end(reply: Reply) -> Seq<char> {
    ",\"Qid\":\""@ + (uuid_text(reply.qid) + string_part(
        "\",\"TargetGid\":"@,
        reply.target_gid,
        string_part(",\"Error\":"@, reply.error, "}"@),
    ))
}

/// The text of a reply behind its kind.
spec fn reply_rest(reply: Reply) -> Seq<char> {
    optional_value_text(reply.payload) + reply_end(reply)
}

proof fn lemma_reply_regroup(reply: Reply)
    ensures
        reply.wire_text() == "{\"Type\":\"Reply\",\"Payload\":"@ + reply_rest(reply),
{
    broadcast use lemma_regroup;

}

/// The text of a beacon behind its fields.
spec fn beacon_end(beacon: Beacon) -> Seq<char> {
    "],\"Timestamp\":"@ + (json_quoted(rfc3339_text(beacon.timestamp)) + "}"@)
}

/// The text of a beacon behind its version.
spec fn beacon_fields(beacon: Beacon) -> Seq<char> {
    ",\"Fields\":["@ + (fields_text(beacon.fields@) + beacon_end(beacon))
}

/// The text of a beacon behind its kind.
spec fn beacon_rest(beacon: Beacon) -> Seq<char> {
    json_quoted(beacon.id@) + string_part(
        ",\"Vendor\":"@,
        beacon.vendor,
        ",\"ProtocolVersion\":"@ + (optional_number_text(beacon.protocol_version) + beacon_fields(
            beacon,
        )),
    )
}

proof fn lemma_beacon_regroup(beacon: Beacon)
    ensures
        beacon.wire_text() == "{\"Type\":\"Beacon\",\"Id\":"@ + beacon_rest(beacon),
{
    broadcast use lemma_regroup;

}

proof fn lemma_heartbeats(a: Heartbeat, b: Heartbeat)
    requires
        a.wire_text() == b.wire_text(),
    ensures
        a.id@ == b.id@,
{
    lemma_heartbeat_regroup(a);
    lemma_heartbeat_regroup(b);
    lemma_cancel("{\"Type\":\"Heartbeat\",\"Id\":"@, heartbeat_rest(a), heartbeat_rest(b));
    lemma_quoted(a.id@, b.id@, "}"@, "}"@);
}

proof fn lemma_event_messages(a: Event, b: Event)
    requires
        a.wire_text() == b.wire_text(),
        delimit(optional_value_text(a.arg), optional_value_text(b.arg)),
    ensures
        same_content(Glycosyl::Event(a), Glycosyl::Event(b)),
{
    let (p2, q2) = (value_part(",\"Arg\":"@, a.arg, "}"@), value_part(",\"Arg\":"@, b.arg, "}"@));
    let (p1, q1) = (json_quoted(a.fid@) + p2, json_quoted(b.fid@) + q2);
    lemma_event_message_regroup(a);
    lemma_event_message_regroup(b);
    lemma_cancel("{\"Type\":\"Event\",\"Gid\":"@, event_message_rest(a), event_message_rest(b));
    lemma_quoted(a.gid@, b.gid@, ",\"Fid\":"@ + p1, ",\"Fid\":"@ + q1);
    lemma_cancel(",\"Fid\":"@, p1, q1);
    lemma_quoted(a.fid@, b.fid@, p2, q2);
    reveal_strlit("}");
    lemma_value_part(",\"Arg\":"@, a.arg, b.arg, "}"@, "}"@);
}

proof fn lemma_queries(a: Query, b: Query)
    requires
        a.wire_text() == b.wire_text(),
        delimit(optional_value_text(a.payload), optional_value_text(b.payload)),
    ensures
        same_content(Glycosyl::Query(a), Glycosyl::Query(b)),
{
    let (p3, q3) = (
        value_part(",\"Payload\":"@, a.payload, query_end(a)),
        value_part(",\"Payload\":"@, b.payload, query_end(b)),
    );
    let (p2, q2) = (json_quoted(a.fid@) + p3, json_quoted(b.fid@) + q3);
    let (p1, q1) = (",\"Fid\":"@ + p2, ",\"Fid\":"@ + q2);
    lemma_query_regroup(a);
    lemma_query_regroup(b);
    lemma_cancel("{\"Type\":\"Query\",\"Gid\":"@, query_rest(a), query_rest(b));
    lemma_quoted(
        a.gid@,
        b.gid@,
        string_part(",\"SourceGid\":"@, a.source_gid, p1),
        string_part(",\"SourceGid\":"@, b.source_gid, q1),
    );
    lemma_string_part(",\"SourceGid\":"@, a.source_gid, b.source_gid, p1, q1);
    lemma_cancel(",\"Fid\":"@, p2, q2);
    lemma_quoted(a.fid@, b.fid@, p3, q3);
    assert(follows_document(query_end(a)) && follows_document(query_end(b))) by {
        reveal_strlit(",\"Qid\":\"");
        assert(query_end(a)[0] == ',' && query_end(b)[0] == ',');
    }
    lemma_value_part(",\"Payload\":"@, a.payload, b.payload, query_end(a), query_end(b));
    lemma_cancel(",\"Qid\":\""@, uuid_text(a.qid) + "\"}"@, uuid_text(b.qid) + "\"}"@);
    lemma_uuid(a.qid, b.qid, "\"}"@, "\"}"@);
}

proof fn lemma_replies(a: Reply, b: Reply)
    requires
        a.wire_text() == b.wire_text(),
        delimit(optional_value_text(a.payload), optional_value_text(b.payload)),
    ensures
        same_content(Glycosyl::Reply(a), Glycosyl::Reply(b)),
{
    let (p2, q2) = (
        string_part(",\"Error\":"@, a.error, "}"@),
        string_part(",\"Error\":"@, b.error, "}"@),
    );
    let (p1, q1) = (
        string_part("\",\"TargetGid\":"@, a.target_gid, p2),
        string_part("\",\"TargetGid\":"@, b.target_gid, q2),
    );
    lemma_reply_regroup(a);
    lemma_reply_regroup(b);
    lemma_cancel("{\"Type\":\"Reply\",\"Payload\":"@, reply_rest(a), reply_rest(b));
    assert(follows_document(reply_end(a)) && follows_document(reply_end(b))) by {
        reveal_strlit(",\"Qid\":\"");
        assert(reply_end(a)[0] == ',' && reply_end(b)[0] == ',');
    }
    lemma_optional_value(a.payload, b.payload, reply_end(a), reply_end(b));
    lemma_cancel(",\"Qid\":\""@, uuid_text(a.qid) + p1, uuid_text(b.qid) + q1);
    lemma_uuid(a.qid, b.qid, p1, q1);
    lemma_string_part("\",\"TargetGid\":"@, a.target_gid, b.target_gid, p2, q2);
    lemma_string_part(",\"Error\":"@, a.error, b.error, "}"@, "}"@);
}

proof fn lemma_beacons(a: Beacon, b: Beacon)
    requires
        a.wire_text() == b.wire_text(),
        forall|i: int, j: int|
            0 <= i < a.fields@.len() && 0 <= j < b.fields@.len() ==> documents_delimit(
                field_documents(#[trigger] a.fields@[i]),
                field_documents(#[trigger] b.fields@[j]),
            ),
    ensures
        same_content(Glycosyl::Beacon(a), Glycosyl::Beacon(b)),
{
    let (p2, q2) = (
        optional_number_text(a.protocol_version) + beacon_fields(a),
        optional_number_text(b.protocol_version) + beacon_fields(b),
    );
    let (p1, q1) = (",\"ProtocolVersion\":"@ + p2, ",\"ProtocolVersion\":"@ + q2);
    lemma_beacon_regroup(a);
    lemma_beacon_regroup(b);
    lemma_cancel("{\"Type\":\"Beacon\",\"Id\":"@, beacon_rest(a), beacon_rest(b));
    lemma_quoted(
        a.id@,
        b.id@,
        string_part(",\"Vendor\":"@, a.vendor, p1),
        string_part(",\"Vendor\":"@, b.vendor, q1),
    );
    lemma_string_part(",\"Vendor\":"@, a.vendor, b.vendor, p1, q1);
    lemma_cancel(",\"ProtocolVersion\":"@, p2, q2);
    assert(beacon_fields(a)[0] == ',' && beacon_fields(b)[0] == ',') by {
        reveal_strlit(",\"Fields\":[");
    }
    assert(beacon_fields(a).len() > 0 && beacon_fields(b).len() > 0) by {
        reveal_strlit(",\"Fields\":[");
    }
    lemma_optional_number(
        a.protocol_version,
        b.protocol_version,
        beacon_fields(a),
        beacon_fields(b),
    );
    lemma_cancel(
        ",\"Fields\":["@,
        fields_text(a.fields@) + beacon_end(a),
        fields_text(b.fields@) + beacon_end(b),
    );
    assert(beacon_end(a).len() > 0 && beacon_end(b).len() > 0 && beacon_end(a)[0] == ']'
        && beacon_end(b)[0] == ']') by {
        reveal_strlit("],\"Timestamp\":");
    }
    lemma_fields(a.fields@, b.fields@, beacon_end(a), beacon_end(b));
    lemma_cancel(
        "],\"Timestamp\":"@,
        json_quoted(rfc3339_text(a.timestamp)) + "}"@,
        json_quoted(rfc3339_text(b.timestamp)) + "}"@,
    );
    lemma_quoted(rfc3339_text(a.timestamp), rfc3339_text(b.timestamp), "}"@, "}"@);
}

/// The first letter of the kind of a message.
spec fn kind_letter(message: Glycosyl) -> char {
    match message {
        Glycosyl::Beacon(_) => 'B',
        Glycosyl::Query(_) => 'Q',
        Glycosyl::Reply(_) => 'R',
        Glycosyl::Event(_) => 'E',
        Glycosyl::Heartbeat(_) => 'H',
    }
}

/// The text of a message has the first letter of its kind at a fixed place.
proof fn lemma_kind(message: Glycosyl)
    ensures
        message.wire_text().len() > 9,
        message.wire_text()[9] == kind_letter(message),
{
    match message {
        Glycosyl::Beacon(beacon) => {
            lemma_beacon_regroup(beacon);
            reveal_strlit("{\"Type\":\"Beacon\",\"Id\":");
        },
        Glycosyl::Query(query) => {
            lemma_query_regroup(query);
            reveal_strlit("{\"Type\":\"Query\",\"Gid\":");
        },
        Glycosyl::Reply(reply) => {
            lemma_reply_regroup(reply);
            reveal_strlit("{\"Type\":\"Reply\",\"Payload\":");
        },
        Glycosyl::Event(event) => {
            lemma_event_message_regroup(event);
            reveal_strlit("{\"Type\":\"Event\",\"Gid\":");
        },
        Glycosyl::Heartbeat(heartbeat) => {
            lemma_heartbeat_regroup(heartbeat);
            reveal_strlit("{\"Type\":\"Heartbeat\",\"Id\":");
        },
    }
}

/// No two messages of different content are written alike: two messages with the same bytes are of
/// the same kind and say the same, documents and times being known by their texts. The texts of
/// documents must not be beginnings of each other, which no two JSON texts are where a comma or a
/// closing brace follows them.
pub proof fn law_bytes_tell_messages_apart(left: Glycosyl, right: Glycosyl)
    requires
        documents_delimit(message_documents(left), message_documents(right)),
        encode_utf8(left.wire_text()) == encode_utf8(right.wire_text()),
    ensures
        same_content(left, right),
{
    lemma_utf8_injective(left.wire_text(), right.wire_text());
    lemma_kind(left);
    lemma_kind(right);
    match (left, right) {
        (Glycosyl::Beacon(a), Glycosyl::Beacon(b)) => {
            assert forall|i: int, j: int|
                0 <= i < a.fields@.len() && 0 <= j < b.fields@.len() implies documents_delimit(
                field_documents(#[trigger] a.fields@[i]),
                field_documents(#[trigger] b.fields@[j]),
            ) by {
                assert forall|s: Seq<char>, t: Seq<char>|
                    #![trigger field_documents(a.fields@[i]).contains(s),
                        field_documents(b.fields@[j]).contains(t)]
                    field_documents(a.fields@[i]).contains(s) && field_documents(
                        b.fields@[j],
                    ).contains(t) implies delimit(s, t) by {
                    assert(message_documents(left).contains(s));
                    assert(message_documents(right).contains(t));
                }
            }
            lemma_beacons(a, b);
        },
        (Glycosyl::Query(a), Glycosyl::Query(b)) => {
            assert(message_documents(left).contains(optional_value_text(a.payload)));
            assert(message_documents(right).contains(optional_value_text(b.payload)));
            lemma_queries(a, b);
        },
        (Glycosyl::Reply(a), Glycosyl::Reply(b)) => {
            assert(message_documents(left).contains(optional_value_text(a.payload)));
            assert(message_documents(right).contains(optional_value_text(b.payload)));
            lemma_replies(a, b);
        },
        (Glycosyl::Event(a), Glycosyl::Event(b)) => {
            assert(message_documents(left).contains(optional_value_text(a.arg)));
            assert(message_documents(right).contains(optional_value_text(b.arg)));
            lemma_event_messages(a, b);
        },
        (Glycosyl::Heartbeat(a), Glycosyl::Heartbeat(b)) => {
            lemma_heartbeats(a, b);
        },
        _ => {},
    }
}

} // verus!
