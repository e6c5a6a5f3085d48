//! How texts are ordered: node ids by their UTF-16 code units, which decides who dials, and keys by
//! their UTF-8 bytes, which decides in what order things are listed.
use crate::error::GlycoError;
use crate::identity::{dotnet_ordinal_cmp, should_dial, validate_node_id};
use crate::text::{
    byte_numbers, law_utf16_order_total, lemma_lex_first_difference, same_optional_text, same_text,
    text_before, unit_numbers, utf16, utf16_less, utf16_of_char,
};
use std::cmp::Ordering;
use vstd::prelude::*;
use vstd::string::*;
use vstd::utf8::*;

verus! {

/// Whether a character comes before another one in the order of UTF-16 code units: by their numbers,
/// but those above U+FFFF, which take two units from the range of the surrogates, come before those
/// from U+E000 to U+FFFF.
pub open spec fn unit_order(x: char, y: char) -> bool {
    let (m, n) = (x as u32, y as u32);
    if m >= 0x1_0000 && n < 0x1_0000 {
        n >= 0xE000
    } else if m < 0x1_0000 && n >= 0x1_0000 {
        m < 0xE000
    } else {
        m < n
    }
}

proof fn lemma_utf16_joined(a: Seq<char>, b: Seq<char>)
    ensures
        utf16(a + b) == utf16(a) + utf16(b),
    decreases b.len(),
{
    if b.len() == 0 {
        assert(a + b =~= a);
        assert(utf16(a) + utf16(b) =~= utf16(a));
    } else {
        lemma_utf16_joined(a, b.drop_last());
        assert((a + b).drop_last() =~= a + b.drop_last());
        assert((a + b).last() == b.last());
        assert(utf16(a + b) =~= utf16(a) + utf16(b));
    }
}

proof fn lemma_utf16_single(c: char)
    ensures
        utf16(seq![c]) == utf16_of_char(c),
{
    let text = seq![c];
    assert(text.drop_last().len() == 0);
    assert(utf16(text.drop_last()) =~= Seq::<u16>::empty());
    assert(text.last() == c);
    assert(utf16(text) =~= utf16_of_char(c));
}

/// The first character by which two texts differ decides their order.
proof fn lemma_first_character_decides(
    start: Seq<char>,
    x: char,
    y: char,
    s: Seq<char>,
    t: Seq<char>,
)
    requires
        x != y,
    ensures
        utf16_less(start + seq![x] + s, start + seq![y] + t) == unit_order(x, y),
{
    let (a, b) = (start + seq![x] + s, start + seq![y] + t);
    lemma_utf16_joined(start + seq![x], s);
    lemma_utf16_joined(start + seq![y], t);
    lemma_utf16_joined(start, seq![x]);
    lemma_utf16_joined(start, seq![y]);
    lemma_utf16_single(x);
    lemma_utf16_single(y);
    let (p, q) = (utf16_of_char(x), utf16_of_char(y));
    let (u, v) = (utf16(a), utf16(b));
    let n = utf16(start).len() as int;
    char_is_scalar(x);
    char_is_scalar(y);
    char_u32_cast(x, x as u32);
    char_u32_cast(y, y as u32);
    assert(x as u32 != y as u32);
    assert forall|j: int| 0 <= j < n implies u[j] == v[j] by {
        assert(u[j] == utf16(start)[j]);
        assert(v[j] == utf16(start)[j]);
    }
    assert(u[n] == p[0] && v[n] == q[0]);
    if p[0] != q[0] {
        lemma_lex_first_difference(unit_numbers(u), unit_numbers(v), n);
    } else {
        assert(p.len() == 2 && q.len() == 2);
        assert(u[n + 1] == p[1] && v[n + 1] == q[1]);
        assert(p[1] != q[1]);
        lemma_lex_first_difference(unit_numbers(u), unit_numbers(v), n + 1);
    }
}

/// A text comes before every longer one that begins with it.
proof fn lemma_beginning_first(start: Seq<char>, rest: Seq<char>)
    requires
        rest.len() > 0,
    ensures
        utf16_less(start, start + rest),
{
    lemma_utf16_joined(start, rest);
    let (u, v) = (utf16(start), utf16(start + rest));
    lemma_utf16_joined(seq![rest[0]], rest.drop_first());
    assert(seq![rest[0]] + rest.drop_first() =~= rest);
    lemma_utf16_single(rest[0]);
    assert(utf16(rest).len() > 0);
    lemma_lex_first_difference(unit_numbers(u), unit_numbers(v), u.len() as int);
}

/// Two ids are ordered by the first character in which they differ, in the order of UTF-16 code units.
pub proof fn law_ordinal_order(
    left: &str,
    right: &str,
    order: Ordering,
    start: Seq<char>,
    x: char,
    y: char,
    s: Seq<char>,
    t: Seq<char>,
)
    requires
        call_ensures(dotnet_ordinal_cmp, (left, right), order),
        left@ == start + seq![x] + s,
        right@ == start + seq![y] + t,
        x != y,
    ensures
        order is Less <==> unit_order(x, y),
        order is Greater <==> unit_order(y, x),
{
    lemma_first_character_decides(start, x, y, s, t);
    lemma_first_character_decides(start, y, x, t, s);
    law_utf16_order_total(left@, right@);
    law_utf16_order_total(right@, left@);
}

/// An id comes before every longer one that begins with it, and is level only with itself.
pub proof fn law_ordinal_order_of_beginnings(
    left: &str,
    right: &str,
    order: Ordering,
    rest: Seq<char>,
)
    requires
        call_ensures(dotnet_ordinal_cmp, (left, right), order),
    ensures
        order is Equal <==> left@ == right@,
        right@ == left@ + rest && rest.len() > 0 ==> order is Less,
        left@ == right@ + rest && rest.len() > 0 ==> order is Greater,
{
    law_utf16_order_total(left@, right@);
    law_utf16_order_total(right@, left@);
    if right@ == left@ + rest && rest.len() > 0 {
        lemma_beginning_first(left@, rest);
    }
    if left@ == right@ + rest && rest.len() > 0 {
        lemma_beginning_first(right@, rest);
    }
}

/// The smaller id dials the larger one: a node dials another exactly if its own id comes first and the
/// id of the other is allowed.
pub proof fn law_smaller_dials_larger(
    node_id: &str,
    peer: &str,
    dial: bool,
    order: Ordering,
    allowed: Result<(), GlycoError>,
)
    requires
        call_ensures(should_dial, (node_id, peer), dial),
        call_ensures(dotnet_ordinal_cmp, (node_id, peer), order),
        call_ensures(validate_node_id, (peer,), allowed),
    ensures
        dial <==> order is Less && allowed is Ok,
{
    law_utf16_order_total(node_id@, peer@);
    law_utf16_order_total(peer@, node_id@);
}

/// Keys are ordered by the first byte in which their UTF-8 encodings differ; one that ends there comes
/// first.
pub proof fn law_key_order(left: &str, right: &str, before: bool, i: int)
    requires
        call_ensures(text_before, (left, right), before),
        ({
            let (l, r) = (encode_utf8(left@), encode_utf8(right@));
            &&& 0 <= i <= l.len()
            &&& i <= r.len()
            &&& forall|j: int| 0 <= j < i ==> l[j] == r[j]
            &&& i == l.len() || i == r.len() || l[i] != r[i]
        }),
    ensures
        ({
            let (l, r) = (encode_utf8(left@), encode_utf8(right@));
            before <==> i < r.len() && (i == l.len() || l[i] < r[i])
        }),
        before <==> crate::text::text_less(left@, right@),
{
    let (l, r) = (encode_utf8(left@), encode_utf8(right@));
    lemma_lex_first_difference(byte_numbers(l), byte_numbers(r), i);
}

/// Texts are the same exactly if they have the same characters; an absent one is the same as another
/// absent one only.
pub proof fn law_same_texts(
    left: &str,
    right: &str,
    same: bool,
    one: &Option<String>,
    other: &Option<String>,
    optional: bool,
)
    requires
        call_ensures(same_text, (left, right), same),
        call_ensures(same_optional_text, (one, other), optional),
    ensures
        same <==> left@ == right@,
        optional <==> match (*one, *other) {
            (Some(a), Some(b)) => a@ == b@,
            (None, None) => true,
            _ => false,
        },
{
}

} // verus!
