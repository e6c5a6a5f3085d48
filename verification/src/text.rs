//! Strings: equality, lexicographic orders, UTF-16 and decimal notation.
use vstd::prelude::*;
use vstd::string::*;
use vstd::utf8::*;

verus! {

/// `left` precedes `right` in the lexicographic order: at the first position where they part,
/// `left` ends or holds the smaller number.
pub open spec fn lex_less(left: Seq<int>, right: Seq<int>) -> bool
    decreases left.len(),
{
    if right.len() == 0 {
        false
    } else if left.len() == 0 {
        true
    } else if left[0] != right[0] {
        left[0] < right[0]
    } else {
        lex_less(left.drop_first(), right.drop_first())
    }
}

/// The numbers held by a sequence of bytes.
pub open spec fn byte_numbers(bytes: Seq<u8>) -> Seq<int> {
    bytes.map_values(|byte: u8| byte as int)
}

/// The numbers held by a sequence of UTF-16 code units.
pub open spec fn unit_numbers(units: Seq<u16>) -> Seq<int> {
    units.map_values(|unit: u16| unit as int)
}

/// `left` precedes `right` in the order of their UTF-8 bytes, which is the order of `str`.
pub open spec fn text_less(left: Seq<char>, right: Seq<char>) -> bool {
    lex_less(byte_numbers(encode_utf8(left)), byte_numbers(encode_utf8(right)))
}

/// Lexicographic order is irreflexive.
pub proof fn lemma_lex_irreflexive(s: Seq<int>)
    ensures
        !lex_less(s, s),
    decreases s.len(),
{
    if s.len() > 0 {
        lemma_lex_irreflexive(s.drop_first());
    }
}

/// Lexicographic order is transitive.
pub proof fn lemma_lex_transitive(a: Seq<int>, b: Seq<int>, c: Seq<int>)
    requires
        lex_less(a, b),
        lex_less(b, c),
    ensures
        lex_less(a, c),
    decreases a.len(),
{
    if a.len() > 0 && b.len() > 0 && c.len() > 0 && a[0] == b[0] && b[0] == c[0] {
        lemma_lex_transitive(a.drop_first(), b.drop_first(), c.drop_first());
    }
}

/// Of two different sequences one precedes the other.
pub proof fn lemma_lex_total(a: Seq<int>, b: Seq<int>)
    ensures
        a == b || lex_less(a, b) || lex_less(b, a),
    decreases a.len(),
{
    if a.len() == 0 || b.len() == 0 {
        if a.len() == 0 && b.len() == 0 {
            assert(a =~= b);
        }
    } else if a[0] == b[0] {
        lemma_lex_total(a.drop_first(), b.drop_first());
        if a.drop_first() == b.drop_first() {
            assert(a =~= seq![a[0]] + a.drop_first());
            assert(b =~= seq![b[0]] + b.drop_first());
        }
    }
}

/// Where two sequences agree before position `i` and part there, that position decides.
pub proof fn lemma_lex_first_difference(a: Seq<int>, b: Seq<int>, i: int)
    requires
        0 <= i <= a.len(),
        i <= b.len(),
        forall|j: int| 0 <= j < i ==> a[j] == b[j],
        i == a.len() || i == b.len() || a[i] != b[i],
    ensures
        lex_less(a, b) == (i < b.len() && (i == a.len() || a[i] < b[i])),
    decreases i,
{
    if i > 0 {
        let (x, y) = (a.drop_first(), b.drop_first());
        assert forall|j: int| 0 <= j < i - 1 implies x[j] == y[j] by {
            assert(a[j + 1] == b[j + 1]);
        }
        lemma_lex_first_difference(x, y, i - 1);
    }
}

/// Two texts with the same UTF-8 bytes are the same text.
pub proof fn lemma_utf8_injective(a: Seq<char>, b: Seq<char>)
    requires
        encode_utf8(a) == encode_utf8(b),
    ensures
        a == b,
{
    encode_utf8_decode_utf8(a);
    encode_utf8_decode_utf8(b);
}

/// The byte order of texts is a strict total order.
pub proof fn lemma_text_order(a: Seq<char>, b: Seq<char>)
    ensures
        !text_less(a, a),
        text_less(a, b) ==> !text_less(b, a),
        a == b || text_less(a, b) || text_less(b, a),
{
    let (x, y) = (byte_numbers(encode_utf8(a)), byte_numbers(encode_utf8(b)));
    lemma_lex_irreflexive(x);
    lemma_lex_total(x, y);
    if lex_less(x, y) && lex_less(y, x) {
        lemma_lex_transitive(x, y, x);
    }
    if x == y {
        assert forall|i: int| 0 <= i < encode_utf8(a).len() implies encode_utf8(a)[i]
            == encode_utf8(b)[i] by {
            assert(x[i] == y[i]);
        }
        assert(encode_utf8(a) =~= encode_utf8(b));
        lemma_utf8_injective(a, b);
    }
}

/// The byte order of texts is transitive.
pub proof fn lemma_text_transitive(a: Seq<char>, b: Seq<char>, c: Seq<char>)
    requires
        text_less(a, b),
        text_less(b, c),
    ensures
        text_less(a, c),
{
    lemma_lex_transitive(
        byte_numbers(encode_utf8(a)),
        byte_numbers(encode_utf8(b)),
        byte_numbers(encode_utf8(c)),
    );
}

/// The number of bytes at the front on which two byte strings agree.
fn common_prefix(left: &[u8], right: &[u8]) -> (n: usize)
    ensures
        n <= left@.len(),
        n <= right@.len(),
        forall|j: int| 0 <= j < n ==> left@[j] == right@[j],
        n == left@.len() || n == right@.len() || left@[n as int] != right@[n as int],
{
    let mut i: usize = 0;
    while i < left.len() && i < right.len() && left[i] == right[i]
        invariant
            i <= left@.len(),
            i <= right@.len(),
            forall|j: int| 0 <= j < i ==> left@[j] == right@[j],
        decreases left@.len() - i,
    {
        i = i + 1;
    }
    i
}

/// Whether two strings are the same text.
pub fn same_text(left: &str, right: &str) -> (same: bool)
    ensures
        same == (left@ == right@),
{
    let l = left.as_bytes();
    let r = right.as_bytes();
    let n = common_prefix(l, r);
    let same = n == l.len() && n == r.len();
    proof {
        if same {
            assert(l@ =~= r@);
            lemma_utf8_injective(left@, right@);
        }
    }
    same
}

/// Whether `left` precedes `right` in the order of `str`.
pub fn text_before(left: &str, right: &str) -> (before: bool)
    ensures
        before == text_less(left@, right@),
{
    let l = left.as_bytes();
    let r = right.as_bytes();
    let n = common_prefix(l, r);
    proof {
        lemma_lex_first_difference(byte_numbers(l@), byte_numbers(r@), n as int);
    }
    n < r.len() && (n == l.len() || l[n] < r[n])
}

/// Whether two optional strings are both absent or the same text.
pub fn same_optional_text(left: &Option<String>, right: &Option<String>) -> (same: bool)
    ensures
        same == (left.deep_view() == right.deep_view()),
{
    match (left, right) {
        (Some(l), Some(r)) => same_text(l.as_str(), r.as_str()),
        (None, None) => true,
        _ => false,
    }
}

/// The UTF-16 code units of one character.
pub open spec fn utf16_of_char(c: char) -> Seq<u16> {
    let code = c as u32;
    if code < 0x1_0000 {
        seq![code as u16]
    } else {
        seq![
            (0xD800 + (code - 0x1_0000) / 0x400) as u16,
            (0xDC00 + (code - 0x1_0000) % 0x400) as u16,
        ]
    }
}

/// The UTF-16 code units of a text.
pub open spec fn utf16(text: Seq<char>) -> Seq<u16>
    decreases text.len(),
{
    if text.len() == 0 {
        seq![]
    } else {
        utf16(text.drop_last()) + utf16_of_char(text.last())
    }
}

/// The UTF-16 code units of a string.
pub fn utf16_units(text: &str) -> (units: Vec<u16>)
    ensures
        units@ == utf16(text@),
{
    let mut units: Vec<u16> = Vec::new();
    for c in iter: text.chars()
        invariant
            iter.seq() == text@,
            units@ == utf16(text@.take(iter.index() as int)),
    {
        let code: u32 = c as u32;
        proof {
            let k = iter.index() as int;
            assert(text@.take(k + 1).drop_last() =~= text@.take(k));
        }
        if code < 0x1_0000 {
            units.push(code as u16);
        } else {
            let offset: u32 = code - 0x1_0000;
            units.push((0xD800 + offset / 0x400) as u16);
            units.push((0xDC00 + offset % 0x400) as u16);
        }
        proof {
            assert(units@ =~= utf16(text@.take(iter.index() as int + 1)));
        }
    }
    proof {
        assert(text@.take(text@.len() as int) =~= text@);
    }
    units
}

/// `left` precedes `right` in the order of their UTF-16 code units.
pub open spec fn utf16_less(left: Seq<char>, right: Seq<char>) -> bool {
    lex_less(unit_numbers(utf16(left)), unit_numbers(utf16(right)))
}

/// Whether one sequence of code units precedes another in the lexicographic order.
pub fn units_before(left: &Vec<u16>, right: &Vec<u16>) -> (before: bool)
    ensures
        before == lex_less(unit_numbers(left@), unit_numbers(right@)),
{
    let mut i: usize = 0;
    while i < left.len() && i < right.len() && left[i] == right[i]
        invariant
            i <= left@.len(),
            i <= right@.len(),
            forall|j: int| 0 <= j < i ==> left@[j] == right@[j],
        decreases left@.len() - i,
    {
        i = i + 1;
    }
    proof {
        lemma_lex_first_difference(unit_numbers(left@), unit_numbers(right@), i as int);
    }
    i < right.len() && (i == left.len() || left[i] < right[i])
}

/// Two texts with the same UTF-16 code units are the same text.
pub proof fn lemma_utf16_injective(a: Seq<char>, b: Seq<char>)
    requires
        utf16(a) == utf16(b),
    ensures
        a == b,
    decreases a.len(),
{
    if a.len() == 0 || b.len() == 0 {
        assert(utf16(a).len() == utf16(b).len());
        assert(a =~= b);
    } else {
        let (u, v) = (utf16(a), utf16(b));
        let (x, y) = (a.last(), b.last());
        let (p, q) = (utf16_of_char(x), utf16_of_char(y));
        char_is_scalar(x);
        char_is_scalar(y);
        assert(u.last() == p.last());
        assert(v.last() == q.last());
        assert(p.len() == q.len());
        if p.len() == 2 {
            assert(u[u.len() - 2] == p[0]);
            assert(v[v.len() - 2] == q[0]);
        }
        assert(x as u32 == y as u32);
        char_u32_cast(x, x as u32);
        char_u32_cast(y, y as u32);
        assert(x == y);
        assert(utf16(a.drop_last()) =~= u.take(u.len() - p.len()));
        assert(utf16(b.drop_last()) =~= v.take(v.len() - q.len()));
        lemma_utf16_injective(a.drop_last(), b.drop_last());
        assert(a =~= a.drop_last().push(x));
        assert(b =~= b.drop_last().push(y));
    }
}

/// The UTF-16 order of texts is transitive.
pub proof fn law_utf16_order_transitive(a: Seq<char>, b: Seq<char>, c: Seq<char>)
    requires
        utf16_less(a, b),
        utf16_less(b, c),
    ensures
        utf16_less(a, c),
{
    lemma_lex_transitive(unit_numbers(utf16(a)), unit_numbers(utf16(b)), unit_numbers(utf16(c)));
}

/// The UTF-16 order of texts is irreflexive, and of two different texts exactly one precedes the
/// other.
pub proof fn law_utf16_order_total(a: Seq<char>, b: Seq<char>)
    ensures
        !utf16_less(a, a),
        utf16_less(a, b) ==> !utf16_less(b, a),
        a == b || utf16_less(a, b) || utf16_less(b, a),
{
    let (x, y) = (unit_numbers(utf16(a)), unit_numbers(utf16(b)));
    lemma_lex_irreflexive(x);
    lemma_lex_total(x, y);
    if lex_less(x, y) && lex_less(y, x) {
        lemma_lex_transitive(x, y, x);
    }
    if x == y {
        assert forall|i: int| 0 <= i < utf16(a).len() implies utf16(a)[i] == utf16(b)[i] by {
            assert(x[i] == y[i]);
        }
        assert(utf16(a) =~= utf16(b));
        lemma_utf16_injective(a, b);
    }
}

/// The character of a decimal digit.
pub open spec fn digit(n: nat) -> char {
    (48 + n) as char
}

/// A natural number in decimal notation.
pub open spec fn decimal(n: nat) -> Seq<char>
    decreases n,
{
    if n < 10 {
        seq![digit(n)]
    } else {
        decimal(n / 10).push(digit(n % 10))
    }
}

/// An integer in decimal notation.
pub open spec fn signed_decimal(n: int) -> Seq<char> {
    if n < 0 {
        seq!['-'] + decimal((-n) as nat)
    } else {
        decimal(n as nat)
    }
}

fn digit_text(n: u64) -> (text: &'static str)
    requires
        n < 10,
    ensures
        text@ == seq![digit(n as nat)],
{
    proof {
        reveal_strlit("0");
        reveal_strlit("1");
        reveal_strlit("2");
        reveal_strlit("3");
        reveal_strlit("4");
        reveal_strlit("5");
        reveal_strlit("6");
        reveal_strlit("7");
        reveal_strlit("8");
        reveal_strlit("9");
    }
    let text = match n {
        0 => "0",
        1 => "1",
        2 => "2",
        3 => "3",
        4 => "4",
        5 => "5",
        6 => "6",
        7 => "7",
        8 => "8",
        _ => "9",
    };
    assert(text@ =~= seq![digit(n as nat)]);
    text
}

/// Appends a number in decimal notation.
pub fn push_decimal(out: &mut String, n: u64)
    ensures
        final(out)@ == old(out)@ + decimal(n as nat),
    decreases n,
{
    if n >= 10 {
        push_decimal(out, n / 10);
    }
    out.append(digit_text(n % 10));
    proof {
        assert(out@ =~= old(out)@ + decimal(n as nat));
    }
}

/// Appends an integer in decimal notation.
pub fn push_signed_decimal(out: &mut String, n: i64)
    requires
        n > i64::MIN,
    ensures
        final(out)@ == old(out)@ + signed_decimal(n as int),
{
    if n < 0 {
        proof {
            reveal_strlit("-");
        }
        out.append("-");
        push_decimal(out, (-n) as u64);
        proof {
            assert("-"@ =~= seq!['-']);
            assert(out@ =~= old(out)@ + signed_decimal(n as int));
        }
    } else {
        push_decimal(out, n as u64);
    }
}

} // verus!
