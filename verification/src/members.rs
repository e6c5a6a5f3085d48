//! How the text of a JSON object or array is read: which members or elements it has, told by walking
//! over its characters. Nothing here knows how messages are written.
use crate::outside::{hex_digit, json_escaped, json_inside, json_quoted};
use vstd::prelude::*;

verus! {

/// How far a walk over a JSON text has come: how many brackets and braces are open, whether it is
/// inside a string, and whether the next character there is escaped.
pub struct Walk {
    pub depth: int,
    pub inside: bool,
    pub escaped: bool,
}

/// A walk that is between values, with nothing open but what was open before.
pub open spec fn at_depth(depth: int) -> Walk {
    Walk { depth, inside: false, escaped: false }
}

/// A walk inside a string.
pub open spec fn in_string(depth: int) -> Walk {
    Walk { depth, inside: true, escaped: false }
}

/// A walk one character on.
pub open spec fn one_on(walk: Walk, c: char) -> Walk {
    if walk.inside {
        if walk.escaped {
            Walk { escaped: false, ..walk }
        } else if c == '\\' {
            Walk { escaped: true, ..walk }
        } else if c == '"' {
            Walk { inside: false, ..walk }
        } else {
            walk
        }
    } else if c == '"' {
        Walk { inside: true, ..walk }
    } else if c == '{' || c == '[' {
        Walk { depth: walk.depth + 1, ..walk }
    } else if c == '}' || c == ']' {
        Walk { depth: walk.depth - 1, ..walk }
    } else {
        walk
    }
}

/// A walk over a whole text.
pub open spec fn walked(walk: Walk, text: Seq<char>) -> Walk
    decreases text.len(),
{
    if text.len() == 0 {
        walk
    } else {
        one_on(walked(walk, text.drop_last()), text.last())
    }
}

/// The parts of a text between the commas that stand outside of every string, bracket and brace.
pub open spec fn parts(text: Seq<char>) -> Seq<Seq<char>>
    decreases text.len(),
{
    if text.len() == 0 {
        seq![Seq::<char>::empty()]
    } else {
        let before = parts(text.drop_last());
        if text.last() == ',' && walked(at_depth(0), text.drop_last()) == at_depth(0) {
            before.push(Seq::<char>::empty())
        } else {
            before.update(before.len() - 1, before.last().push(text.last()))
        }
    }
}

/// The text between the outer braces or brackets of a text.
pub open spec fn unwrapped(text: Seq<char>) -> Seq<char> {
    text.subrange(1, text.len() - 1)
}

/// The elements of an array.
pub open spec fn elements(text: Seq<char>) -> Seq<Seq<char>> {
    if text.len() <= 2 {
        seq![]
    } else {
        parts(unwrapped(text))
    }
}

/// How a member with a name begins.
pub open spec fn label(name: Seq<char>) -> Seq<char> {
    seq!['"'] + name + seq!['"', ':']
}

/// Whether a text begins with another.
pub open spec fn begins(text: Seq<char>, beginning: Seq<char>) -> bool {
    text.len() >= beginning.len() && text.take(beginning.len() as int) == beginning
}

/// The text of the value of the member with a name in an object, if there is one.
pub open spec fn member(object: Seq<char>, name: Seq<char>) -> Option<Seq<char>> {
    let members = parts(unwrapped(object));
    if exists|k: int| 0 <= k < members.len() && begins(#[trigger] members[k], label(name)) {
        let k = choose|k: int| 0 <= k < members.len() && begins(#[trigger] members[k], label(name));
        Some(members[k].skip(label(name).len() as int))
    } else {
        None
    }
}

/// How many members an object has.
pub open spec fn member_count(object: Seq<char>) -> nat {
    parts(unwrapped(object)).len()
}

/// A text over which a walk ends as it began, without closing anything that it did not open.
pub open spec fn level(text: Seq<char>) -> bool {
    &&& walked(at_depth(0), text) == at_depth(0)
    &&& forall|i: int|
        0 <= i <= text.len() ==> (#[trigger] walked(at_depth(0), text.take(i))).depth >= 0
}

/// A text that is read as one value: all that it opens it closes, and it has no comma outside of that.
/// The texts of JSON documents are so.
pub open spec fn is_value(text: Seq<char>) -> bool {
    &&& level(text)
    &&& forall|i: int|
        #![trigger text[i]]
        0 <= i < text.len() && text[i] == ',' ==> walked(at_depth(0), text.take(i)) != at_depth(0)
}

/// A walk over two texts is a walk over the second after one over the first.
pub proof fn lemma_walked_on(walk: Walk, a: Seq<char>, b: Seq<char>)
    ensures
        walked(walk, a + b) == walked(walked(walk, a), b),
    decreases b.len(),
{
    if b.len() == 0 {
        assert(a + b =~= a);
    } else {
        lemma_walked_on(walk, a, b.drop_last());
        assert((a + b).drop_last() =~= a + b.drop_last());
        assert((a + b).last() == b.last());
    }
}

/// A walk does not depend on how deep it began.
pub proof fn lemma_deeper(depth: int, text: Seq<char>)
    ensures
        walked(at_depth(depth), text) == (Walk {
            depth: depth + walked(at_depth(0), text).depth,
            ..walked(at_depth(0), text)
        }),
    decreases text.len(),
{
    if text.len() > 0 {
        lemma_deeper(depth, text.drop_last());
    }
}

/// A walk over one character.
pub proof fn lemma_walked_one(walk: Walk, c: char)
    ensures
        walked(walk, seq![c]) == one_on(walk, c),
{
    let text = seq![c];
    assert(text.drop_last().len() == 0);
    assert(walked(walk, text.drop_last()) == walk);
    assert(text.last() == c);
}

/// There is always a last part.
proof fn lemma_parts_exist(text: Seq<char>)
    ensures
        parts(text).len() > 0,
    decreases text.len(),
{
    if text.len() > 0 {
        lemma_parts_exist(text.drop_last());
    }
}

/// A value behind a text that is level belongs to its last part.
proof fn lemma_parts_extended(text: Seq<char>, value: Seq<char>)
    requires
        walked(at_depth(0), text) == at_depth(0),
        forall|i: int|
            #![trigger value[i]]
            0 <= i < value.len() && value[i] == ',' ==> walked(at_depth(0), value.take(i))
                != at_depth(0),
    ensures
        parts(text).len() > 0,
        parts(text + value) == parts(text).update(
            parts(text).len() - 1,
            parts(text).last() + value,
        ),
    decreases value.len(),
{
    lemma_parts_exist(text);
    let last = parts(text).len() - 1;
    if value.len() == 0 {
        assert(text + value =~= text);
        assert(parts(text).last() + value =~= parts(text).last());
        assert(parts(text).update(last, parts(text).last() + value) =~= parts(text));
    } else {
        let shorter = value.drop_last();
        assert forall|i: int|
            #![trigger shorter[i]]
            0 <= i < shorter.len() && shorter[i] == ',' implies walked(
            at_depth(0),
            shorter.take(i),
        ) != at_depth(0) by {
            assert(shorter[i] == value[i]);
            assert(shorter.take(i) =~= value.take(i));
        }
        lemma_parts_extended(text, shorter);
        assert((text + value).drop_last() =~= text + shorter);
        assert((text + value).last() == value.last());
        lemma_walked_on(at_depth(0), text, shorter);
        assert(value[value.len() - 1] == value.last());
        assert(value.take(value.len() - 1) =~= shorter);
        let before = parts(text + shorter);
        assert(before.last() == parts(text).last() + shorter);
        assert((parts(text).last() + shorter).push(value.last()) =~= parts(text).last() + value);
        assert(parts(text + value) =~= parts(text).update(last, parts(text).last() + value));
    }
}

/// Texts with commas between them.
pub open spec fn with_commas(items: Seq<Seq<char>>) -> Seq<char>
    decreases items.len(),
{
    if items.len() == 0 {
        seq![]
    } else if items.len() == 1 {
        items[0]
    } else {
        with_commas(items.drop_last()) + seq![','] + items.last()
    }
}

/// One text more stands behind a comma.
pub proof fn lemma_one_more_item(items: Seq<Seq<char>>, item: Seq<char>)
    requires
        items.len() > 0,
    ensures
        with_commas(items.push(item)) == with_commas(items) + seq![','] + item,
{
    assert(items.push(item).drop_last() =~= items);
}

/// Two texts that are level are level one behind the other.
proof fn lemma_level_joined(a: Seq<char>, b: Seq<char>)
    requires
        level(a),
        level(b),
    ensures
        level(a + b),
{
    lemma_walked_on(at_depth(0), a, b);
    assert forall|i: int| 0 <= i <= (a + b).len() implies (#[trigger] walked(
        at_depth(0),
        (a + b).take(i),
    )).depth >= 0 by {
        if i <= a.len() {
            assert((a + b).take(i) =~= a.take(i));
        } else {
            assert((a + b).take(i) =~= a + b.take(i - a.len()));
            lemma_walked_on(at_depth(0), a, b.take(i - a.len()));
            assert(walked(at_depth(0), b.take(i - a.len())).depth >= 0);
        }
    }
}

/// A comma is level.
proof fn lemma_comma_level()
    ensures
        level(seq![',']),
{
    let comma = seq![','];
    lemma_walked_one(at_depth(0), ',');
    assert forall|i: int| 0 <= i <= comma.len() implies (#[trigger] walked(
        at_depth(0),
        comma.take(i),
    )).depth >= 0 by {
        if i == 0 {
            assert(comma.take(i).len() == 0);
        } else {
            assert(comma.take(i) =~= comma);
        }
    }
}

/// Values with commas between them are read one by one.
pub proof fn lemma_values_read(items: Seq<Seq<char>>)
    requires
        items.len() > 0,
        forall|i: int| 0 <= i < items.len() ==> is_value(#[trigger] items[i]),
    ensures
        level(with_commas(items)),
        parts(with_commas(items)) == items,
    decreases items.len(),
{
    if items.len() == 1 {
        let value = items[0];
        let empty = Seq::<char>::empty();
        assert(is_value(value));
        lemma_parts_extended(empty, value);
        assert(empty + value =~= value);
        assert(parts(empty) == seq![empty]);
        assert(parts(value) =~= items);
    } else {
        let shorter = items.drop_last();
        let text = with_commas(shorter);
        let value = items.last();
        assert(is_value(items[items.len() - 1]));
        assert forall|i: int| 0 <= i < shorter.len() implies is_value(#[trigger] shorter[i]) by {
            assert(shorter[i] == items[i]);
        }
        lemma_values_read(shorter);
        let comma = text + seq![','];
        assert(comma.drop_last() =~= text);
        assert(comma.last() == ',');
        assert(parts(comma) == shorter.push(Seq::<char>::empty()));
        lemma_comma_level();
        lemma_level_joined(text, seq![',']);
        lemma_parts_extended(comma, value);
        lemma_level_joined(comma, value);
        assert(Seq::<char>::empty() + value =~= value);
        assert(parts(comma + value) =~= items);
    }
}

/// What is level is one value between braces or brackets.
pub proof fn lemma_wrapped_value(inner: Seq<char>, open: char, close: char)
    requires
        level(inner),
        open == '{' || open == '[',
        close == '}' || close == ']',
    ensures
        is_value(seq![open] + inner + seq![close]),
        unwrapped(seq![open] + inner + seq![close]) == inner,
{
    let text = seq![open] + inner + seq![close];
    let n = inner.len() as int;
    assert(unwrapped(text) =~= inner);
    lemma_walked_one(at_depth(0), open);
    lemma_walked_on(at_depth(0), seq![open], inner);
    lemma_deeper(1, inner);
    lemma_walked_on(at_depth(0), seq![open] + inner, seq![close]);
    lemma_walked_one(at_depth(1), close);
    assert forall|i: int| 1 <= i <= n + 1 implies (#[trigger] walked(
        at_depth(0),
        text.take(i),
    )).depth >= 1 by {
        assert(text.take(i) =~= seq![open] + inner.take(i - 1));
        lemma_walked_on(at_depth(0), seq![open], inner.take(i - 1));
        lemma_deeper(1, inner.take(i - 1));
        assert(walked(at_depth(0), inner.take(i - 1)).depth >= 0);
    }
    assert forall|i: int| 0 <= i <= text.len() implies (#[trigger] walked(
        at_depth(0),
        text.take(i),
    )).depth >= 0 by {
        if i == 0 {
            assert(text.take(0).len() == 0);
        } else if i == text.len() {
            assert(text.take(i) =~= text);
        }
    }
    assert forall|i: int|
        #![trigger text[i]]
        0 <= i < text.len() && text[i] == ',' implies walked(at_depth(0), text.take(i)) != at_depth(
        0,
    ) by {
        assert(text[0] == open);
        assert(i >= 1 && i <= n + 1);
        assert(walked(at_depth(0), text.take(i)).depth >= 1);
    }
}

/// Inside a string, characters that neither end it nor escape the next lead nowhere.
proof fn lemma_within_string(depth: int, text: Seq<char>)
    requires
        forall|i: int| 0 <= i < text.len() ==> #[trigger] text[i] != '"' && text[i] != '\\',
    ensures
        walked(in_string(depth), text) == in_string(depth),
    decreases text.len(),
{
    if text.len() > 0 {
        let shorter = text.drop_last();
        assert forall|i: int| 0 <= i < shorter.len() implies #[trigger] shorter[i] != '"'
            && shorter[i] != '\\' by {
            assert(shorter[i] == text[i]);
        }
        lemma_within_string(depth, shorter);
        assert(text[text.len() - 1] == text.last());
    }
}

/// A text after which a walk inside a string is as before, and during which it never leaves it.
spec fn stays(text: Seq<char>) -> bool {
    &&& walked(in_string(0), text) == in_string(0)
    &&& forall|i: int|
        0 <= i <= text.len() ==> (#[trigger] walked(in_string(0), text.take(i))).inside && walked(
            in_string(0),
            text.take(i),
        ).depth == 0
}

proof fn lemma_stays_joined(a: Seq<char>, b: Seq<char>)
    requires
        stays(a),
        stays(b),
    ensures
        stays(a + b),
{
    lemma_walked_on(in_string(0), a, b);
    assert forall|i: int| 0 <= i <= (a + b).len() implies (#[trigger] walked(
        in_string(0),
        (a + b).take(i),
    )).inside && walked(in_string(0), (a + b).take(i)).depth == 0 by {
        if i <= a.len() {
            assert((a + b).take(i) =~= a.take(i));
        } else {
            assert((a + b).take(i) =~= a + b.take(i - a.len()));
            lemma_walked_on(in_string(0), a, b.take(i - a.len()));
            assert(walked(in_string(0), b.take(i - a.len())).inside);
        }
    }
}

proof fn lemma_plain_stays(text: Seq<char>)
    requires
        forall|i: int| 0 <= i < text.len() ==> #[trigger] text[i] != '"' && text[i] != '\\',
    ensures
        stays(text),
{
    lemma_within_string(0, text);
    assert forall|i: int| 0 <= i <= text.len() implies (#[trigger] walked(
        in_string(0),
        text.take(i),
    )).inside && walked(in_string(0), text.take(i)).depth == 0 by {
        let begun = text.take(i);
        assert forall|j: int| 0 <= j < begun.len() implies #[trigger] begun[j] != '"' && begun[j]
            != '\\' by {
            assert(begun[j] == text[j]);
        }
        lemma_within_string(0, begun);
    }
}

proof fn lemma_pair_stays(c: char)
    ensures
        stays(seq!['\\', c]),
{
    let pair = seq!['\\', c];
    let (a, b) = (seq!['\\'], seq![c]);
    assert(pair =~= a + b);
    lemma_walked_one(in_string(0), '\\');
    lemma_walked_on(in_string(0), a, b);
    lemma_walked_one(walked(in_string(0), a), c);
    assert forall|i: int| 0 <= i <= pair.len() implies (#[trigger] walked(
        in_string(0),
        pair.take(i),
    )).inside && walked(in_string(0), pair.take(i)).depth == 0 by {
        if i == 0 {
            assert(pair.take(i).len() == 0);
        } else if i == 1 {
            assert(pair.take(i) =~= a);
        } else {
            assert(pair.take(i) =~= pair);
        }
    }
}

proof fn lemma_escaped_stays(c: char)
    ensures
        stays(json_escaped(c)),
{
    let code = c as u32;
    let escaped = json_escaped(c);
    if escaped.len() == 1 {
        assert(escaped =~= seq![c]);
        lemma_plain_stays(escaped);
    } else if escaped.len() == 2 {
        assert(escaped =~= seq!['\\', escaped[1]]);
        lemma_pair_stays(escaped[1]);
    } else {
        let digits = seq!['0', '0', hex_digit(code as int / 16), hex_digit(code as int % 16)];
        assert(escaped =~= seq!['\\', 'u'] + digits);
        lemma_pair_stays('u');
        lemma_plain_stays(digits);
        lemma_stays_joined(seq!['\\', 'u'], digits);
    }
}

proof fn lemma_inside_stays(text: Seq<char>)
    ensures
        stays(json_inside(text)),
    decreases text.len(),
{
    if text.len() == 0 {
        lemma_plain_stays(json_inside(text));
    } else {
        lemma_escaped_stays(text[0]);
        lemma_inside_stays(text.drop_first());
        lemma_stays_joined(json_escaped(text[0]), json_inside(text.drop_first()));
    }
}

/// What stays inside a string is one value between quotes.
proof fn lemma_string_value(inner: Seq<char>)
    requires
        stays(inner),
    ensures
        is_value(seq!['"'] + inner + seq!['"']),
{
    let text = seq!['"'] + inner + seq!['"'];
    let n = inner.len() as int;
    lemma_walked_one(at_depth(0), '"');
    lemma_walked_on(at_depth(0), seq!['"'], inner);
    lemma_walked_on(at_depth(0), seq!['"'] + inner, seq!['"']);
    lemma_walked_one(in_string(0), '"');
    assert forall|i: int| 1 <= i <= n + 1 implies (#[trigger] walked(
        at_depth(0),
        text.take(i),
    )).inside && walked(at_depth(0), text.take(i)).depth == 0 by {
        assert(text.take(i) =~= seq!['"'] + inner.take(i - 1));
        lemma_walked_on(at_depth(0), seq!['"'], inner.take(i - 1));
        assert(walked(in_string(0), inner.take(i - 1)).inside);
    }
    assert forall|i: int| 0 <= i <= text.len() implies (#[trigger] walked(
        at_depth(0),
        text.take(i),
    )).depth >= 0 by {
        if i == 0 {
            assert(text.take(0).len() == 0);
        } else if i == text.len() {
            assert(text.take(i) =~= text);
        }
    }
    assert forall|i: int|
        #![trigger text[i]]
        0 <= i < text.len() && text[i] == ',' implies walked(at_depth(0), text.take(i)) != at_depth(
        0,
    ) by {
        assert(text[0] == '"');
        assert(walked(at_depth(0), text.take(i)).inside);
    }
}

/// A JSON string is one value, whatever text it holds.
pub proof fn lemma_quoted_value(text: Seq<char>)
    ensures
        is_value(json_quoted(text)),
{
    lemma_inside_stays(text);
    lemma_string_value(json_inside(text));
}

/// Characters that need no escape are one value between quotes.
pub proof fn lemma_plain_string_value(inner: Seq<char>)
    requires
        forall|i: int| 0 <= i < inner.len() ==> #[trigger] inner[i] != '"' && inner[i] != '\\',
    ensures
        is_value(seq!['"'] + inner + seq!['"']),
{
    lemma_plain_stays(inner);
    lemma_string_value(inner);
}

/// Characters without a meaning of their own are one value.
pub proof fn lemma_plain_value(text: Seq<char>)
    requires
        forall|i: int|
            0 <= i < text.len() ==> #[trigger] text[i] != '"' && text[i] != ',' && text[i] != '{'
                && text[i] != '}' && text[i] != '[' && text[i] != ']',
    ensures
        is_value(text),
{
    lemma_plain_walk(text);
    assert forall|i: int| 0 <= i <= text.len() implies (#[trigger] walked(
        at_depth(0),
        text.take(i),
    )).depth >= 0 by {
        let begun = text.take(i);
        assert forall|j: int| 0 <= j < begun.len() implies #[trigger] begun[j] != '"' && begun[j]
            != '{' && begun[j] != '}' && begun[j] != '[' && begun[j] != ']' by {
            assert(begun[j] == text[j]);
        }
        lemma_plain_walk(begun);
    }
}

proof fn lemma_plain_walk(text: Seq<char>)
    requires
        forall|i: int|
            0 <= i < text.len() ==> #[trigger] text[i] != '"' && text[i] != '{' && text[i] != '}'
                && text[i] != '[' && text[i] != ']',
    ensures
        walked(at_depth(0), text) == at_depth(0),
    decreases text.len(),
{
    if text.len() > 0 {
        let shorter = text.drop_last();
        assert forall|i: int| 0 <= i < shorter.len() implies #[trigger] shorter[i] != '"'
            && shorter[i] != '{' && shorter[i] != '}' && shorter[i] != '[' && shorter[i] != ']' by {
            assert(shorter[i] == text[i]);
        }
        lemma_plain_walk(shorter);
        assert(text[text.len() - 1] == text.last());
    }
}

/// A name that needs no escape.
pub open spec fn plain_name(name: Seq<char>) -> bool {
    forall|i: int| 0 <= i < name.len() ==> #[trigger] name[i] != '"' && name[i] != '\\'
}

/// Two values one behind the other, of which the first ends with its last character, are read
/// together.
proof fn lemma_values_joined(a: Seq<char>, b: Seq<char>)
    requires
        is_value(a),
        is_value(b),
    ensures
        is_value(a + b),
{
    lemma_level_joined(a, b);
    let text = a + b;
    assert forall|i: int|
        #![trigger text[i]]
        0 <= i < text.len() && text[i] == ',' implies walked(at_depth(0), text.take(i)) != at_depth(
        0,
    ) by {
        if i < a.len() {
            assert(text.take(i) =~= a.take(i));
            assert(text[i] == a[i]);
        } else {
            assert(text.take(i) =~= a + b.take(i - a.len()));
            lemma_walked_on(at_depth(0), a, b.take(i - a.len()));
            assert(text[i] == b[i - a.len()]);
        }
    }
}

/// A member is read as one.
proof fn lemma_member_value(name: Seq<char>, value: Seq<char>)
    requires
        plain_name(name),
        is_value(value),
    ensures
        is_value(label(name) + value),
{
    lemma_plain_string_value(name);
    let colon = seq![':'];
    lemma_plain_value(colon);
    let quoted = seq!['"'] + name + seq!['"'];
    lemma_values_joined(quoted, colon);
    assert(label(name) =~= quoted + colon);
    lemma_values_joined(label(name), value);
}

/// A member begins with its own name only.
proof fn lemma_label_tells_name(name: Seq<char>, value: Seq<char>, other: Seq<char>)
    requires
        plain_name(name),
        plain_name(other),
        begins(label(name) + value, label(other)),
    ensures
        name == other,
{
    let text = label(name) + value;
    let (n, m) = (name.len() as int, other.len() as int);
    let begun = text.take(label(other).len() as int);
    assert(begun == label(other));
    assert forall|i: int| 0 <= i < m + 3 implies text[i] == label(other)[i] by {
        assert(begun[i] == text[i]);
    }
    assert(text[n + 1] == '"') by {
        assert(label(name)[n + 1] == '"');
    }
    assert(label(other)[m + 1] == '"');
    if n < m {
        assert(label(other)[n + 1] == other[n]);
    }
    if m < n {
        assert(text[m + 1] == name[m]);
    }
    assert forall|i: int| 0 <= i < n implies name[i] == other[i] by {
        assert(text[i + 1] == name[i]);
        assert(label(other)[i + 1] == other[i]);
    }
    assert(name =~= other);
}

/// The texts of members with given names and values.
pub open spec fn labelled(names: Seq<Seq<char>>, values: Seq<Seq<char>>) -> Seq<Seq<char>> {
    Seq::new(names.len(), |i: int| label(names[i]) + values[i])
}

/// The text of an object with members of given names and values.
pub open spec fn object_text(names: Seq<Seq<char>>, values: Seq<Seq<char>>) -> Seq<char> {
    seq!['{'] + with_commas(labelled(names, values)) + seq!['}']
}

/// An object is read by its members: under each name stands its value, and there are no others.
pub proof fn lemma_object_read(names: Seq<Seq<char>>, values: Seq<Seq<char>>)
    requires
        names.len() > 0,
        names.len() == values.len(),
        names.no_duplicates(),
        forall|i: int| 0 <= i < names.len() ==> plain_name(#[trigger] names[i]),
        forall|i: int| 0 <= i < values.len() ==> is_value(#[trigger] values[i]),
    ensures
        is_value(object_text(names, values)),
        member_count(object_text(names, values)) == names.len(),
        forall|k: int|
            0 <= k < names.len() ==> member(object_text(names, values), #[trigger] names[k]) == Some(
                values[k],
            ),
{
    let items = labelled(names, values);
    let text = object_text(names, values);
    assert forall|i: int| 0 <= i < items.len() implies is_value(#[trigger] items[i]) by {
        assert(plain_name(names[i]) && is_value(values[i]));
        lemma_member_value(names[i], values[i]);
    }
    lemma_values_read(items);
    lemma_wrapped_value(with_commas(items), '{', '}');
    assert(parts(unwrapped(text)) == items);
    assert forall|k: int| 0 <= k < names.len() implies member(text, #[trigger] names[k]) == Some(
        values[k],
    ) by {
        let name = names[k];
        let size = label(name).len() as int;
        assert(items[k] == label(name) + values[k]);
        assert(items[k].take(size) =~= label(name));
        assert(begins(items[k], label(name)));
        let found = choose|j: int| 0 <= j < items.len() && begins(#[trigger] items[j], label(name));
        assert(0 <= found < items.len() && begins(items[found], label(name)));
        assert(plain_name(names[found]) && plain_name(names[k]));
        lemma_label_tells_name(names[found], values[found], name);
        assert(found == k);
        assert(items[k].skip(size) =~= values[k]);
    }
}

/// An array of values is read by its elements.
pub proof fn lemma_array_read(items: Seq<Seq<char>>)
    requires
        forall|i: int| 0 <= i < items.len() ==> is_value(#[trigger] items[i]),
        forall|i: int| 0 <= i < items.len() ==> (#[trigger] items[i]).len() > 0,
    ensures
        is_value(seq!['['] + with_commas(items) + seq![']']),
        elements(seq!['['] + with_commas(items) + seq![']']) == items,
{
    let inner = with_commas(items);
    let text = seq!['['] + inner + seq![']'];
    if items.len() == 0 {
        lemma_plain_value(inner);
        lemma_wrapped_value(inner, '[', ']');
        assert(elements(text) =~= items);
    } else {
        lemma_values_read(items);
        lemma_wrapped_value(inner, '[', ']');
        assert(items[0].len() > 0);
        lemma_not_empty(items);
    }
}

proof fn lemma_not_empty(items: Seq<Seq<char>>)
    requires
        items.len() > 0,
        items[0].len() > 0,
    ensures
        with_commas(items).len() > 0,
    decreases items.len(),
{
}

} // verus!
