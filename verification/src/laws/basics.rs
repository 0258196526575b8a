//! What texts, numerals, keys and documents are, call by call.
use vstd::prelude::*;
use vstd::utf8::*;

use crate::codec;
use crate::json;
use crate::json::Json;
use crate::laws;
use crate::marker;
use crate::text;

verus! {

/// Whether all characters of `s` are white space.
pub open spec fn blank(s: Seq<char>) -> bool {
    forall|i: int| 0 <= i < s.len() ==> text::white_space(#[trigger] s[i])
}

/// Whether `s` has no white space at either end.
pub open spec fn tight(s: Seq<char>) -> bool {
    s.len() > 0 ==> !text::white_space(s.first()) && !text::white_space(s.last())
}

/// What is blank is stripped altogether.
proof fn lemma_blank_trimmed(s: Seq<char>)
    requires
        blank(s),
    ensures
        text::trimmed(s) == Seq::<char>::empty(),
    decreases s.len(),
{
    if s.len() > 0 {
        assert(text::white_space(s[0]));
        assert forall|i: int| 0 <= i < s.drop_first().len() implies text::white_space(
            #[trigger] s.drop_first()[i],
        ) by {
            assert(s.drop_first()[i] == s[i + 1]);
        }
        lemma_blank_trimmed(s.drop_first());
    }
}

/// Only the white space around a text is stripped.
pub(crate) proof fn lemma_trimmed_core(before: Seq<char>, core: Seq<char>, after: Seq<char>)
    requires
        blank(before),
        blank(after),
        tight(core),
    ensures
        text::trimmed(before + core + after) == core,
    decreases before.len() + after.len(),
{
    let s = before + core + after;
    if core.len() == 0 {
        assert forall|i: int| 0 <= i < s.len() implies text::white_space(#[trigger] s[i]) by {
            if i < before.len() {
                assert(s[i] == before[i]);
            } else {
                assert(s[i] == after[i - before.len()]);
            }
        }
        lemma_blank_trimmed(s);
        assert(core =~= Seq::<char>::empty());
    } else if before.len() > 0 {
        assert(s.first() == before[0]);
        let rest = before.drop_first();
        assert forall|i: int| 0 <= i < rest.len() implies text::white_space(#[trigger] rest[i]) by {
            assert(rest[i] == before[i + 1]);
        }
        assert(s.drop_first() =~= rest + core + after);
        lemma_trimmed_core(rest, core, after);
    } else if after.len() > 0 {
        assert(s.first() == core.first());
        assert(s.last() == after[after.len() - 1]);
        let rest = after.drop_last();
        assert forall|i: int| 0 <= i < rest.len() implies text::white_space(#[trigger] rest[i]) by {
            assert(rest[i] == after[i]);
        }
        assert(s.drop_last() =~= before + core + rest);
        lemma_trimmed_core(before, core, rest);
    } else {
        assert(s =~= core);
    }
}

/// A text is what is left of it between two stretches of white space.
pub(crate) proof fn lemma_trimmed_parts(s: Seq<char>) -> (parts: (Seq<char>, Seq<char>))
    ensures
        blank(parts.0),
        blank(parts.1),
        tight(text::trimmed(s)),
        s == parts.0 + text::trimmed(s) + parts.1,
    decreases s.len(),
{
    if s.len() > 0 && text::white_space(s.first()) {
        let (before, after) = lemma_trimmed_parts(s.drop_first());
        let all = seq![s.first()] + before;
        assert forall|i: int| 0 <= i < all.len() implies text::white_space(#[trigger] all[i]) by {
            if i > 0 {
                assert(all[i] == before[i - 1]);
            }
        }
        assert(s =~= seq![s.first()] + s.drop_first());
        assert(s =~= all + text::trimmed(s) + after);
        (all, after)
    } else if s.len() > 0 && text::white_space(s.last()) {
        let (before, after) = lemma_trimmed_parts(s.drop_last());
        let all = after.push(s.last());
        assert forall|i: int| 0 <= i < all.len() implies text::white_space(#[trigger] all[i]) by {
            if i < after.len() {
                assert(all[i] == after[i]);
            }
        }
        assert(s =~= s.drop_last().push(s.last()));
        assert(s =~= before + text::trimmed(s) + all);
        (before, all)
    } else {
        assert(s =~= Seq::<char>::empty() + s + Seq::<char>::empty());
        (Seq::empty(), Seq::empty())
    }
}

/// `trim` takes the white space off both ends of a text and nothing else.
pub proof fn law_trim_takes_the_ends_alone(
    s: &str,
    before: Seq<char>,
    core: Seq<char>,
    after: Seq<char>,
    r: &str,
)
    requires
        call_ensures(text::trim, (s,), r),
        s@ == before + core + after,
        blank(before),
        blank(after),
        tight(core),
    ensures
        r@ == core,
{
    lemma_trimmed_core(before, core, after);
}

/// `same_text` tells whether two texts have the same characters.
pub proof fn law_same_text_compares_characters(a: &str, b: &str, r: bool)
    requires
        call_ensures(text::same_text, (a, b), r),
    ensures
        r ==> a@.len() == b@.len(),
        forall|i: int| r && 0 <= i < a@.len() ==> #[trigger] a@[i] == b@[i],
        !r && a@.len() == b@.len() ==> exists|i: int|
            0 <= i < a@.len() && #[trigger] a@[i] != b@[i],
{
    if !r && a@.len() == b@.len() {
        if forall|i: int| 0 <= i < a@.len() ==> #[trigger] a@[i] == b@[i] {
            assert(a@ =~= b@);
        }
    }
}

/// A text holds another iff it is that text with something before and after.
pub proof fn law_contained_text_stands_in_between(
    hay: &str,
    needle: &str,
    before: Seq<char>,
    after: Seq<char>,
    r: bool,
)
    requires
        call_ensures(text::contains_text, (hay, needle), r),
    ensures
        hay@ == before + needle@ + after ==> r,
        r ==> exists|x: Seq<char>, y: Seq<char>| hay@ == #[trigger] (x + needle@ + y),
{
    if hay@ == before + needle@ + after {
        let at = before.len() as int;
        assert(hay@.subrange(at, at + needle@.len()) =~= needle@);
        assert(text::occurs_at(hay@, needle@, at));
    }
    if r {
        let at = choose|at: int| text::occurs_at(hay@, needle@, at);
        let x = hay@.take(at);
        let y = hay@.skip(at + needle@.len());
        assert forall|k: int| at <= k < at + needle@.len() implies hay@[k] == #[trigger] (x
            + needle@)[k] by {
            assert(hay@.subrange(at, at + needle@.len())[k - at] == hay@[k]);
        }
        assert(hay@ =~= (x + needle@) + y);
    }
}

/// The numeral of a number below ten is its digit; behind the numeral of another
/// number each further digit is that of the remainder by ten.
pub proof fn law_decimal_is_written_digit_by_digit(
    n: u64,
    digit: u64,
    whole: u64,
    r: String,
    q: String,
)
    requires
        call_ensures(text::decimal_text, (n,), r),
        call_ensures(text::decimal_text, (whole,), q),
        digit < 10,
        whole == 10 * n + digit,
    ensures
        n == 0 ==> q@ == seq!["0123456789"@[digit as int]],
        n > 0 ==> q@ == r@.push("0123456789"@[digit as int]),
{
    reveal_strlit("0123456789");
    assert(text::digit(digit as nat) == "0123456789"@[digit as int]);
    if n > 0 {
        assert(whole as nat / 10 == n as nat);
        assert(whole as nat % 10 == digit as nat);
    }
}

/// A byte is written as its two hexadecimal digits, the high one first, and
/// nothing else is written.
pub proof fn law_hex_is_two_digits_a_byte(bytes: Seq<u8>, i: int)
    requires
        0 <= i < bytes.len(),
    ensures
        codec::hex_of(bytes).len() == 2 * bytes.len(),
        codec::hex_of(bytes)[2 * i] == "0123456789abcdef"@[bytes[i] as int / 16],
        codec::hex_of(bytes)[2 * i + 1] == "0123456789abcdef"@[bytes[i] as int % 16],
{
    reveal_strlit("0123456789abcdef");
    let high = bytes[i] as int / 16;
    let low = bytes[i] as int % 16;
    assert(0 <= high < 16 && 0 <= low < 16);
    assert(codec::hex_digit(high) == "0123456789abcdef"@[high]);
    assert(codec::hex_digit(low) == "0123456789abcdef"@[low]);
    assert((2 * i) / 2 == i && (2 * i) % 2 == 0);
    assert((2 * i + 1) / 2 == i && (2 * i + 1) % 2 == 1);
}

/// Keys are ordered as words are: what comes first decides, a key comes after its
/// own beginning, and a common beginning does not count.
pub proof fn law_keys_are_in_dictionary_order(p: Seq<u8>, x: u8, y: u8, a: Seq<u8>, b: Seq<u8>)
    ensures
        x < y ==> laws::key_before(p + seq![x] + a, p + seq![y] + b),
        x < y ==> !laws::key_before(p + seq![y] + b, p + seq![x] + a),
        laws::key_before(p, p + seq![x] + a),
        !laws::key_before(p + seq![x] + a, p),
        !laws::key_before(p, p),
{
    let n = p.len() as int;
    let px = p + seq![x] + a;
    let py = p + seq![y] + b;
    assert(px.take(n) =~= p && py.take(n) =~= p && p.take(n) =~= p);
    assert(px[n] == x && py[n] == y);
    if x < y {
        assert(laws::key_before(px, py)) by {
            assert(px.take(n) == py.take(n));
        }
        laws::lemma_key_order(px, py);
    }
    assert(laws::key_before(p, px)) by {
        assert(p.take(n) == px.take(n));
    }
    laws::lemma_key_order(p, px);
    if laws::key_before(p, p) {
        laws::lemma_key_order(p, p);
    }
}

/// A scalar document says the value it holds.
pub proof fn law_scalar_says_its_value(b: bool, n: u64, i: i64, s: String, x: json::JsonFloat)
    ensures
        Json::Null@ == json::JsonView::Null,
        Json::Bool(b)@ == json::JsonView::Bool(b),
        Json::Unsigned(n)@ == json::JsonView::Integer(n as int),
        Json::Signed(i)@ == json::JsonView::Integer(i as int),
        Json::Text(s)@ == json::JsonView::Text(s@),
        Json::Float(x)@ == json::JsonView::Float(x@),
{
}

/// There is a tree for every item, at the item's place.
pub(crate) proof fn lemma_items_view_index(items: Seq<Json>)
    ensures
        json::items_view(items).len() == items.len(),
        forall|i: int|
            0 <= i < items.len() ==> #[trigger] json::items_view(items)[i] == items[i]@,
    decreases items.len(),
{
    if items.len() > 0 {
        let init = items.drop_last();
        lemma_items_view_index(init);
        assert forall|i: int| 0 <= i < items.len() implies #[trigger] json::items_view(items)[i]
            == items[i]@ by {
            if i < init.len() {
                assert(json::items_view(items)[i] == json::items_view(init)[i]);
                assert(init[i] == items[i]);
            }
        }
    }
}

/// An array says its items, each at its place.
pub proof fn law_array_says_its_items(items: Vec<Json>, i: int)
    ensures
        Json::Array(items)@ matches json::JsonView::Array(trees) && trees.len() == items@.len()
            && (0 <= i < items@.len() ==> trees[i] == items@[i]@),
{
    lemma_items_view_index(items@);
}

/// The members that are said are those in the list; of a name the last one counts.
proof fn lemma_members(members: Seq<(String, Json)>, name: Seq<char>)
    ensures
        json::members_view(members).contains_key(name) ==> exists|i: int|
            0 <= i < members.len() && #[trigger] members[i].0@ == name,
        forall|i: int|
            #![trigger members[i]]
            0 <= i < members.len() && members[i].0@ == name && (forall|k: int|
                i < k < members.len() ==> (#[trigger] members[k]).0@ != name)
                ==> json::members_view(members).contains_key(name) && json::members_view(
                members,
            )[name] == members[i].1@,
    decreases members.len(),
{
    if members.len() > 0 {
        let init = members.drop_last();
        lemma_members(init, name);
        let last = members.len() - 1;
        if members[last].0@ == name {
        } else if json::members_view(members).contains_key(name) {
            let i = choose|i: int| 0 <= i < init.len() && #[trigger] init[i].0@ == name;
            assert(members[i].0@ == name);
        }
        assert forall|i: int|
            #![trigger members[i]]
            0 <= i < members.len() && members[i].0@ == name && (forall|k: int|
                i < k < members.len() ==> (#[trigger] members[k]).0@
                    != name) implies json::members_view(members).contains_key(name)
            && json::members_view(members)[name] == members[i].1@ by {
            if i < last {
                assert(members[last].0@ != name);
                assert(init[i].0@ == name);
                assert forall|k: int| i < k < init.len() implies (#[trigger] init[k]).0@
                    != name by {
                    assert(members[k].0@ != name);
                }
            }
        }
    }
}

/// An object says its members by name. Every name in the list is there with the
/// value of its last member, and no other name is.
pub proof fn law_object_says_its_members(members: Vec<(String, Json)>, i: int, name: Seq<char>)
    requires
        0 <= i < members@.len() ==> members@[i].0@ == name && forall|k: int|
            i < k < members@.len() ==> (#[trigger] members@[k]).0@ != name,
    ensures
        Json::Object(members)@ is Object,
        0 <= i < members@.len() ==> Json::Object(members)@->Object_0.contains_key(name)
            && Json::Object(members)@->Object_0[name] == members@[i].1@,
        Json::Object(members)@->Object_0.contains_key(name) ==> exists|k: int|
            0 <= k < members@.len() && #[trigger] members@[k].0@ == name,
{
    lemma_members(members@, name);
    if 0 <= i < members@.len() {
        let _ = members@[i];
    }
}

/// `get` gives the member under a name, where the document is an object that has
/// one.
pub proof fn law_get_gives_the_member(
    doc: &Json,
    members: Map<Seq<char>, json::JsonView>,
    name: &str,
    r: Option<&Json>,
)
    requires
        call_ensures(Json::get, (doc, name), r),
    ensures
        !(doc@ is Object) ==> r is None,
        doc@ == json::JsonView::Object(members) ==> (r is Some <==> members.contains_key(name@)),
        doc@ == json::JsonView::Object(members) && members.contains_key(name@) ==> r->Some_0@
            == members[name@],
{
}

/// `as_u64` gives the integers from 0 to 2^64 - 1, and `as_str` the strings.
pub proof fn law_scalars_are_read(doc: &Json, n: int, r: Option<u64>, s: Option<&str>)
    requires
        call_ensures(Json::as_u64, (doc,), r),
        call_ensures(Json::as_str, (doc,), s),
    ensures
        doc@ == json::JsonView::Integer(n) && 0 <= n <= 0xffff_ffff_ffff_ffff ==> r is Some
            && r->Some_0 == n,
        doc@ == json::JsonView::Integer(n) && !(0 <= n <= 0xffff_ffff_ffff_ffff) ==> r is None,
        !(doc@ is Integer) ==> r is None,
        doc@ is Text ==> s is Some && s->Some_0@ == doc@->Text_0,
        !(doc@ is Text) ==> s is None,
{
}

/// A marker is what its parts say: the beginning, a field without braces and white
/// space, and two closing braces. It is a template on its own.
pub proof fn law_marker_is_a_template(field: Seq<char>)
    requires
        field.len() > 0,
        forall|i: int|
            0 <= i < field.len() ==> #[trigger] field[i] != '{' && field[i] != '}'
                && !text::white_space(field[i]),
    ensures
        marker::template("{{profile."@ + field + "}}"@),
{
    reveal_strlit("{{profile.");
    reveal_strlit("}}");
    let s = "{{profile."@ + field + "}}"@;
    assert(s.subrange(0, 10) =~= marker::MARKER@);
    assert(text::occurs_at(s, marker::MARKER@, 0));
    let end = s.len() as int;
    assert(s.subrange(end - 2, end) =~= "}}"@);
    assert forall|k: int| 10 <= k < end - 2 implies marker::field_char(#[trigger] s[k]) by {
        assert(s[k] == field[k - 10]);
    }
    assert(marker::marker_at(s, 0, end));
    assert forall|i: int| 0 <= i < s.len() implies text::white_space(s[i])
        || #[trigger] marker::in_marker(s, i) by {}
}

/// A marker keeps its place in a longer text.
proof fn lemma_marker_in_longer(
    before: Seq<char>,
    s: Seq<char>,
    after: Seq<char>,
    start: int,
    end: int,
)
    requires
        marker::marker_at(s, start, end),
    ensures
        marker::marker_at(before + s + after, before.len() + start, before.len() + end),
{
    reveal_strlit("{{profile.");
    reveal_strlit("}}");
    let whole = before + s + after;
    let n = before.len() as int;
    assert(whole.subrange(n + start, n + start + 10) =~= s.subrange(start, start + 10));
    assert(whole.subrange(n + end - 2, n + end) =~= s.subrange(end - 2, end));
    assert forall|k: int| n + start + 10 <= k < n + end - 2 implies marker::field_char(
        #[trigger] whole[k],
    ) by {
        assert(whole[k] == s[k - n]);
    }
}

/// Markers and white space may follow each other in any order; with a template
/// among them they are one.
pub proof fn law_templates_join(a: Seq<char>, b: Seq<char>)
    requires
        marker::markers_only(a) || blank(a),
        marker::markers_only(b) || blank(b),
    ensures
        marker::markers_only(a + b),
        marker::template(a) || marker::template(b) ==> marker::template(a + b),
{
    let s = a + b;
    let none = Seq::<char>::empty();
    assert(none + a + b =~= s && a + b + none =~= s);
    assert forall|i: int| 0 <= i < s.len() implies text::white_space(s[i])
        || #[trigger] marker::in_marker(s, i) by {
        if i < a.len() {
            assert(s[i] == a[i]);
            if !text::white_space(a[i]) {
                assert(marker::in_marker(a, i));
                let (start, end) = choose|start: int, end: int|
                    start <= i < end && #[trigger] marker::marker_at(a, start, end);
                lemma_marker_in_longer(none, a, b, start, end);
                assert(marker::marker_at(s, start, end));
            }
        } else {
            let j = i - a.len();
            assert(s[i] == b[j]);
            if !text::white_space(b[j]) {
                assert(marker::in_marker(b, j));
                let (start, end) = choose|start: int, end: int|
                    start <= j < end && #[trigger] marker::marker_at(b, start, end);
                lemma_marker_in_longer(a, b, none, start, end);
                assert(marker::marker_at(s, a.len() + start, a.len() + end));
            }
        }
    }
    if marker::template(a) {
        let at = choose|at: int| text::occurs_at(a, marker::MARKER@, at);
        assert(s.subrange(at, at + marker::MARKER@.len()) =~= a.subrange(
            at,
            at + marker::MARKER@.len(),
        ));
        assert(text::occurs_at(s, marker::MARKER@, at));
    } else if marker::template(b) {
        let at = choose|at: int| text::occurs_at(b, marker::MARKER@, at);
        let n = a.len() as int;
        assert(s.subrange(n + at, n + at + marker::MARKER@.len()) =~= b.subrange(
            at,
            at + marker::MARKER@.len(),
        ));
        assert(text::occurs_at(s, marker::MARKER@, n + at));
    }
}

/// In a template every character but white space is part of a marker, which has a
/// field of its own, and there is a marker's beginning.
pub proof fn law_template_is_made_of_markers(s: Seq<char>, i: int) -> (found: (int, Seq<char>))
    requires
        marker::template(s),
        0 <= i < s.len(),
        !text::white_space(s[i]),
    ensures
        0 <= found.0 <= i < found.0 + 12 + found.1.len() <= s.len(),
        s.subrange(found.0, found.0 + 12 + found.1.len()) == "{{profile."@ + found.1 + "}}"@,
        found.1.len() > 0,
        forall|k: int|
            0 <= k < found.1.len() ==> #[trigger] found.1[k] != '{' && found.1[k] != '}'
                && !text::white_space(found.1[k]),
{
    reveal_strlit("{{profile.");
    reveal_strlit("}}");
    assert(marker::in_marker(s, i));
    let (start, end) = choose|start: int, end: int|
        start <= i < end && #[trigger] marker::marker_at(s, start, end);
    let field = s.subrange(start + 10, end - 2);
    assert forall|k: int| 0 <= k < field.len() implies #[trigger] field[k] != '{' && field[k]
        != '}' && !text::white_space(field[k]) by {
        assert(marker::field_char(s[start + 10 + k]));
    }
    let whole = s.subrange(start, end);
    assert(s.subrange(start, start + 10) =~= whole.subrange(0, 10));
    assert(s.subrange(end - 2, end) =~= whole.subrange(whole.len() - 2, whole.len() as int));
    assert(whole =~= whole.subrange(0, 10) + field + whole.subrange(
        whole.len() - 2,
        whole.len() as int,
    ));
    (start, field)
}

/// A template is not blank: a marker begins in it.
pub proof fn law_template_is_not_blank(s: Seq<char>)
    requires
        marker::template(s),
    ensures
        !blank(s),
{
    reveal_strlit("{{profile.");
    let at = choose|at: int| text::occurs_at(s, marker::MARKER@, at);
    assert(s.subrange(at, at + marker::MARKER@.len())[0] == s[at]);
    if blank(s) {
        assert(text::white_space(s[at]));
    }
}

/// `holds_markers_only` accepts nothing but markers and white space, and all such
/// texts.
pub proof fn law_markers_only_is_decided(s: &str, r: bool)
    requires
        call_ensures(marker::holds_markers_only, (s,), r),
    ensures
        r <==> marker::markers_only(s@),
        blank(s@) ==> r,
{
    if blank(s@) {
        assert forall|i: int| 0 <= i < s@.len() implies text::white_space(s@[i])
            || #[trigger] marker::in_marker(s@, i) by {}
    }
}

} // verus!
