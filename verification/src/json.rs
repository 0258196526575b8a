//! JSON documents as plain data, read and written by `serde_json`.
//!
//! The rules work on [`Json`], a tree of plain values. Parsing and printing
//! are `serde_json`'s: a document crosses over one level at a time, by
//! `open_value` and `close_value`.
use vstd::prelude::*;
use vstd::string::*;

use crate::text::same_text;

verus! {

/// What a JSON document says: its tree, with an object as a map from member
/// names to values and a number that is no integer by the IEEE 754 bits of its
/// double.
#[verifier::ext_equal]
pub ghost enum JsonView {
    Null,
    Bool(bool),
    Integer(int),
    Float(u64),
    Text(Seq<char>),
    Array(Seq<JsonView>),
    Object(Map<Seq<char>, JsonView>),
}

/// A JSON document.
///
/// An object is the list of its members; where a name stands twice, the later
/// member counts.
#[derive(Debug)]
pub enum Json {
    Null,
    Bool(bool),
    Unsigned(u64),
    Signed(i64),
    Float(JsonFloat),
    Text(String),
    Array(Vec<Json>),
    Object(Vec<(String, Json)>),
}

/// A finite floating-point number, as `serde_json` holds it.
#[derive(Debug)]
pub struct JsonFloat {
    value: serde_json::Value,
}

impl View for JsonFloat {
    type V = u64;

    /// The bits of the number.
    closed spec fn view(&self) -> u64 {
        json_tree(self.value)->Float_0
    }
}

impl JsonFloat {
    #[verifier::type_invariant]
    spec fn holds_float(self) -> bool {
        json_tree(self.value) is Float
    }
}

impl View for Json {
    type V = JsonView;

    open spec fn view(&self) -> JsonView {
        json_view(*self)
    }
}

/// The tree of `json`.
pub open spec fn json_view(json: Json) -> JsonView
    decreases json,
{
    match json {
        Json::Null => JsonView::Null,
        Json::Bool(b) => JsonView::Bool(b),
        Json::Unsigned(n) => JsonView::Integer(n as int),
        Json::Signed(n) => JsonView::Integer(n as int),
        Json::Float(x) => JsonView::Float(x@),
        Json::Text(s) => JsonView::Text(s@),
        Json::Array(items) => JsonView::Array(items_view(items@)),
        Json::Object(members) => JsonView::Object(members_view(members@)),
    }
}

/// The trees of `items`, in order.
pub open spec fn items_view(items: Seq<Json>) -> Seq<JsonView>
    decreases items,
{
    if items.len() == 0 {
        Seq::empty()
    } else {
        items_view(items.drop_last()).push(json_view(items.last()))
    }
}

/// There is one tree for each item.
pub proof fn lemma_items_view_len(items: Seq<Json>)
    ensures
        items_view(items).len() == items.len(),
    decreases items.len(),
{
    if items.len() > 0 {
        lemma_items_view_len(items.drop_last());
    }
}

/// The members by name; the later of two with one name counts.
pub open spec fn members_view(members: Seq<(String, Json)>) -> Map<Seq<char>, JsonView>
    decreases members,
{
    if members.len() == 0 {
        Map::empty()
    } else {
        members_view(members.drop_last()).insert(members.last().0@, json_view(members.last().1))
    }
}

/// `serde_json::Value`, the outside crate's document.
#[verifier::external_type_specification]
#[verifier::external_body]
pub struct ExValue(serde_json::Value);

/// The tree that a `serde_json::Value` holds.
pub uninterp spec fn json_tree(value: serde_json::Value) -> JsonView;

/// The bits of the finite double that `text` denotes to `str::parse`; `None` where
/// it denotes none.
pub uninterp spec fn double_bits(text: Seq<char>) -> Option<u64>;

/// What `serde_json::from_slice` makes of `bytes`: a tree, or the text of its
/// error.
pub uninterp spec fn json_document(bytes: Seq<u8>) -> Result<JsonView, Seq<char>>;

/// What `serde_json` prints for a tree, compactly and with the members of an
/// object in the order of their names.
pub uninterp spec fn json_text(tree: JsonView) -> Seq<char>;

/// The bytes that `serde_json::to_vec` makes of a tree.
pub uninterp spec fn json_bytes(tree: JsonView) -> Seq<u8>;

/// One level of a document that `serde_json` holds.
enum Level<'a> {
    Null,
    Bool(bool),
    Unsigned(u64),
    Signed(i64),
    Float(serde_json::Value),
    Text(&'a String),
    Array(&'a Vec<serde_json::Value>),
    Object(Vec<(&'a String, &'a serde_json::Value)>),
}

/// `serde_json::from_slice`, with the error as its text.
#[verifier::external_body]
fn value_from_slice(bytes: &[u8]) -> (r: Result<serde_json::Value, String>)
    ensures
        match r {
            Ok(value) => json_document(bytes@) == Ok::<JsonView, Seq<char>>(json_tree(value)),
            Err(e) => json_document(bytes@) == Err::<JsonView, Seq<char>>(e@),
        },
{
    serde_json::from_slice(bytes).map_err(|e| e.to_string())
}

/// The trees of `values`, in order.
spec fn value_trees(values: Seq<serde_json::Value>) -> Seq<JsonView> {
    Seq::new(values.len(), |i: int| json_tree(values[i]))
}

/// The trees of `entries` by name; the later of two with one name counts.
spec fn entry_trees(entries: Seq<(&String, &serde_json::Value)>) -> Map<Seq<char>, JsonView>
    decreases entries.len(),
{
    if entries.len() == 0 {
        Map::empty()
    } else {
        entry_trees(entries.drop_last()).insert(entries.last().0@, json_tree(*entries.last().1))
    }
}

/// Among entries with distinct names each one's tree stands under its name.
proof fn lemma_entry_trees(entries: Seq<(&String, &serde_json::Value)>)
    requires
        forall|i: int, j: int| 0 <= i < j < entries.len() ==> entries[i].0@ != entries[j].0@,
    ensures
        entry_trees(entries).dom().finite(),
        forall|i: int|
            #![trigger entries[i]]
            0 <= i < entries.len() ==> entry_trees(entries).contains_key(entries[i].0@)
                && entry_trees(entries)[entries[i].0@] == json_tree(*entries[i].1),
    decreases entries.len(),
{
    if entries.len() > 0 {
        let init = entries.drop_last();
        lemma_entry_trees(init);
        assert forall|i: int|
            #![trigger entries[i]]
            0 <= i < entries.len() implies entry_trees(entries).contains_key(entries[i].0@)
            && entry_trees(entries)[entries[i].0@] == json_tree(*entries[i].1) by {
            if i < init.len() {
                assert(init[i] == entries[i]);
                assert(entry_trees(init).contains_key(init[i].0@));
            }
        }
    }
}

/// Takes the variants of `serde_json::Value` apart, and a number by
/// `Number::as_u64` and `Number::as_i64`.
///
/// A number for which both give `None` is no integer and comes out as a copy of
/// the value. `Map::iter` brings out each member of an object once.
#[verifier::external_body]
fn open_value<'a>(value: &'a serde_json::Value) -> (r: Level<'a>)
    ensures
        match r {
            Level::Null => json_tree(*value) == JsonView::Null,
            Level::Bool(b) => json_tree(*value) == JsonView::Bool(b),
            Level::Unsigned(n) => json_tree(*value) == JsonView::Integer(n as int),
            Level::Signed(n) => json_tree(*value) == JsonView::Integer(n as int),
            Level::Float(x) => json_tree(*value) is Float && json_tree(x) == json_tree(*value),
            Level::Text(s) => json_tree(*value) == JsonView::Text(s@),
            Level::Array(items) => json_tree(*value) == JsonView::Array(value_trees(items@)),
            Level::Object(members) => {
                &&& json_tree(*value) == JsonView::Object(entry_trees(members@))
                &&& forall|i: int, j: int|
                    0 <= i < j < members@.len() ==> members@[i].0@ != members@[j].0@
            },
        },
{
    match value {
        serde_json::Value::Null => Level::Null,
        serde_json::Value::Bool(b) => Level::Bool(*b),
        serde_json::Value::Number(n) => match (n.as_u64(), n.as_i64()) {
            (Some(n), _) => Level::Unsigned(n),
            (None, Some(n)) => Level::Signed(n),
            (None, None) => Level::Float(value.clone()),
        },
        serde_json::Value::String(s) => Level::Text(s),
        serde_json::Value::Array(items) => Level::Array(items),
        serde_json::Value::Object(members) => Level::Object(members.iter().collect()),
    }
}

/// Takes a whole document over from `serde_json`.
fn from_value(value: &serde_json::Value) -> (r: Json)
    ensures
        r@ == json_tree(*value),
    decreases json_tree(*value),
{
    match open_value(value) {
        Level::Null => Json::Null,
        Level::Bool(b) => Json::Bool(b),
        Level::Unsigned(n) => Json::Unsigned(n),
        Level::Signed(n) => Json::Signed(n),
        Level::Float(value) => Json::Float(JsonFloat { value }),
        Level::Text(s) => Json::Text(s.clone()),
        Level::Array(items) => {
            let ghost trees = value_trees(items@);
            let mut all: Vec<Json> = Vec::new();
            let mut i: usize = 0;
            while i < items.len()
                invariant
                    i <= items.len(),
                    trees == value_trees(items@),
                    json_tree(*value) == JsonView::Array(trees),
                    items_view(all@) == trees.take(i as int),
                decreases items.len() - i,
            {
                assert(trees[i as int] == json_tree(items@[i as int]));
                assert(decreases_to!(json_tree(*value) => json_tree(*value)->Array_0));
                assert(decreases_to!(trees => trees[i as int]));
                let ghost before = all@;
                all.push(from_value(&items[i]));
                assert(all@.drop_last() =~= before);
                assert(items_view(all@) =~= trees.take(i + 1));
                i += 1;
            }
            assert(trees.take(items.len() as int) =~= trees);
            Json::Array(all)
        },
        Level::Object(entries) => {
            let ghost trees = entry_trees(entries@);
            proof {
                lemma_entry_trees(entries@);
            }
            let mut all: Vec<(String, Json)> = Vec::new();
            let mut i: usize = 0;
            assert(entries@.take(0) =~= Seq::empty());
            while i < entries.len()
                invariant
                    i <= entries.len(),
                    trees == entry_trees(entries@),
                    trees.dom().finite(),
                    json_tree(*value) == JsonView::Object(trees),
                    forall|k: int|
                        #![trigger entries@[k]]
                        0 <= k < entries@.len() ==> trees.contains_key(entries@[k].0@)
                            && trees[entries@[k].0@] == json_tree(*entries@[k].1),
                    members_view(all@) == entry_trees(entries@.take(i as int)),
                decreases entries.len() - i,
            {
                let (name, member) = entries[i];
                assert(trees.contains_key(entries@[i as int].0@));
                assert(decreases_to!(json_tree(*value) => json_tree(*value)->Object_0));
                assert(decreases_to!(trees => trees[name@]));
                let ghost before = all@;
                all.push((name.clone(), from_value(member)));
                assert(all@.drop_last() =~= before);
                assert(entries@.take(i + 1).drop_last() =~= entries@.take(i as int));
                i += 1;
            }
            assert(entries@.take(entries.len() as int) =~= entries@);
            Json::Object(all)
        },
    }
}

/// One level of a document to hand to `serde_json`.
enum Node<'a> {
    Null,
    Bool(bool),
    Unsigned(u64),
    Signed(i64),
    Float(&'a serde_json::Value),
    Text(String),
    Array(Vec<serde_json::Value>),
    Object(Vec<(String, serde_json::Value)>),
}

/// The trees of `pairs` by name; the later of two with one name counts.
spec fn pair_trees(pairs: Seq<(String, serde_json::Value)>) -> Map<Seq<char>, JsonView>
    decreases pairs.len(),
{
    if pairs.len() == 0 {
        Map::empty()
    } else {
        pair_trees(pairs.drop_last()).insert(pairs.last().0@, json_tree(pairs.last().1))
    }
}

/// Whether no name stands twice.
spec fn distinct_names(pairs: Seq<(String, serde_json::Value)>) -> bool {
    forall|i: int, j: int| 0 <= i < j < pairs.len() ==> pairs[i].0@ != pairs[j].0@
}

/// Among pairs with distinct names, replacing the value under one of them
/// changes the tree under that name alone.
proof fn lemma_replace(
    pairs: Seq<(String, serde_json::Value)>,
    at: int,
    pair: (String, serde_json::Value),
)
    requires
        distinct_names(pairs),
        0 <= at < pairs.len(),
        pairs[at].0@ == pair.0@,
    ensures
        pair_trees(pairs.update(at, pair)) =~= pair_trees(pairs).insert(
            pair.0@,
            json_tree(pair.1),
        ),
    decreases pairs.len(),
{
    let init = pairs.drop_last();
    let updated = pairs.update(at, pair);
    if at == pairs.len() - 1 {
        assert(updated.drop_last() =~= init);
    } else {
        assert(updated.drop_last() =~= init.update(at, pair));
        assert(updated.last() == pairs.last());
        lemma_replace(init, at, pair);
    }
}

/// Puts a `serde_json::Value` together from one level: the variant of that kind,
/// with an integer by `Value::from`, a copy of a number that is no integer, and
/// an object by collecting its members into a `Map`. Of two members with one name
/// nothing is claimed.
#[verifier::external_body]
fn close_value(node: Node<'_>) -> (r: serde_json::Value)
    ensures
        match node {
            Node::Null => json_tree(r) == JsonView::Null,
            Node::Bool(b) => json_tree(r) == JsonView::Bool(b),
            Node::Unsigned(n) => json_tree(r) == JsonView::Integer(n as int),
            Node::Signed(n) => json_tree(r) == JsonView::Integer(n as int),
            Node::Float(x) => json_tree(r) == json_tree(*x),
            Node::Text(s) => json_tree(r) == JsonView::Text(s@),
            Node::Array(items) => json_tree(r) == JsonView::Array(value_trees(items@)),
            Node::Object(pairs) => distinct_names(pairs@) ==> json_tree(r) == JsonView::Object(
                pair_trees(pairs@),
            ),
        },
{
    match node {
        Node::Null => serde_json::Value::Null,
        Node::Bool(b) => serde_json::Value::Bool(b),
        Node::Unsigned(n) => serde_json::Value::from(n),
        Node::Signed(n) => serde_json::Value::from(n),
        Node::Float(x) => x.clone(),
        Node::Text(s) => serde_json::Value::String(s),
        Node::Array(items) => serde_json::Value::Array(items),
        Node::Object(pairs) => serde_json::Value::Object(pairs.into_iter().collect()),
    }
}

/// Hands a whole document to `serde_json`.
fn to_value(json: &Json) -> (r: serde_json::Value)
    ensures
        json_tree(r) == json@,
    decreases json,
{
    match json {
        Json::Null => close_value(Node::Null),
        Json::Bool(b) => close_value(Node::Bool(*b)),
        Json::Unsigned(n) => close_value(Node::Unsigned(*n)),
        Json::Signed(n) => close_value(Node::Signed(*n)),
        Json::Float(x) => {
            proof {
                use_type_invariant(x);
            }
            close_value(Node::Float(&x.value))
        },
        Json::Text(s) => close_value(Node::Text(s.clone())),
        Json::Array(items) => {
            let mut all: Vec<serde_json::Value> = Vec::new();
            let mut i: usize = 0;
            assert(items@.take(0) =~= Seq::empty());
            while i < items.len()
                invariant
                    i <= items.len(),
                    json == Json::Array(*items),
                    value_trees(all@) == items_view(items@.take(i as int)),
                decreases items.len() - i,
            {
                assert(decreases_to!(json => json->Array_0));
                assert(decreases_to!(items@ => items@[i as int]));
                let ghost before = value_trees(all@);
                all.push(to_value(&items[i]));
                assert(value_trees(all@) =~= before.push(json_view(items@[i as int])));
                assert(items@.take(i + 1).drop_last() =~= items@.take(i as int));
                i += 1;
            }
            assert(items@.take(items.len() as int) =~= items@);
            close_value(Node::Array(all))
        },
        Json::Object(members) => {
            let mut all: Vec<(String, serde_json::Value)> = Vec::new();
            let mut i: usize = 0;
            assert(members@.take(0) =~= Seq::empty());
            while i < members.len()
                invariant
                    i <= members.len(),
                    json == Json::Object(*members),
                    distinct_names(all@),
                    pair_trees(all@) == members_view(members@.take(i as int)),
                decreases members.len() - i,
            {
                let name = members[i].0.clone();
                assert(decreases_to!(json => json->Object_0));
                assert(decreases_to!(members@ => members@[i as int]));
                let value = to_value(&members[i].1);
                let ghost before = all@;
                let mut at: usize = 0;
                while at < all.len() && !same_text(all[at].0.as_str(), name.as_str())
                    invariant
                        at <= all@.len(),
                        forall|k: int| 0 <= k < at ==> all@[k].0@ != name@,
                    ensures
                        at <= all@.len(),
                        forall|k: int| 0 <= k < at ==> all@[k].0@ != name@,
                        at < all@.len() ==> all@[at as int].0@ == name@,
                    decreases all.len() - at,
                {
                    at += 1;
                }
                if at < all.len() {
                    proof {
                        lemma_replace(before, at as int, (name, value));
                    }
                    all.set(at, (name, value));
                } else {
                    all.push((name, value));
                    assert(all@.drop_last() =~= before);
                }
                assert(members@.take(i + 1).drop_last() =~= members@.take(i as int));
                i += 1;
            }
            assert(members@.take(members.len() as int) =~= members@);
            close_value(Node::Object(all))
        },
    }
}

/// `serde_json::Value`'s `Display`, without the alternate flag.
#[verifier::external_body]
fn value_text(value: &serde_json::Value) -> (r: String)
    ensures
        r@ == json_text(json_tree(*value)),
{
    value.to_string()
}

/// `serde_json::to_vec`, with the error as its text. On a `serde_json::Value` it
/// does not fail: names of members are strings, and writing to a `Vec` succeeds.
#[verifier::external_body]
fn value_bytes(value: &serde_json::Value) -> (r: Result<Vec<u8>, String>)
    ensures
        match r {
            Ok(bytes) => bytes@ == json_bytes(json_tree(*value)),
            Err(_) => false,
        },
{
    serde_json::to_vec(value).map_err(|e| e.to_string())
}

/// `serde_json::Number::from_f64` of what `str::parse` makes of `text`, as a
/// value.
///
/// `from_f64` takes every finite double and no other. `str::parse` gives the double
/// that is nearest to a decimal, so of the four decimals below the bits are stated.
#[verifier::external_body]
fn float_value(text: &str) -> (r: Option<serde_json::Value>)
    ensures
        match r {
            Some(value) => double_bits(text@) is Some && json_tree(value) == JsonView::Float(
                double_bits(text@)->Some_0,
            ),
            None => double_bits(text@) is None,
        },
        text@ == "0"@ ==> r is Some && json_tree(r->Some_0) == JsonView::Float(0),
        text@ == "0.6"@ ==> r is Some && json_tree(r->Some_0) == JsonView::Float(
            0x3fe3_3333_3333_3333,
        ),
        text@ == "0.85"@ ==> r is Some && json_tree(r->Some_0) == JsonView::Float(
            0x3feb_3333_3333_3333,
        ),
        text@ == "1"@ ==> r is Some && json_tree(r->Some_0) == JsonView::Float(
            0x3ff0_0000_0000_0000,
        ),
{
    text.parse().ok().and_then(serde_json::Number::from_f64).map(serde_json::Value::Number)
}

/// `serde_json::Value::as_f64`, with the double as its bits: of a number that is no
/// integer it gives the number itself.
#[verifier::external_body]
fn float_bits(value: &serde_json::Value) -> (r: Option<u64>)
    requires
        json_tree(*value) is Float,
    ensures
        r == Some(json_tree(*value)->Float_0),
{
    value.as_f64().map(|x| x.to_bits())
}

impl JsonFloat {
    /// The number that `text` denotes, where it denotes a finite double.
    pub fn parse(text: &str) -> (r: Option<JsonFloat>)
        ensures
            match r {
                Some(x) => double_bits(text@) == Some(x@),
                None => double_bits(text@) is None,
            },
            text@ == "0"@ ==> r is Some && r->Some_0@ == 0,
            text@ == "0.6"@ ==> r is Some && r->Some_0@ == 0x3fe3_3333_3333_3333,
            text@ == "0.85"@ ==> r is Some && r->Some_0@ == 0x3feb_3333_3333_3333,
            text@ == "1"@ ==> r is Some && r->Some_0@ == 0x3ff0_0000_0000_0000,
    {
        match float_value(text) {
            Some(value) => Some(JsonFloat { value }),
            None => None,
        }
    }

    /// The bits of the number.
    pub fn bits(&self) -> (r: u64)
        ensures
            r == self@,
    {
        proof {
            use_type_invariant(self);
        }
        float_bits(&self.value).unwrap()
    }
}

/// The value of an integer that fits `u64`.
pub open spec fn unsigned_of(tree: JsonView) -> Option<u64> {
    match tree {
        JsonView::Integer(n) => if 0 <= n <= u64::MAX {
            Some(n as u64)
        } else {
            None
        },
        _ => None,
    }
}

/// The characters of a string.
pub open spec fn text_of(tree: JsonView) -> Option<Seq<char>> {
    match tree {
        JsonView::Text(s) => Some(s),
        _ => None,
    }
}

/// The member `name` of an object.
pub open spec fn member_of(tree: JsonView, name: Seq<char>) -> Option<JsonView> {
    match tree {
        JsonView::Object(members) => if members.contains_key(name) {
            Some(members[name])
        } else {
            None
        },
        _ => None,
    }
}

/// The last member called `name`, at `at`, is the one that counts; there is none
/// where `at` is -1.
proof fn lemma_member(members: Seq<(String, Json)>, at: int, name: Seq<char>)
    requires
        -1 <= at < members.len(),
        at >= 0 ==> members[at].0@ == name,
        forall|k: int| at < k < members.len() ==> members[k].0@ != name,
    ensures
        members_view(members).contains_key(name) == (at >= 0),
        at >= 0 ==> members_view(members)[name] == json_view(members[at].1),
    decreases members.len(),
{
    if members.len() > 0 && at < members.len() - 1 {
        lemma_member(members.drop_last(), at, name);
    }
}

/// Adds a member, after which it is the one that counts under its name.
pub(crate) fn add_member(members: &mut Vec<(String, Json)>, name: &str, value: Json)
    ensures
        members_view(final(members)@) == members_view(old(members)@).insert(name@, value@),
{
    members.push((name.to_owned(), value));
    assert(members@.drop_last() =~= old(members)@);
}

/// Adds an item at the end.
pub(crate) fn add_item(items: &mut Vec<Json>, item: Json)
    ensures
        items_view(final(items)@) == items_view(old(items)@).push(item@),
{
    items.push(item);
    assert(items@.drop_last() =~= old(items)@);
}

impl Json {
    /// Reads a document. The error is the text of the parser's.
    pub fn parse(bytes: &[u8]) -> (r: Result<Json, String>)
        ensures
            match r {
                Ok(json) => json_document(bytes@) == Ok::<JsonView, Seq<char>>(json@),
                Err(e) => json_document(bytes@) == Err::<JsonView, Seq<char>>(e@),
            },
    {
        match value_from_slice(bytes) {
            Ok(value) => Ok(from_value(&value)),
            Err(e) => Err(e),
        }
    }

    /// Prints the document, compactly.
    pub fn to_text(&self) -> (r: String)
        ensures
            r@ == json_text(self@),
    {
        value_text(&to_value(self))
    }

    /// Writes the document as bytes, which succeeds on every document.
    pub fn to_bytes(&self) -> (r: Result<Vec<u8>, String>)
        ensures
            match r {
                Ok(bytes) => bytes@ == json_bytes(self@),
                Err(_) => false,
            },
    {
        value_bytes(&to_value(self))
    }

    /// The member `name`, where this is an object that has it.
    pub fn get(&self, name: &str) -> (r: Option<&Json>)
        ensures
            match r {
                Some(member) => member_of(self@, name@) == Some(member@),
                None => member_of(self@, name@) is None,
            },
    {
        match self {
            Json::Object(members) => {
                let mut i: usize = members.len();
                while i > 0
                    invariant
                        self == Json::Object(*members),
                        i <= members.len(),
                        forall|k: int| i <= k < members.len() ==> members@[k].0@ != name@,
                    decreases i,
                {
                    i -= 1;
                    if same_text(members[i].0.as_str(), name) {
                        proof {
                            lemma_member(members@, i as int, name@);
                        }
                        return Some(&members[i].1);
                    }
                }
                proof {
                    lemma_member(members@, -1, name@);
                }
                None
            },
            _ => None,
        }
    }

    /// The value, where this is an integer that fits `u64`.
    pub fn as_u64(&self) -> (r: Option<u64>)
        ensures
            r == unsigned_of(self@),
    {
        match self {
            Json::Unsigned(n) => Some(*n),
            Json::Signed(n) => if *n >= 0 {
                Some(*n as u64)
            } else {
                None
            },
            _ => None,
        }
    }

    /// The characters, where this is a string.
    pub fn as_str(&self) -> (r: Option<&str>)
        ensures
            match r {
                Some(s) => text_of(self@) == Some(s@),
                None => text_of(self@) is None,
            },
    {
        match self {
            Json::Text(s) => Some(s.as_str()),
            _ => None,
        }
    }
}

} // verus!
