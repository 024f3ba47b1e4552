//! JSON documents as plain values.
//!
//! [`Json`] is the tree that the node reads out of `docker inspect`, out of
//! replies from a node and out of JSON-RPC messages. `serde_json` does the
//! parsing; everything that looks inside a document works on this tree.

use vstd::prelude::*;

use crate::text::same;

verus! {

/// A JSON value.
#[derive(Debug, PartialEq, Eq)]
pub enum Json {
    /// `null`.
    Null,
    /// `true` or `false`.
    Bool(bool),
    /// A number: its value where it is an integer that fits `i64`, and its
    /// text as written by the serializer.
    Number(Option<i64>, String),
    /// A string.
    Str(String),
    /// An array.
    Array(Vec<Json>),
    /// An object, as its members in order.
    Object(Vec<(String, Json)>),
}

/// The mathematical value of a [`Json`].
pub enum JsonView {
    /// `null`.
    Null,
    /// `true` or `false`.
    Bool(bool),
    /// A number.
    Number(Option<i64>, Seq<char>),
    /// A string.
    Str(Seq<char>),
    /// An array.
    Array(Seq<JsonView>),
    /// An object.
    Object(Seq<(Seq<char>, JsonView)>),
}

/// The mathematical value of a document.
pub open spec fn view_of(json: Json) -> JsonView
    decreases json,
{
    match json {
        Json::Null => JsonView::Null,
        Json::Bool(b) => JsonView::Bool(b),
        Json::Number(whole, text) => JsonView::Number(whole, text@),
        Json::Str(s) => JsonView::Str(s@),
        Json::Array(items) => JsonView::Array(
            Seq::new(
                items@.len(),
                |i: int|
                    if 0 <= i < items@.len() {
                        view_of(items@[i])
                    } else {
                        JsonView::Null
                    },
            ),
        ),
        Json::Object(list) => JsonView::Object(
            Seq::new(
                list@.len(),
                |i: int|
                    if 0 <= i < list@.len() {
                        (list@[i].0@, view_of(list@[i].1))
                    } else {
                        (Seq::empty(), JsonView::Null)
                    },
            ),
        ),
    }
}

impl View for Json {
    type V = JsonView;

    open spec fn view(&self) -> JsonView {
        view_of(*self)
    }
}

/// The value of the first member named `key`.
pub open spec fn lookup(list: Seq<(Seq<char>, JsonView)>, key: Seq<char>) -> Option<JsonView>
    decreases list.len(),
{
    if list.len() == 0 {
        None
    } else if list[0].0 == key {
        Some(list[0].1)
    } else {
        lookup(list.drop_first(), key)
    }
}

/// The first member named `key` is the one that is found.
pub proof fn lemma_lookup(list: Seq<(Seq<char>, JsonView)>, at: int, key: Seq<char>)
    requires
        0 <= at < list.len(),
        list[at].0 == key,
        forall|i: int| 0 <= i < at ==> (#[trigger] list[i]).0 != key,
    ensures
        lookup(list, key) == Some(list[at].1),
    decreases at,
{
    if at > 0 {
        assert(list[0].0 != key);
        let rest = list.drop_first();
        assert forall|i: int| 0 <= i < at - 1 implies (#[trigger] rest[i]).0 != key by {
            assert(rest[i] == list[i + 1]);
        }
        lemma_lookup(rest, at - 1, key);
    }
}

impl JsonView {
    /// The member `key`, if this is an object that has one.
    pub open spec fn field(self, key: Seq<char>) -> Option<JsonView> {
        match self {
            JsonView::Object(list) => lookup(list, key),
            _ => None,
        }
    }

    /// The element at `index`, if this is an array that long.
    pub open spec fn element(self, index: int) -> Option<JsonView> {
        match self {
            JsonView::Array(items) => if 0 <= index < items.len() {
                Some(items[index])
            } else {
                None
            },
            _ => None,
        }
    }

    /// The text, if this is a string.
    pub open spec fn text(self) -> Option<Seq<char>> {
        match self {
            JsonView::Str(s) => Some(s),
            _ => None,
        }
    }

    /// The truth value, if this is one.
    pub open spec fn truth(self) -> Option<bool> {
        match self {
            JsonView::Bool(b) => Some(b),
            _ => None,
        }
    }

    /// The integer, if this is a number that is one and fits `i64`.
    pub open spec fn integer(self) -> Option<i64> {
        match self {
            JsonView::Number(whole, _) => whole,
            _ => None,
        }
    }

    /// The elements, if this is an array.
    pub open spec fn items(self) -> Option<Seq<JsonView>> {
        match self {
            JsonView::Array(items) => Some(items),
            _ => None,
        }
    }

    /// The text of the member `key`, if there is such a member and it is a
    /// string.
    pub open spec fn text_field(self, key: Seq<char>) -> Option<Seq<char>> {
        match self.field(key) {
            Some(value) => value.text(),
            None => None,
        }
    }

    /// The text of the member `key`, or nothing at all.
    pub open spec fn text_or_empty(self, key: Seq<char>) -> Seq<char> {
        match self.text_field(key) {
            Some(text) => text,
            None => Seq::empty(),
        }
    }
}

/// What an optional reference into a document points at.
pub open spec fn opt_json(value: Option<&Json>) -> Option<JsonView> {
    match value {
        Some(json) => Some(json@),
        None => None,
    }
}

/// The views of a list of values.
pub open spec fn json_views(items: Seq<Json>) -> Seq<JsonView> {
    items.map_values(|j: Json| j@)
}

/// The views of a list of members.
pub open spec fn member_views(list: Seq<(String, Json)>) -> Seq<(Seq<char>, JsonView)> {
    list.map_values(|m: (String, Json)| (m.0@, m.1@))
}

/// An array's view is the array of its elements' views.
pub broadcast proof fn lemma_array_view(items: Vec<Json>)
    ensures
        #[trigger] Json::Array(items)@ == JsonView::Array(json_views(items@)),
{
    assert(Json::Array(items)@->Array_0 =~= json_views(items@));
}

/// An object's view is the object of its members' views.
pub broadcast proof fn lemma_object_view(list: Vec<(String, Json)>)
    ensures
        #[trigger] Json::Object(list)@ == JsonView::Object(member_views(list@)),
{
    assert(Json::Object(list)@->Object_0 =~= member_views(list@));
}

/// `serde_json::Value`: a tree of nested arrays and maps.
#[verifier::external_type_specification]
#[verifier::external_body]
pub struct ExValue(serde_json::Value);

/// What a `serde_json::Value` holds: its scalars, the elements of its arrays
/// and the members of its maps in the map's order.
pub uninterp spec fn value_tree(value: serde_json::Value) -> JsonView;

/// What `serde_json::from_slice` makes of a byte string: the document, or the
/// text of the error.
pub uninterp spec fn json_document(bytes: Seq<u8>) -> Result<JsonView, Seq<char>>;

/// `serde_json::from_slice` into a `serde_json::Value`: the same bytes always
/// give the same document, or an error with the same text. Which bytes are a
/// document, and of what, is not stated.
#[verifier::external_body]
fn parse_value(bytes: &[u8]) -> (r: Result<serde_json::Value, String>)
    ensures
        match r {
            Ok(value) => json_document(bytes@) == Ok::<JsonView, Seq<char>>(value_tree(value)),
            Err(message) => json_document(bytes@) == Err::<JsonView, Seq<char>>(message@),
        },
{
    serde_json::from_slice::<serde_json::Value>(bytes).map_err(|e| e.to_string())
}

/// One level of a `serde_json::Value`.
enum ValueNode {
    Null,
    Bool(bool),
    Number(Option<i64>, String),
    Str(String),
    Array(Vec<serde_json::Value>),
    Object(Vec<(String, serde_json::Value)>),
}

/// Takes one level off a `serde_json::Value`, variant by variant. An integer
/// is what `Number::as_i64` gives, and a number's text what `Number` prints.
#[verifier::external_body]
fn value_node(value: serde_json::Value) -> (r: ValueNode)
    ensures
        value_tree(value) == match r {
            ValueNode::Null => JsonView::Null,
            ValueNode::Bool(b) => JsonView::Bool(b),
            ValueNode::Number(whole, text) => JsonView::Number(whole, text@),
            ValueNode::Str(text) => JsonView::Str(text@),
            ValueNode::Array(items) => JsonView::Array(
                items@.map_values(|v: serde_json::Value| value_tree(v)),
            ),
            ValueNode::Object(list) => JsonView::Object(
                list@.map_values(|m: (String, serde_json::Value)| (m.0@, value_tree(m.1))),
            ),
        },
{
    match value {
        serde_json::Value::Null => ValueNode::Null,
        serde_json::Value::Bool(b) => ValueNode::Bool(b),
        serde_json::Value::Number(n) => ValueNode::Number(n.as_i64(), n.to_string()),
        serde_json::Value::String(text) => ValueNode::Str(text),
        serde_json::Value::Array(items) => ValueNode::Array(items),
        serde_json::Value::Object(map) => ValueNode::Object(map.into_iter().collect()),
    }
}

fn tree_of_value(value: serde_json::Value) -> (r: Json)
    ensures
        r@ == value_tree(value),
    decreases value_tree(value),
{
    let ghost tree = value_tree(value);
    match value_node(value) {
        ValueNode::Null => Json::Null,
        ValueNode::Bool(b) => Json::Bool(b),
        ValueNode::Number(whole, text) => Json::Number(whole, text),
        ValueNode::Str(text) => Json::Str(text),
        ValueNode::Array(items) => {
            let ghost all = items@;
            let ghost trees = all.map_values(|v: serde_json::Value| value_tree(v));
            let mut out: Vec<Json> = Vec::new();
            assert(json_views(out@) =~= trees.take(0));
            for item in it: items
                invariant
                    it.seq() == all,
                    tree == value_tree(value),
                    tree == JsonView::Array(trees),
                    trees == all.map_values(|v: serde_json::Value| value_tree(v)),
                    out@.len() == it.index(),
                    json_views(out@) == trees.take(it.index()),
            {
                let ghost k = out@.len() as int;
                proof {
                    assert(item == all[k]);
                    assert(trees[k] == value_tree(item));
                    assert(decreases_to!(tree => tree->Array_0));
                    assert(decreases_to!(tree->Array_0 => trees[k]));
                }
                let ghost before = out@;
                out.push(tree_of_value(item));
                assert(json_views(out@) =~= json_views(before).push(trees[k]));
                assert(trees.take(k + 1) =~= trees.take(k).push(trees[k]));
            }
            proof {
                lemma_array_view(out);
                assert(trees.take(out@.len() as int) =~= trees);
            }
            Json::Array(out)
        },
        ValueNode::Object(list) => {
            let ghost all = list@;
            let ghost trees = all.map_values(
                |m: (String, serde_json::Value)| (m.0@, value_tree(m.1)),
            );
            let mut out: Vec<(String, Json)> = Vec::new();
            assert(member_views(out@) =~= trees.take(0));
            for member in it: list
                invariant
                    it.seq() == all,
                    tree == value_tree(value),
                    tree == JsonView::Object(trees),
                    trees == all.map_values(
                        |m: (String, serde_json::Value)| (m.0@, value_tree(m.1)),
                    ),
                    out@.len() == it.index(),
                    member_views(out@) == trees.take(it.index()),
            {
                let (key, item) = member;
                let ghost k = out@.len() as int;
                proof {
                    assert((key, item) == all[k]);
                    assert(trees[k] == (key@, value_tree(item)));
                    assert(decreases_to!(tree => tree->Object_0));
                    assert(decreases_to!(tree->Object_0 => trees[k]));
                    assert(decreases_to!(trees[k] => trees[k].1));
                }
                let ghost before = out@;
                out.push((key, tree_of_value(item)));
                assert(member_views(out@) =~= member_views(before).push(trees[k]));
                assert(trees.take(k + 1) =~= trees.take(k).push(trees[k]));
            }
            proof {
                lemma_object_view(out);
                assert(trees.take(out@.len() as int) =~= trees);
            }
            Json::Object(out)
        },
    }
}

impl Json {
    /// Parses one JSON document.
    pub fn parse(bytes: &[u8]) -> (r: Result<Json, String>)
        ensures
            match r {
                Ok(json) => json_document(bytes@) == Ok::<JsonView, Seq<char>>(json@),
                Err(message) => json_document(bytes@) == Err::<JsonView, Seq<char>>(message@),
            },
    {
        match parse_value(bytes) {
            Ok(value) => Ok(tree_of_value(value)),
            Err(message) => Err(message),
        }
    }

    /// A JSON string.
    pub fn string(text: &str) -> (r: Json)
        ensures
            r@ == JsonView::Str(text@),
    {
        Json::Str(text.to_string())
    }

    /// A JSON integer.
    pub fn integer(n: i64) -> (r: Json)
        ensures
            r@ == JsonView::Number(Some(n), crate::decimal::signed_decimal(n as int)),
    {
        Json::Number(Some(n), crate::decimal::print_i64(n))
    }

    /// The member `key`, if this is an object that has one.
    pub fn get(&self, key: &str) -> (r: Option<&Json>)
        ensures
            opt_json(r) == self@.field(key@),
    {
        match self {
            Json::Object(list) => {
                proof {
                    lemma_object_view(*list);
                }
                let ghost all = member_views(list@);
                let mut i: usize = 0;
                assert(all.skip(0) =~= all);
                while i < list.len()
                    invariant
                        all == member_views(list@),
                        self@ == JsonView::Object(all),
                        i <= list@.len(),
                        lookup(all, key@) == lookup(all.skip(i as int), key@),
                    decreases list@.len() - i,
                {
                    assert(all.skip(i as int).drop_first() =~= all.skip(i + 1));
                    if same(list[i].0.as_str(), key) {
                        return Some(&list[i].1);
                    }
                    i += 1;
                }
                None
            },
            _ => None,
        }
    }

    /// The element at `index`, if this is an array that long.
    pub fn at(&self, index: usize) -> (r: Option<&Json>)
        ensures
            opt_json(r) == self@.element(index as int),
    {
        match self {
            Json::Array(items) => if index < items.len() {
                Some(&items[index])
            } else {
                None
            },
            _ => None,
        }
    }

    /// The text, if this is a string.
    pub fn as_str(&self) -> (r: Option<&str>)
        ensures
            crate::text::opt_text(r) == self@.text(),
    {
        match self {
            Json::Str(s) => Some(s.as_str()),
            _ => None,
        }
    }

    /// The truth value, if this is one.
    pub fn as_bool(&self) -> (r: Option<bool>)
        ensures
            r == self@.truth(),
    {
        match self {
            Json::Bool(b) => Some(*b),
            _ => None,
        }
    }

    /// The integer, if this is a number that is one and fits `i64`.
    pub fn as_i64(&self) -> (r: Option<i64>)
        ensures
            r == self@.integer(),
    {
        match self {
            Json::Number(whole, _) => *whole,
            _ => None,
        }
    }

    /// The elements, if this is an array.
    pub fn as_array(&self) -> (r: Option<&Vec<Json>>)
        ensures
            match r {
                Some(items) => self@.items() == Some(json_views(items@)),
                None => self@.items() is None,
            },
    {
        match self {
            Json::Array(items) => {
                proof {
                    lemma_array_view(*items);
                }
                Some(items)
            },
            _ => None,
        }
    }

    /// The text of the member `key`, if it is a string.
    pub fn text_field(&self, key: &str) -> (r: Option<&str>)
        ensures
            crate::text::opt_text(r) == self@.text_field(key@),
    {
        match self.get(key) {
            Some(value) => value.as_str(),
            None => None,
        }
    }

    /// The text of the member `key`; empty where there is none.
    pub fn text_or_empty(&self, key: &str) -> (r: String)
        ensures
            r@ == self@.text_or_empty(key@),
    {
        match self.text_field(key) {
            Some(text) => text.to_string(),
            None => String::new(),
        }
    }

    /// An equal value of its own.
    pub fn duplicate(&self) -> (r: Json)
        ensures
            r@ == self@,
        decreases self,
    {
        match self {
            Json::Null => Json::Null,
            Json::Bool(b) => Json::Bool(*b),
            Json::Number(whole, text) => Json::Number(*whole, text.clone()),
            Json::Str(s) => Json::Str(s.clone()),
            Json::Array(items) => {
                let mut out: Vec<Json> = Vec::new();
                let mut i: usize = 0;
                while i < items.len()
                    invariant
                        i <= items@.len(),
                        *self == Json::Array(*items),
                        out@.len() == i,
                        forall|k: int| 0 <= k < i ==> (#[trigger] out@[k])@ == items@[k]@,
                    decreases items@.len() - i,
                {
                    proof {
                        assert(decreases_to!(*self => self->Array_0));
                        assert(decreases_to!(self->Array_0 => items@));
                        assert(decreases_to!(items@ => items@[i as int]));
                    }
                    out.push(items[i].duplicate());
                    i += 1;
                }
                proof {
                    lemma_array_view(*items);
                    lemma_array_view(out);
                    assert(json_views(out@) =~= json_views(items@));
                }
                Json::Array(out)
            },
            Json::Object(list) => {
                let mut out: Vec<(String, Json)> = Vec::new();
                let mut i: usize = 0;
                while i < list.len()
                    invariant
                        i <= list@.len(),
                        *self == Json::Object(*list),
                        out@.len() == i,
                        forall|k: int|
                            0 <= k < i ==> (#[trigger] out@[k]).0@ == list@[k].0@ && out@[k].1@
                                == list@[k].1@,
                    decreases list@.len() - i,
                {
                    proof {
                        assert(decreases_to!(*self => self->Object_0));
                        assert(decreases_to!(self->Object_0 => list@));
                        assert(decreases_to!(list@ => list@[i as int]));
                        assert(decreases_to!(list@[i as int] => list@[i as int].1));
                    }
                    out.push((list[i].0.clone(), list[i].1.duplicate()));
                    i += 1;
                }
                proof {
                    lemma_object_view(*list);
                    lemma_object_view(out);
                    assert(member_views(out@) =~= member_views(list@));
                }
                Json::Object(out)
            },
        }
    }
}

/// Appends a member to the list of an object under construction.
pub fn add_member(list: &mut Vec<(String, Json)>, key: &str, value: Json)
    ensures
        member_views(final(list)@) == member_views(old(list)@).push((key@, value@)),
{
    list.push((key.to_string(), value));
    assert(member_views(list@) =~= member_views(old(list)@).push((key@, value@)));
}

/// An object with one member.
pub fn object1(key: &str, value: Json) -> (r: Json)
    ensures
        r@ == JsonView::Object(seq![(key@, value@)]),
{
    let mut list: Vec<(String, Json)> = Vec::new();
    add_member(&mut list, key, value);
    proof {
        lemma_object_view(list);
        assert(member_views(list@) =~= seq![(key@, value@)]);
    }
    Json::Object(list)
}

/// An object with two members.
pub fn object2(key1: &str, value1: Json, key2: &str, value2: Json) -> (r: Json)
    ensures
        r@ == JsonView::Object(seq![(key1@, value1@), (key2@, value2@)]),
{
    let mut list: Vec<(String, Json)> = Vec::new();
    add_member(&mut list, key1, value1);
    add_member(&mut list, key2, value2);
    proof {
        lemma_object_view(list);
        assert(member_views(list@) =~= seq![(key1@, value1@), (key2@, value2@)]);
    }
    Json::Object(list)
}

/// An object with three members.
pub fn object3(
    key1: &str,
    value1: Json,
    key2: &str,
    value2: Json,
    key3: &str,
    value3: Json,
) -> (r: Json)
    ensures
        r@ == JsonView::Object(seq![(key1@, value1@), (key2@, value2@), (key3@, value3@)]),
{
    let mut list: Vec<(String, Json)> = Vec::new();
    add_member(&mut list, key1, value1);
    add_member(&mut list, key2, value2);
    add_member(&mut list, key3, value3);
    proof {
        lemma_object_view(list);
        assert(member_views(list@) =~= seq![(key1@, value1@), (key2@, value2@), (key3@, value3@)]);
    }
    Json::Object(list)
}

/// An object with four members.
pub fn object4(
    key1: &str,
    value1: Json,
    key2: &str,
    value2: Json,
    key3: &str,
    value3: Json,
    key4: &str,
    value4: Json,
) -> (r: Json)
    ensures
        r@ == JsonView::Object(
            seq![(key1@, value1@), (key2@, value2@), (key3@, value3@), (key4@, value4@)],
        ),
{
    let mut list: Vec<(String, Json)> = Vec::new();
    add_member(&mut list, key1, value1);
    add_member(&mut list, key2, value2);
    add_member(&mut list, key3, value3);
    add_member(&mut list, key4, value4);
    proof {
        lemma_object_view(list);
        assert(member_views(list@) =~= seq![
            (key1@, value1@),
            (key2@, value2@),
            (key3@, value3@),
            (key4@, value4@),
        ]);
    }
    Json::Object(list)
}

/// An array of strings.
pub fn string_array(items: &Vec<String>) -> (r: Json)
    ensures
        r@ == JsonView::Array(crate::text::texts(items@).map_values(|s: Seq<char>| JsonView::Str(s))),
{
    let mut out: Vec<Json> = Vec::new();
    let mut i: usize = 0;
    while i < items.len()
        invariant
            i <= items@.len(),
            out@.len() == i,
            forall|k: int| 0 <= k < i ==> (#[trigger] out@[k])@ == JsonView::Str(items@[k]@),
        decreases items@.len() - i,
    {
        out.push(Json::Str(items[i].clone()));
        i += 1;
    }
    proof {
        lemma_array_view(out);
        assert(json_views(out@) =~= crate::text::texts(items@).map_values(
            |s: Seq<char>| JsonView::Str(s),
        ));
    }
    Json::Array(out)
}

} // verus!
