//! JSON values, as far as a stats document is read from them. The text is
//! parsed by `serde_json`; what is read from the parsed value is this
//! crate's own.

use vstd::prelude::*;

verus! {

/// A JSON value as a mathematical tree.
pub enum Json {
    Null,
    Bool(bool),
    /// A number that the parser holds as an integer. Those within the
    /// range of `i64` are the ones that a [`JsonValue`] can hold.
    Integer(int),
    /// Any other number: one that the parser holds as a float, such as a
    /// number with a fraction or an exponent, or as an integer beyond the
    /// range of `i64`.
    OtherNumber,
    Text(Seq<char>),
    Array(Seq<Json>),
    /// The members of an object.
    Object(Seq<JsonMember>),
}

/// A member of an object: a key with its value.
pub struct JsonMember {
    pub key: Seq<char>,
    pub value: Json,
}

/// A JSON value. Its view is the [`Json`] tree of the same shape.
#[derive(Debug, PartialEq, Eq)]
pub enum JsonValue {
    Null,
    Bool(bool),
    Integer(i64),
    OtherNumber,
    Text(String),
    Array(Vec<JsonValue>),
    Object(Vec<(String, JsonValue)>),
}

impl View for JsonValue {
    type V = Json;

    open spec fn view(&self) -> Json
        decreases self,
    {
        match self {
            JsonValue::Null => Json::Null,
            JsonValue::Bool(value) => Json::Bool(*value),
            JsonValue::Integer(number) => Json::Integer(*number as int),
            JsonValue::OtherNumber => Json::OtherNumber,
            JsonValue::Text(text) => Json::Text(text@),
            JsonValue::Array(items) => Json::Array(
                Seq::new(
                    items@.len(),
                    |i: int|
                        if 0 <= i < items@.len() {
                            items@[i]@
                        } else {
                            Json::Null
                        },
                ),
            ),
            JsonValue::Object(members) => Json::Object(
                Seq::new(
                    members@.len(),
                    |i: int|
                        if 0 <= i < members@.len() {
                            JsonMember { key: members@[i].0@, value: members@[i].1@ }
                        } else {
                            JsonMember { key: Seq::empty(), value: Json::Null }
                        },
                ),
            ),
        }
    }
}

/// The trees of a list of values.
pub open spec fn items_view(items: Seq<JsonValue>) -> Seq<Json> {
    Seq::new(items.len(), |i: int| items[i]@)
}

/// The keys and trees of a list of members.
pub open spec fn members_view(members: Seq<(String, JsonValue)>) -> Seq<JsonMember> {
    Seq::new(members.len(), |i: int| JsonMember { key: members[i].0@, value: members[i].1@ })
}

/// The view of an array is the array of the views of its items.
pub proof fn lemma_array_view(items: Vec<JsonValue>)
    ensures
        JsonValue::Array(items)@ == Json::Array(items_view(items@)),
{
    assert(JsonValue::Array(items)@->Array_0 =~= items_view(items@));
}

/// The view of an object is the object of the keys and views of its
/// members.
pub proof fn lemma_object_view(members: Vec<(String, JsonValue)>)
    ensures
        JsonValue::Object(members)@ == Json::Object(members_view(members@)),
{
    assert(JsonValue::Object(members)@->Object_0 =~= members_view(members@));
}

/// `serde_json::Value`, carried from the parser to the conversion.
#[verifier::external_type_specification]
#[verifier::external_body]
pub struct ExValue(serde_json::Value);

/// What a `serde_json::Value` holds, as a tree.
pub uninterp spec fn json_view(value: serde_json::Value) -> Json;

/// The tree that `serde_json` reads from a text, where the text is JSON.
pub uninterp spec fn json_document(text: Seq<char>) -> Option<Json>;

/// The top of a `serde_json::Value`: which variant it is, with what the
/// variant holds borrowed from the value.
enum JsonLayer<'a> {
    Null,
    Bool(bool),
    /// A number, as an `i64` where it is one.
    Number(Option<i64>),
    Text(&'a String),
    Array(&'a Vec<serde_json::Value>),
    Object(Vec<(&'a String, &'a serde_json::Value)>),
}

/// The tree of a value whose top is `layer`.
spec fn layer_view(layer: JsonLayer) -> Json {
    match layer {
        JsonLayer::Null => Json::Null,
        JsonLayer::Bool(value) => Json::Bool(value),
        JsonLayer::Number(Some(number)) => Json::Integer(number as int),
        JsonLayer::Number(None) => Json::OtherNumber,
        JsonLayer::Text(text) => Json::Text(text@),
        JsonLayer::Array(items) => Json::Array(
            Seq::new(items@.len(), |i: int| json_view(items@[i])),
        ),
        JsonLayer::Object(members) => Json::Object(
            Seq::new(
                members@.len(),
                |i: int| JsonMember { key: members@[i].0@, value: json_view(*members@[i].1) },
            ),
        ),
    }
}

/// `serde_json::from_str` at type `serde_json::Value`: the parsed value,
/// or `None` where the parser reports an error. The parser is a function
/// of the text alone, so what it reads is given a name.
#[verifier::external_body]
fn parse_value(text: &str) -> (value: Option<serde_json::Value>)
    ensures
        match value {
            Some(parsed) => json_document(text@) == Some(json_view(parsed)),
            None => json_document(text@) is None,
        },
{
    serde_json::from_str::<serde_json::Value>(text).ok()
}

/// Tells the variants of a `serde_json::Value` apart and hands out what
/// the variant holds: `Number::as_i64` of a number, the string, the
/// vector of an array, the entries of an object's map in the map's order.
/// The tree of the value is the tree of this top with the trees of the
/// values below it.
#[verifier::external_body]
fn json_layer<'a>(value: &'a serde_json::Value) -> (layer: JsonLayer<'a>)
    ensures
        layer_view(layer) == json_view(*value),
{
    match value {
        serde_json::Value::Null => JsonLayer::Null,
        serde_json::Value::Bool(b) => JsonLayer::Bool(*b),
        serde_json::Value::Number(n) => JsonLayer::Number(n.as_i64()),
        serde_json::Value::String(s) => JsonLayer::Text(s),
        serde_json::Value::Array(a) => JsonLayer::Array(a),
        serde_json::Value::Object(o) => JsonLayer::Object(o.iter().collect()),
    }
}

/// Copies a parsed value into a [`JsonValue`] of the same tree.
fn json_from(value: &serde_json::Value) -> (tree: JsonValue)
    ensures
        tree@ == json_view(*value),
    decreases json_view(*value),
{
    let ghost parent = json_view(*value);
    match json_layer(value) {
        JsonLayer::Null => JsonValue::Null,
        JsonLayer::Bool(b) => JsonValue::Bool(b),
        JsonLayer::Number(Some(number)) => JsonValue::Integer(number),
        JsonLayer::Number(None) => JsonValue::OtherNumber,
        JsonLayer::Text(text) => JsonValue::Text(text.clone()),
        JsonLayer::Array(items) => {
            let mut trees: Vec<JsonValue> = Vec::new();
            let mut k: usize = 0;
            while k < items.len()
                invariant
                    parent == json_view(*value),
                    parent is Array,
                    parent->Array_0.len() == items@.len(),
                    forall|i: int|
                        0 <= i < items@.len() ==> parent->Array_0[i] == json_view(items@[i]),
                    k <= items.len(),
                    trees@.len() == k,
                    forall|i: int| 0 <= i < k ==> (#[trigger] trees@[i])@ == parent->Array_0[i],
                decreases items.len() - k,
            {
                proof {
                    assert(decreases_to!(parent => parent->Array_0));
                    assert(decreases_to!(parent->Array_0 => parent->Array_0[k as int]));
                }
                let tree = json_from(&items[k]);
                trees.push(tree);
                k += 1;
            }
            proof {
                lemma_array_view(trees);
                assert(items_view(trees@) =~= parent->Array_0);
            }
            JsonValue::Array(trees)
        },
        JsonLayer::Object(members) => {
            let mut trees: Vec<(String, JsonValue)> = Vec::new();
            let mut k: usize = 0;
            while k < members.len()
                invariant
                    parent == json_view(*value),
                    parent is Object,
                    parent->Object_0.len() == members@.len(),
                    forall|i: int|
                        0 <= i < members@.len() ==> parent->Object_0[i] == (JsonMember {
                            key: members@[i].0@,
                            value: json_view(*members@[i].1),
                        }),
                    k <= members.len(),
                    trees@.len() == k,
                    forall|i: int|
                        0 <= i < k ==> (JsonMember {
                            key: (#[trigger] trees@[i]).0@,
                            value: trees@[i].1@,
                        }) == parent->Object_0[i],
                decreases members.len() - k,
            {
                proof {
                    assert(decreases_to!(parent => parent->Object_0));
                    assert(decreases_to!(parent->Object_0 => parent->Object_0[k as int]));
                    assert(decreases_to!(parent->Object_0[k as int] => parent->Object_0[k as int].value));
                }
                let tree = json_from(members[k].1);
                trees.push((members[k].0.clone(), tree));
                k += 1;
            }
            proof {
                lemma_object_view(trees);
                assert(members_view(trees@) =~= parent->Object_0);
            }
            JsonValue::Object(trees)
        },
    }
}

/// The value of the first member under `key`, if there is one.
pub open spec fn member(members: Seq<JsonMember>, key: Seq<char>) -> Option<Json>
    decreases members.len(),
{
    if members.len() == 0 {
        None
    } else if members[0].key == key {
        Some(members[0].value)
    } else {
        member(members.skip(1), key)
    }
}

/// The model of a member that was looked up.
pub open spec fn found_view(found: Option<&JsonValue>) -> Option<Json> {
    match found {
        Some(value) => Some(value@),
        None => None,
    }
}

/// The model of a parsed value.
pub open spec fn parsed_view(value: Option<JsonValue>) -> Option<Json> {
    match value {
        Some(tree) => Some(tree@),
        None => None,
    }
}

/// Parses a JSON text.
pub fn parse_json(text: &str) -> (value: Option<JsonValue>)
    ensures
        parsed_view(value) == json_document(text@),
{
    match parse_value(text) {
        Some(parsed) => Some(json_from(&parsed)),
        None => None,
    }
}

/// Looks up a member of an object by its key.
pub fn find_member<'a>(members: &'a Vec<(String, JsonValue)>, key: &str) -> (found: Option<
    &'a JsonValue,
>)
    ensures
        found_view(found) == member(members_view(members@), key@),
{
    let ghost all = members_view(members@);
    let wanted = String::from_str(key);
    let mut i: usize = 0;
    assert(all.skip(0) =~= all);
    while i < members.len()
        invariant
            i <= members.len(),
            wanted@ == key@,
            all == members_view(members@),
            member(all, key@) == member(all.skip(i as int), key@),
        decreases members.len() - i,
    {
        assert(all.skip(i as int)[0] == all[i as int]);
        assert(all.skip(i as int).skip(1) =~= all.skip(i as int + 1));
        if members[i].0 == wanted {
            return Some(&members[i].1);
        }
        i += 1;
    }
    None
}

} // verus!
