//! JSON values: the opaque `serde_json` value that schemas and results are
//! carried in, and a plain model of JSON documents that the scanners read.
use vstd::prelude::*;

use crate::text::str_eq;

verus! {

#[verifier::external_type_specification]
#[verifier::external_body]
pub struct ExOpaqueJson(serde_json::Value);

#[verifier::external_type_specification]
#[verifier::external_body]
pub struct ExJsonNumber(serde_json::Number);

/// A JSON document as plain values. Object members keep their order;
/// numbers are carried as they are.
pub enum JsonValue {
    Null,
    Bool(bool),
    Number(serde_json::Number),
    String(String),
    Array(Vec<JsonValue>),
    Object(Vec<(String, JsonValue)>),
}

/// A document that is neither an array nor an object.
pub open spec fn is_leaf(v: JsonValue) -> bool {
    !(v is Array) && !(v is Object)
}

/// The plain value of a document that is neither an array nor an object.
pub enum JsonLeaf {
    Null,
    Bool(bool),
    Number(serde_json::Number),
    Text(Seq<char>),
}

/// The plain value of a leaf document.
pub open spec fn leaf_of(v: JsonValue) -> JsonLeaf {
    match v {
        JsonValue::Bool(b) => JsonLeaf::Bool(b),
        JsonValue::Number(n) => JsonLeaf::Number(n),
        JsonValue::String(s) => JsonLeaf::Text(s@),
        _ => JsonLeaf::Null,
    }
}

/// The `serde_json` value of a leaf: null, a boolean, a number or a
/// string.
pub uninterp spec fn json_leaf_value(leaf: JsonLeaf) -> serde_json::Value;

/// The `serde_json` array of the given elements.
pub uninterp spec fn json_array_value(items: Seq<serde_json::Value>) -> serde_json::Value;

/// The `serde_json` object of the given members, in order.
pub uninterp spec fn json_object_value(members: Seq<(Seq<char>, serde_json::Value)>) -> serde_json::Value;

/// The `serde_json` value of a document.
pub open spec fn serde_of(v: JsonValue) -> serde_json::Value
    decreases v, 0nat,
{
    match v {
        JsonValue::Null => json_leaf_value(leaf_of(v)),
        JsonValue::Bool(_) => json_leaf_value(leaf_of(v)),
        JsonValue::Number(_) => json_leaf_value(leaf_of(v)),
        JsonValue::String(_) => json_leaf_value(leaf_of(v)),
        JsonValue::Array(items) => json_array_value(serde_list(items@)),
        JsonValue::Object(members) => json_object_value(serde_members(members@)),
    }
}

/// The `serde_json` values of a list of documents.
pub open spec fn serde_list(items: Seq<JsonValue>) -> Seq<serde_json::Value>
    decreases items, 1nat,
{
    if items.len() == 0 {
        Seq::empty()
    } else {
        serde_list(items.drop_last()).push(serde_of(items.last()))
    }
}

/// The `serde_json` members of a list of object members.
pub open spec fn serde_members(members: Seq<(String, JsonValue)>) -> Seq<(Seq<char>, serde_json::Value)>
    decreases members, 1nat,
{
    if members.len() == 0 {
        Seq::empty()
    } else {
        serde_members(members.drop_last()).push((members.last().0@, serde_of(members.last().1)))
    }
}


/// The `serde_json` value of a leaf document (`Value::Null`, `Value::Bool`,
/// `Value::Number` with a copy of the number, `Value::String`).
#[verifier::external_body]
fn leaf_to_serde(v: &JsonValue) -> (r: serde_json::Value)
    requires
        is_leaf(*v),
    ensures
        r == json_leaf_value(leaf_of(*v)),
{
    match v {
        JsonValue::Bool(b) => serde_json::Value::Bool(*b),
        JsonValue::Number(n) => serde_json::Value::Number(n.clone()),
        JsonValue::String(s) => serde_json::Value::String(s.clone()),
        _ => serde_json::Value::Null,
    }
}

/// The `serde_json` array of the given elements (`Value::Array`).
#[verifier::external_body]
fn array_to_serde(items: Vec<serde_json::Value>) -> (r: serde_json::Value)
    ensures
        r == json_array_value(items@),
{
    serde_json::Value::Array(items)
}

/// The `serde_json` object of the given members, in order
/// (`Value::Object` of the collected members).
#[verifier::external_body]
fn object_to_serde(members: Vec<(String, serde_json::Value)>) -> (r: serde_json::Value)
    ensures
        r == json_object_value(members@.map_values(|m: (String, serde_json::Value)| (m.0@, m.1))),
{
    serde_json::Value::Object(members.into_iter().collect())
}

/// The plain document of a `serde_json` value, member order kept; turned
/// back into a `serde_json` value it gives the same value (an object's keys
/// are distinct, and `serde_json` collects members in order).
#[verifier::external_body]
pub(crate) fn json_document(v: &serde_json::Value) -> (r: JsonValue)
    ensures
        serde_of(r) == *v,
{
    match v {
        serde_json::Value::Null => JsonValue::Null,
        serde_json::Value::Bool(b) => JsonValue::Bool(*b),
        serde_json::Value::Number(n) => JsonValue::Number(n.clone()),
        serde_json::Value::String(t) => JsonValue::String(t.clone()),
        serde_json::Value::Array(items) => JsonValue::Array(items.iter().map(json_document).collect()),
        serde_json::Value::Object(members) => JsonValue::Object(
            members.iter().map(|(k, x)| (k.clone(), json_document(x))).collect(),
        ),
    }
}

/// The `serde_json` value of a document.
pub fn to_serde(v: &JsonValue) -> (r: serde_json::Value)
    ensures
        r == serde_of(*v),
    decreases v,
{
    match v {
        JsonValue::Array(items) => {
            let mut out: Vec<serde_json::Value> = Vec::new();
            let mut i: usize = 0;
            while i < items.len()
                invariant
                    i <= items@.len(),
                    *v == JsonValue::Array(*items),
                    out@ == serde_list(items@.take(i as int)),
                decreases items.len() - i,
            {
                assert(items@.take(i + 1).drop_last() =~= items@.take(i as int));
                proof {
                    let vv = *v;
                    assert(decreases_to!(vv => vv->Array_0));
                    assert(decreases_to!(vv->Array_0 => vv->Array_0@));
                    assert(decreases_to!(vv->Array_0@ => vv->Array_0@[i as int]));
                }
                let x = to_serde(&items[i]);
                out.push(x);
                i = i + 1;
            }
            assert(items@.take(items@.len() as int) =~= items@);
            array_to_serde(out)
        },
        JsonValue::Object(members) => {
            let mut out: Vec<(String, serde_json::Value)> = Vec::new();
            let mut i: usize = 0;
            while i < members.len()
                invariant
                    i <= members@.len(),
                    *v == JsonValue::Object(*members),
                    out@.map_values(|m: (String, serde_json::Value)| (m.0@, m.1)) == serde_members(
                        members@.take(i as int),
                    ),
                decreases members.len() - i,
            {
                assert(members@.take(i + 1).drop_last() =~= members@.take(i as int));
                proof {
                    let vv = *v;
                    assert(decreases_to!(vv => vv->Object_0));
                    assert(decreases_to!(vv->Object_0 => vv->Object_0@));
                    assert(decreases_to!(vv->Object_0@ => vv->Object_0@[i as int]));
                    assert(decreases_to!(vv->Object_0@[i as int] => vv->Object_0@[i as int].1));
                }
                let x = to_serde(&members[i].1);
                let k = members[i].0.clone();
                let ghost before = out@;
                out.push((k, x));
                assert(out@.map_values(|m: (String, serde_json::Value)| (m.0@, m.1)) =~= before.map_values(
                    |m: (String, serde_json::Value)| (m.0@, m.1),
                ).push((k@, x)));
                i = i + 1;
            }
            assert(members@.take(members@.len() as int) =~= members@);
            object_to_serde(out)
        },
        _ => leaf_to_serde(v),
    }
}


/// The value of the first member named `key`.
pub open spec fn member(members: Seq<(String, JsonValue)>, key: Seq<char>) -> Option<JsonValue>
    decreases members.len(),
{
    if members.len() == 0 {
        None
    } else if members[0].0@ == key {
        Some(members[0].1)
    } else {
        member(members.drop_first(), key)
    }
}

/// The value of member `key` of an object; `None` for any other document.
pub open spec fn json_get(v: JsonValue, key: Seq<char>) -> Option<JsonValue> {
    match v {
        JsonValue::Object(m) => member(m@, key),
        _ => None,
    }
}

/// The text of a string document.
pub open spec fn json_text(v: Option<JsonValue>) -> Option<Seq<char>> {
    match v {
        Some(JsonValue::String(s)) => Some(s@),
        _ => None,
    }
}

proof fn lemma_member_skip(members: Seq<(String, JsonValue)>, key: Seq<char>, i: int)
    requires
        0 <= i <= members.len(),
        forall|j: int| 0 <= j < i ==> (#[trigger] members[j]).0@ != key,
    ensures
        member(members, key) == member(members.skip(i), key),
    decreases i,
{
    if i > 0 {
        assert(members.drop_first().skip(i - 1) =~= members.skip(i));
        assert forall|j: int| 0 <= j < i - 1 implies (#[trigger] members.drop_first()[j]).0@ != key by {
            assert(members.drop_first()[j] == members[j + 1]);
        }
        lemma_member_skip(members.drop_first(), key, i - 1);
    } else {
        assert(members.skip(0) =~= members);
    }
}

/// Member `key` of an object document.
pub fn get<'a>(v: &'a JsonValue, key: &str) -> (r: Option<&'a JsonValue>)
    ensures
        match r {
            Some(x) => json_get(*v, key@) == Some(*x),
            None => json_get(*v, key@) is None,
        },
{
    match v {
        JsonValue::Object(members) => {
            let mut i: usize = 0;
            while i < members.len()
                invariant
                    i <= members@.len(),
                    *v == JsonValue::Object(*members),
                    forall|j: int| 0 <= j < i ==> (#[trigger] members@[j]).0@ != key@,
                decreases members.len() - i,
            {
                if str_eq(members[i].0.as_str(), key) {
                    proof {
                        lemma_member_skip(members@, key@, i as int);
                        assert(members@.skip(i as int)[0] == members@[i as int]);
                    }
                    return Some(&members[i].1);
                }
                i = i + 1;
            }
            proof {
                lemma_member_skip(members@, key@, members@.len() as int);
            }
            None
        },
        _ => None,
    }
}


/// The schema `{"type": "object"}`.
pub open spec fn object_type_schema() -> serde_json::Value {
    json_object_value(seq![("type"@, json_leaf_value(JsonLeaf::Text("object"@)))])
}

/// Builds the schema `{"type": "object"}`.
pub fn new_object_type_schema() -> (r: serde_json::Value)
    ensures
        r == object_type_schema(),
{
    let key = crate::text::string_of("type");
    let text = crate::text::string_of("object");
    let leaf = JsonValue::String(text);
    let leaf_serde = leaf_to_serde(&leaf);
    let mut members: Vec<(String, serde_json::Value)> = Vec::new();
    members.push((key, leaf_serde));
    assert(members@.map_values(|m: (String, serde_json::Value)| (m.0@, m.1)) =~= seq![
        ("type"@, json_leaf_value(JsonLeaf::Text("object"@))),
    ]);
    object_to_serde(members)
}

} // verus!
