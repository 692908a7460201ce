//! A JSON-shaped document, as the host hands it over in the initialization
//! payload. The resolver reads objects, arrays and strings; numbers are
//! carried through untouched.

use vstd::prelude::*;

verus! {

/// Declares `serde_json::Number` so that a numeric leaf of the payload can be
/// carried through the resolver. The value is opaque: no contract reads it.
#[verifier::external_type_specification]
#[verifier::external_body]
pub struct ExNumber(serde_json::Number);

/// A node of the initialization payload.
#[derive(Debug, PartialEq)]
pub enum JsonValue {
    Null,
    Bool(bool),
    Number(serde_json::Number),
    Text(String),
    Array(Vec<JsonValue>),
    Object(Vec<(String, JsonValue)>),
}

/// The value of the first entry with the given key, if any.
pub open spec fn lookup_entries(es: Seq<(String, JsonValue)>, key: Seq<char>) -> Option<JsonValue>
    decreases es.len(),
{
    if es.len() == 0 {
        None
    } else if es[0].0@ == key {
        Some(es[0].1)
    } else {
        lookup_entries(es.drop_first(), key)
    }
}

/// The value at the given key: objects are looked up, every other node has no
/// fields.
pub open spec fn spec_get(v: JsonValue, key: Seq<char>) -> Option<JsonValue> {
    match v {
        JsonValue::Object(es) => lookup_entries(es@, key),
        _ => None,
    }
}

/// The string entries of an array, in order; entries of any other shape are
/// dropped.
pub open spec fn string_entries(s: Seq<JsonValue>) -> Seq<String>
    decreases s.len(),
{
    if s.len() == 0 {
        Seq::empty()
    } else {
        match s[0] {
            JsonValue::Text(t) => seq![t] + string_entries(s.drop_first()),
            _ => string_entries(s.drop_first()),
        }
    }
}

/// The first of the two options that holds a value.
pub open spec fn first_of(a: Option<JsonValue>, b: Option<JsonValue>) -> Option<JsonValue> {
    if a is Some {
        a
    } else {
        b
    }
}

/// Appending one entry at the back leaves every earlier key in front of it:
/// the appended entry is found only where the key was absent before.
proof fn lemma_lookup_entries_push(
    es: Seq<(String, JsonValue)>,
    e: (String, JsonValue),
    key: Seq<char>,
)
    ensures
        lookup_entries(es.push(e), key) == first_of(
            lookup_entries(es, key),
            if e.0@ == key {
                Some(e.1)
            } else {
                None
            },
        ),
    decreases es.len(),
{
    if es.len() == 0 {
        assert(es.push(e).len() == 1);
        assert(es.push(e)[0] == e);
        assert(es.push(e).drop_first() =~= Seq::<(String, JsonValue)>::empty());
        assert(lookup_entries(es, key) is None);
        if e.0@ == key {
            assert(lookup_entries(es.push(e), key) == Some(e.1));
        } else {
            assert(lookup_entries(es.push(e), key) == lookup_entries(
                es.push(e).drop_first(),
                key,
            ));
        }
    } else {
        assert(es.push(e)[0] == es[0]);
        assert(es.push(e).drop_first() =~= es.drop_first().push(e));
        lemma_lookup_entries_push(es.drop_first(), e, key);
        if es[0].0@ == key {
            assert(lookup_entries(es, key) == Some(es[0].1));
            assert(lookup_entries(es.push(e), key) == Some(es[0].1));
        } else {
            assert(lookup_entries(es, key) == lookup_entries(es.drop_first(), key));
            assert(lookup_entries(es.push(e), key) == lookup_entries(
                es.drop_first().push(e),
                key,
            ));
        }
    }
}

/// Takes the values of two distinct keys out of an object's entries, each the
/// first match of its key.
pub fn take_two_entries(entries: Vec<(String, JsonValue)>, k1: &String, k2: &String) -> (r: (
    Option<JsonValue>,
    Option<JsonValue>,
))
    requires
        k1@ != k2@,
    ensures
        r.0 == lookup_entries(entries@, k1@),
        r.1 == lookup_entries(entries@, k2@),
{
    let ghost all = entries@;
    let mut entries = entries;
    let mut r1: Option<JsonValue> = None;
    let mut r2: Option<JsonValue> = None;
    while entries.len() > 0
        invariant
            k1@ != k2@,
            first_of(lookup_entries(entries@, k1@), r1) == lookup_entries(all, k1@),
            first_of(lookup_entries(entries@, k2@), r2) == lookup_entries(all, k2@),
        decreases entries.len(),
    {
        let ghost before = entries@;
        let e = entries.pop().unwrap();
        proof {
            assert(before =~= entries@.push(e));
            lemma_lookup_entries_push(entries@, e, k1@);
            lemma_lookup_entries_push(entries@, e, k2@);
        }
        if e.0 == *k1 {
            r1 = Some(e.1);
        } else if e.0 == *k2 {
            r2 = Some(e.1);
        }
    }
    (r1, r2)
}

/// Takes the values of two distinct keys out of a payload node, each the
/// first match of its key; a node that is no object has no fields.
pub fn take_two_fields(v: JsonValue, k1: &String, k2: &String) -> (r: (
    Option<JsonValue>,
    Option<JsonValue>,
))
    requires
        k1@ != k2@,
    ensures
        r.0 == spec_get(v, k1@),
        r.1 == spec_get(v, k2@),
{
    match v {
        JsonValue::Object(es) => take_two_entries(es, k1, k2),
        _ => (None, None),
    }
}

/// Keeps the string entries of an array, in order, and drops the rest.
pub fn extract_string_entries(items: Vec<JsonValue>) -> (r: Vec<String>)
    ensures
        r@ == string_entries(items@),
{
    let ghost all = items@;
    let mut items = items;
    let mut r: Vec<String> = Vec::new();
    proof {
        assert(string_entries(all) =~= r@ + string_entries(items@));
    }
    while items.len() > 0
        invariant
            string_entries(all) == r@ + string_entries(items@),
        decreases items.len(),
    {
        let ghost before = items@;
        let v = items.remove(0);
        proof {
            assert(items@ =~= before.drop_first());
        }
        match v {
            JsonValue::Text(s) => {
                r.push(s);
                proof {
                    assert(string_entries(all) =~= r@ + string_entries(items@));
                }
            },
            JsonValue::Null => {},
            JsonValue::Bool(_) => {},
            JsonValue::Number(_) => {},
            JsonValue::Array(_) => {},
            JsonValue::Object(_) => {},
        }
    }
    proof {
        assert(string_entries(all) =~= r@);
    }
    r
}

} // verus!
