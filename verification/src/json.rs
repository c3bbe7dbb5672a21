//! JSON documents as the resource codecs read and write them, with the
//! lookups they use: a field of an object, and a field read as a string,
//! an integer or a flag.

use vstd::prelude::*;
use serde_json::{Number, Value};
use crate::config_doc::well_formed;
use crate::text::{owned, str_eq};

verus! {

/// A JSON value. Integers are kept as `serde_json` keeps them: `PosInt`
/// for those that are not negative and `NegInt` for negative ones; a
/// number with a fraction is kept as its text.
#[derive(Debug)]
pub enum Json {
    Null,
    Bool(bool),
    PosInt(u64),
    NegInt(i64),
    Float(String),
    Str(String),
    Array(Vec<Json>),
    Object(Vec<(String, Json)>),
}

/// The value of the first entry named `key`.
pub open spec fn entries_get(entries: Seq<(String, Json)>, key: Seq<char>) -> Option<Json>
    decreases entries.len(),
{
    if entries.len() == 0 {
        None
    } else if entries[0].0@ == key {
        Some(entries[0].1)
    } else {
        entries_get(entries.drop_first(), key)
    }
}

/// The field `key` of an object; nothing for other values.
pub open spec fn field(v: Json, key: Seq<char>) -> Option<Json> {
    match v {
        Json::Object(entries) => entries_get(entries@, key),
        _ => None,
    }
}

/// `Value::as_str`.
pub open spec fn as_str(v: Option<Json>) -> Option<Seq<char>> {
    match v {
        Some(Json::Str(s)) => Some(s@),
        _ => None,
    }
}

/// `Value::as_u64`.
pub open spec fn as_u64(v: Option<Json>) -> Option<u64> {
    match v {
        Some(Json::PosInt(n)) => Some(n),
        _ => None,
    }
}

/// `Value::as_i64`.
pub open spec fn as_i64(v: Option<Json>) -> Option<i64> {
    match v {
        Some(Json::PosInt(n)) => if n <= i64::MAX {
            Some(n as i64)
        } else {
            None
        },
        Some(Json::NegInt(n)) => Some(n),
        _ => None,
    }
}

/// `Value::as_bool`.
pub open spec fn as_bool(v: Option<Json>) -> Option<bool> {
    match v {
        Some(Json::Bool(b)) => Some(b),
        _ => None,
    }
}

/// `Value::as_array`.
pub open spec fn as_array(v: Option<Json>) -> Option<Seq<Json>> {
    match v {
        Some(Json::Array(items)) => Some(items@),
        _ => None,
    }
}

/// A string field, or the empty string.
pub open spec fn str_or_empty(v: Option<Json>) -> Seq<char> {
    match as_str(v) {
        Some(s) => s,
        None => Seq::empty(),
    }
}

/// An unsigned field, or 0.
pub open spec fn u64_or_zero(v: Option<Json>) -> u64 {
    match as_u64(v) {
        Some(n) => n,
        None => 0,
    }
}

/// A signed field, or 0.
pub open spec fn i64_or_zero(v: Option<Json>) -> i64 {
    match as_i64(v) {
        Some(n) => n,
        None => 0,
    }
}

/// The view of an optional string.
pub open spec fn opt_view(s: Option<String>) -> Option<Seq<char>> {
    match s {
        Some(s) => Some(s@),
        None => None,
    }
}

/// A JSON integer holding `n`.
pub open spec fn int_value(n: i64) -> Json {
    if n >= 0 {
        Json::PosInt(n as u64)
    } else {
        Json::NegInt(n)
    }
}

/// `v` holds the string `s`.
pub open spec fn is_str(v: Option<Json>, s: Seq<char>) -> bool {
    v matches Some(Json::Str(t)) && t@ == s
}

/// The field `key` of an object.
pub fn get<'a>(v: &'a Json, key: &str) -> (r: Option<&'a Json>)
    ensures
        match r {
            Some(x) => field(*v, key@) === Some(*x),
            None => field(*v, key@) is None,
        },
{
    match v {
        Json::Object(entries) => {
            let mut i: usize = 0;
            assert(entries@.skip(0) =~= entries@);
            while i < entries.len()
                invariant
                    i <= entries.len(),
                    field(*v, key@) == entries_get(entries@, key@),
                    entries_get(entries@, key@) == entries_get(entries@.skip(i as int), key@),
                decreases entries.len() - i,
            {
                assert(entries@.skip(i as int).drop_first() =~= entries@.skip(i + 1));
                assert(entries@.skip(i as int)[0] == entries@[i as int]);
                if str_eq(entries[i].0.as_str(), key) {
                    assert(entries_get(entries@.skip(i as int), key@) == Some(entries@[i as int].1));
                    return Some(&entries[i].1);
                }
                i += 1;
            }
            None
        },
        _ => None,
    }
}

/// A string field, or the empty string.
pub fn str_field(v: &Json, key: &str) -> (r: String)
    ensures
        r@ == str_or_empty(field(*v, key@)),
{
    match get(v, key) {
        Some(Json::Str(s)) => owned(s.as_str()),
        _ => String::new(),
    }
}

/// A string field, if it is one.
pub fn opt_str_field(v: &Json, key: &str) -> (r: Option<String>)
    ensures
        opt_view(r) == as_str(field(*v, key@)),
{
    match get(v, key) {
        Some(Json::Str(s)) => Some(owned(s.as_str())),
        _ => None,
    }
}

/// An unsigned field, or 0.
pub fn u64_field(v: &Json, key: &str) -> (r: u64)
    ensures
        r == u64_or_zero(field(*v, key@)),
{
    match get(v, key) {
        Some(Json::PosInt(n)) => *n,
        _ => 0,
    }
}

/// A signed field, if it is one that fits.
pub fn opt_i64_field(v: &Json, key: &str) -> (r: Option<i64>)
    ensures
        r == as_i64(field(*v, key@)),
{
    match get(v, key) {
        Some(Json::PosInt(n)) => if *n <= 9223372036854775807u64 {
            Some(*n as i64)
        } else {
            None
        },
        Some(Json::NegInt(n)) => Some(*n),
        _ => None,
    }
}

/// A signed field, or 0.
pub fn i64_field(v: &Json, key: &str) -> (r: i64)
    ensures
        r == i64_or_zero(field(*v, key@)),
{
    match opt_i64_field(v, key) {
        Some(n) => n,
        None => 0,
    }
}

/// A flag field, or `false`.
pub fn bool_field(v: &Json, key: &str) -> (r: bool)
    ensures
        r == (as_bool(field(*v, key@)) == Some(true)),
{
    match get(v, key) {
        Some(Json::Bool(b)) => *b,
        _ => false,
    }
}

/// A JSON integer holding `n`.
pub fn int_json(n: i64) -> (r: Json)
    ensures
        r == int_value(n),
{
    if n >= 0 {
        Json::PosInt(n as u64)
    } else {
        Json::NegInt(n)
    }
}

/// No two entries of an object share a name.
pub open spec fn keys_distinct(es: Seq<(String, Json)>) -> bool {
    forall|i: int, j: int| 0 <= i < j < es.len() ==> #[trigger] es[i].0@ != #[trigger] es[j].0@
}

/// Sets the entry `key` of an object to `value`, in place when it is
/// there and at the end when it is not (`Map::insert`).
pub fn insert_entry(entries: &mut Vec<(String, Json)>, key: &str, value: Json)
    ensures
        keys_distinct(old(entries)@) ==> keys_distinct(final(entries)@),
        forall|k: Seq<char>| #[trigger]
            entries_get(final(entries)@, k) == if k == key@ {
                Some(value)
            } else {
                entries_get(old(entries)@, k)
            },
{
    let ghost pre = entries@;
    let mut i: usize = 0;
    while i < entries.len()
        invariant
            entries@ == pre,
            pre == old(entries)@,
            i <= entries.len(),
            forall|j: int| 0 <= j < i ==> entries@[j].0@ != key@,
        decreases entries.len() - i,
    {
        if str_eq(entries[i].0.as_str(), key) {
            let k = owned(key);
            entries.set(i, (k, value));
            proof {
                assert(entries@ =~= pre.update(i as int, entries@[i as int]));
                assert(entries@[i as int].0@ == key@);
                if keys_distinct(pre) {
                    assert forall|a: int, b: int| 0 <= a < b < entries@.len() implies #[trigger] entries@[a].0@
                        != #[trigger] entries@[b].0@ by {
                        if a == i {
                            assert(pre[a].0@ == key@);
                            assert(pre[b].0@ != pre[a].0@);
                        } else if b == i {
                            assert(pre[b].0@ == key@);
                            assert(pre[a].0@ != pre[b].0@);
                        } else {
                            assert(pre[a].0@ != pre[b].0@);
                        }
                    }
                }
                assert forall|k: Seq<char>| #[trigger]
                    entries_get(entries@, k) == if k == key@ {
                        Some(value)
                    } else {
                        entries_get(pre, k)
                    } by {
                    lemma_entries_get_update(pre, i as int, entries@[i as int], k);
                    lemma_entries_get_first(pre, i as int, key@);
                };
            }
            return;
        }
        i += 1;
    }
    entries.push((owned(key), value));
    proof {
        assert(entries@ =~= pre.push(entries@[pre.len() as int]));
        if keys_distinct(pre) {
            assert forall|a: int, b: int| 0 <= a < b < entries@.len() implies #[trigger] entries@[a].0@
                != #[trigger] entries@[b].0@ by {
                if b == pre.len() {
                    assert(entries@[a] == pre[a]);
                    assert(pre[a].0@ != key@);
                } else {
                    assert(entries@[a] == pre[a] && entries@[b] == pre[b]);
                }
            }
        }
        assert forall|k: Seq<char>| #[trigger]
            entries_get(entries@, k) == if k == key@ {
                Some(value)
            } else {
                entries_get(pre, k)
            } by {
            lemma_entries_get_push(pre, entries@[pre.len() as int], k);
            lemma_entries_get_absent(pre, key@);
        };
    }
}

pub proof fn lemma_entries_get_push(es: Seq<(String, Json)>, e: (String, Json), k: Seq<char>)
    ensures
        entries_get(es.push(e), k) == match entries_get(es, k) {
            Some(v) => Some(v),
            None => if e.0@ == k {
                Some(e.1)
            } else {
                None
            },
        },
    decreases es.len(),
{
    let p = es.push(e);
    if es.len() > 0 {
        assert(p[0] == es[0]);
        assert(p.drop_first() =~= es.drop_first().push(e));
        lemma_entries_get_push(es.drop_first(), e, k);
    } else {
        assert(p[0] == e);
        assert(p.drop_first() =~= Seq::<(String, Json)>::empty());
        assert(entries_get(p.drop_first(), k) is None);
        assert(entries_get(es, k) is None);
    }
}

pub proof fn lemma_entries_get_absent(es: Seq<(String, Json)>, k: Seq<char>)
    requires
        forall|j: int| 0 <= j < es.len() ==> es[j].0@ != k,
    ensures
        entries_get(es, k) is None,
    decreases es.len(),
{
    if es.len() > 0 {
        lemma_entries_get_absent(es.drop_first(), k);
    }
}

pub proof fn lemma_entries_get_first(es: Seq<(String, Json)>, i: int, k: Seq<char>)
    requires
        0 <= i < es.len(),
        es[i].0@ == k,
        forall|j: int| 0 <= j < i ==> es[j].0@ != k,
    ensures
        entries_get(es, k) == Some(es[i].1),
    decreases i,
{
    if i > 0 {
        lemma_entries_get_first(es.drop_first(), i - 1, k);
    }
}

pub proof fn lemma_entries_get_update(es: Seq<(String, Json)>, i: int, e: (String, Json), k: Seq<char>)
    requires
        0 <= i < es.len(),
        es[i].0@ == e.0@,
        forall|j: int| 0 <= j < i ==> es[j].0@ != e.0@,
    ensures
        entries_get(es.update(i, e), k) == if k == e.0@ {
            Some(e.1)
        } else {
            entries_get(es, k)
        },
    decreases i,
{
    if i == 0 {
        assert(es.update(0, e).drop_first() =~= es.drop_first());
    } else {
        assert(es.update(i, e).drop_first() =~= es.drop_first().update(i - 1, e));
        lemma_entries_get_update(es.drop_first(), i - 1, e, k);
    }
}

/// Removing an entry under another name leaves what a name finds as it was.
pub proof fn lemma_entries_get_remove_other(es: Seq<(String, Json)>, i: int, k: Seq<char>)
    requires
        0 <= i < es.len(),
        es[i].0@ != k,
    ensures
        entries_get(es.remove(i), k) == entries_get(es, k),
    decreases i,
{
    if i == 0 {
        assert(es.remove(0) =~= es.drop_first());
    } else {
        assert(es.remove(i).drop_first() =~= es.drop_first().remove(i - 1));
        assert(es.remove(i)[0] == es[0]);
        lemma_entries_get_remove_other(es.drop_first(), i - 1, k);
    }
}

/// A name that some entry has finds an entry.
pub proof fn lemma_entries_get_present(es: Seq<(String, Json)>, i: int)
    requires
        0 <= i < es.len(),
    ensures
        entries_get(es, es[i].0@) is Some,
    decreases i,
{
    if i > 0 && es[0].0@ != es[i].0@ {
        lemma_entries_get_present(es.drop_first(), i - 1);
    }
}

/// Takes every entry named `key` out of an object's entries and gives the
/// value of the first (`Map::remove`, for an object that has the name at
/// most once).
pub fn remove_entry(entries: &mut Vec<(String, Json)>, key: &str) -> (r: Option<Json>)
    ensures
        r == entries_get(old(entries)@, key@),
        entries_get(final(entries)@, key@) is None,
        forall|k: Seq<char>|
            k != key@ ==> #[trigger] entries_get(final(entries)@, k) == entries_get(old(entries)@, k),
{
    let ghost pre = entries@;
    let mut first: Option<Json> = None;
    let mut i: usize = 0;
    while i < entries.len()
        invariant
            pre == old(entries)@,
            i <= entries.len(),
            forall|j: int| 0 <= j < i ==> entries@[j].0@ != key@,
            first is None ==> entries_get(entries@, key@) == entries_get(pre, key@),
            first is Some ==> first == entries_get(pre, key@),
            forall|k: Seq<char>|
                k != key@ ==> #[trigger] entries_get(entries@, k) == entries_get(pre, k),
        decreases entries.len() - i,
    {
        if str_eq(entries[i].0.as_str(), key) {
            proof {
                lemma_entries_get_first(entries@, i as int, key@);
            }
            let ghost before = entries@;
            let (_, v) = entries.remove(i);
            proof {
                assert forall|k: Seq<char>| k != key@ implies #[trigger] entries_get(entries@, k)
                    == entries_get(pre, k) by {
                    lemma_entries_get_remove_other(before, i as int, k);
                }
            }
            if first.is_none() {
                first = Some(v);
            }
        } else {
            i += 1;
        }
    }
    proof {
        lemma_entries_get_absent(entries@, key@);
    }
    if first.is_none() {
        proof {
            lemma_entries_get_absent(entries@, key@);
        }
    }
    first
}

// ---------------------------------------------------------------------------
// Reading documents

/// `serde_json::Value`, the value the parsers below read a text into.
#[verifier::external_type_specification]
#[verifier::external_body]
pub struct ExJsonValue(serde_json::Value);

/// The JSON document `serde_json` reads `text` as, as a library value.
pub uninterp spec fn json_document(text: Seq<char>) -> Option<Json>;

/// The document `serde_yaml` reads `text` as, as a library value.
pub uninterp spec fn yaml_document(text: Seq<char>) -> Option<Json>;

/// The document that `toml` reads `text` as and `serde_json::to_value`
/// turns into a JSON value, as a library value.
pub uninterp spec fn toml_document(text: Seq<char>) -> Option<Json>;

/// A `serde_json::Value` as the library's value, one for one: object
/// fields in the order the value holds them, each number as `serde_json`
/// keeps it. It converts the results of the readers below.
#[verifier::external_body]
fn json_of_value(value: serde_json::Value) -> Json {
    match value {
        serde_json::Value::Null => Json::Null,
        serde_json::Value::Bool(b) => Json::Bool(b),
        serde_json::Value::Number(n) => match (n.as_u64(), n.as_i64()) {
            (Some(u), _) => Json::PosInt(u),
            (None, Some(i)) => Json::NegInt(i),
            _ => Json::Float(n.to_string()),
        },
        serde_json::Value::String(s) => Json::Str(s),
        serde_json::Value::Array(items) => Json::Array(items.into_iter().map(json_of_value).collect()),
        serde_json::Value::Object(m) => Json::Object(m.into_iter().map(|(k, v)| (k, json_of_value(v))).collect()),
    }
}

/// `serde_json::from_str::<serde_json::Value>`: `Ok` exactly when
/// [`json_document`] is defined, with that document, whose objects name
/// each field once (a `serde_json::Map` holds one entry per name); the
/// error's text is handed on.
#[verifier::external_body]
pub(crate) fn read_json_document(text: &str) -> (r: Result<Json, String>)
    ensures
        r is Ok <==> json_document(text@) is Some,
        r matches Ok(j) ==> json_document(text@) == Some(j),
        r matches Ok(j) ==> well_formed(j),
{
    serde_json::from_str::<serde_json::Value>(text).map(json_of_value).map_err(|e| e.to_string())
}

/// `serde_yaml::from_str::<serde_json::Value>`: `Ok` exactly when
/// [`yaml_document`] is defined, with that document, whose objects name
/// each field once; the error's text is handed on.
#[verifier::external_body]
pub(crate) fn read_yaml_document(text: &str) -> (r: Result<Json, String>)
    ensures
        r is Ok <==> yaml_document(text@) is Some,
        r matches Ok(j) ==> yaml_document(text@) == Some(j),
        r matches Ok(j) ==> well_formed(j),
{
    serde_yaml::from_str::<serde_json::Value>(text).map(json_of_value).map_err(|e| e.to_string())
}

/// Why `toml` text was not read: the parse failed, or the parsed value did
/// not convert to JSON; each with the crate's words.
#[derive(Clone, Debug)]
pub enum TomlReadError {
    Parse(String),
    Convert(String),
}

/// `toml::from_str::<toml::Value>`, then `serde_json::to_value`: `Ok`
/// exactly when [`toml_document`] is defined, with that document, whose
/// objects name each field once. Which of
/// the two steps failed is handed on, with its text.
#[verifier::external_body]
pub(crate) fn read_toml_document(text: &str) -> (r: Result<Json, TomlReadError>)
    ensures
        r is Ok <==> toml_document(text@) is Some,
        r matches Ok(j) ==> toml_document(text@) == Some(j),
        r matches Ok(j) ==> well_formed(j),
{
    let value = toml::from_str::<toml::Value>(text).map_err(|e| TomlReadError::Parse(e.to_string()))?;
    let json = serde_json::to_value(value).map_err(|e| TomlReadError::Convert(e.to_string()))?;
    Ok(json_of_value(json))
}

/// Whether `serde_json` reads `text` as one JSON value: exactly when it has
/// a document.
#[verifier::external_body]
pub(crate) fn is_json_text(text: &str) -> (r: bool)
    ensures
        r == json_document(text@) is Some,
{
    serde_json::from_str::<serde_json::Value>(text).is_ok()
}

// ---------------------------------------------------------------------------
// Writing texts

/// The compact JSON text `serde_json` writes a value as: objects as its map
/// holds them, which orders their fields by name and keeps the last of two
/// fields with one name.
pub uninterp spec fn json_text(v: Json) -> Seq<char>;

/// A library value as a `serde_json::Value`, one for one: a number with a
/// fraction from its text (`null` if the text is not a number). It converts
/// the argument of [`json_to_text`].
#[verifier::external_body]
fn value_of_json(v: &Json) -> Value {
    match v {
        Json::Null => Value::Null,
        Json::Bool(b) => Value::Bool(*b),
        Json::PosInt(n) => Value::from(*n),
        Json::NegInt(n) => Value::from(*n),
        Json::Float(t) => t.parse::<Number>().map(Value::Number).unwrap_or(Value::Null),
        Json::Str(t) => Value::String(t.clone()),
        Json::Array(items) => Value::Array(items.iter().map(value_of_json).collect()),
        Json::Object(es) => Value::Object(es.iter().map(|(k, x)| (k.clone(), value_of_json(x))).collect()),
    }
}

/// `serde_json::Value::to_string`: the compact JSON text of a value, as
/// [`json_text`] names it.
#[verifier::external_body]
pub(crate) fn json_to_text(v: &Json) -> (r: String)
    ensures
        r@ == json_text(*v),
{
    value_of_json(v).to_string()
}

} // verus!
