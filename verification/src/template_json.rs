//! Object metadata and Template specs as JSON documents: what a document
//! is read as and what a value is written as.

use vstd::prelude::*;
use crate::fields::meta_pairs;
use crate::json::{entries_get, field, get, insert_entry, json_text, opt_view, str_field, str_or_empty, Json};
use crate::manifest_checks::ManifestError;
use crate::spec_json::{json_field_or_string, json_field_text};
use crate::status_json::{entries_of, lemma_empty_entries, within};
use crate::text::owned;

verus! {

// ---------------------------------------------------------------------------
// Object metadata

/// A resource's metadata as a manifest gives it.
#[derive(Clone, Debug)]
pub struct ObjectMeta {
    pub name: String,
    pub namespace: String,
    pub labels: Vec<(String, String)>,
    pub annotations: Vec<(String, String)>,
}

/// The plain values of object metadata.
pub struct MetaView {
    pub name: Seq<char>,
    pub namespace: Seq<char>,
    pub labels: Seq<(Seq<char>, Seq<char>)>,
    pub annotations: Seq<(Seq<char>, Seq<char>)>,
}

pub open spec fn meta_view(m: ObjectMeta) -> MetaView {
    MetaView {
        name: m.name@,
        namespace: m.namespace@,
        labels: meta_pairs(m.labels@),
        annotations: meta_pairs(m.annotations@),
    }
}

/// What a value reads as where a string is wanted: only a string does.
pub open spec fn text_of(j: Json) -> Option<Seq<char>> {
    match j {
        Json::Str(s) => Some(s@),
        _ => None,
    }
}

/// The entries of an object read as pairs of strings, in order; nothing
/// when a value is not a string.
pub open spec fn string_pairs_of(es: Seq<(String, Json)>) -> Option<Seq<(Seq<char>, Seq<char>)>>
    decreases es.len(),
{
    if es.len() == 0 {
        Some(Seq::empty())
    } else {
        match (string_pairs_of(es.drop_last()), text_of(es.last().1)) {
            (Some(ps), Some(t)) => Some(ps.push((es.last().0@, t))),
            _ => None,
        }
    }
}

/// What a value reads as where a map of strings is wanted: only an object
/// whose values are all strings does.
pub open spec fn string_map_of(j: Json) -> Option<Seq<(Seq<char>, Seq<char>)>> {
    match j {
        Json::Object(es) => string_pairs_of(es@),
        _ => None,
    }
}

/// A string field that defaults to empty.
pub open spec fn text_or_empty(v: Option<Json>) -> Option<Seq<char>> {
    match v {
        Some(x) => text_of(x),
        None => Some(Seq::empty()),
    }
}

/// A map field that defaults to empty.
pub open spec fn map_or_empty(v: Option<Json>) -> Option<Seq<(Seq<char>, Seq<char>)>> {
    match v {
        Some(x) => string_map_of(x),
        None => Some(Seq::empty()),
    }
}

/// Metadata of four parts that each read.
pub open spec fn meta_of_parts(
    name: Option<Seq<char>>,
    namespace: Option<Seq<char>>,
    labels: Option<Seq<(Seq<char>, Seq<char>)>>,
    annotations: Option<Seq<(Seq<char>, Seq<char>)>>,
) -> Option<MetaView> {
    match (name, namespace, labels, annotations) {
        (Some(n), Some(ns), Some(l), Some(a)) => Some(
            MetaView { name: n, namespace: ns, labels: l, annotations: a },
        ),
        _ => None,
    }
}

/// What a metadata document reads as: an object with a string `name` and
/// optional string `namespace` and string maps `labels` and `annotations`,
/// other fields being ignored; or those four in that order in an array of
/// one to four items. Nothing for any other document.
pub open spec fn meta_of_json(j: Json) -> Option<MetaView> {
    match j {
        Json::Object(_) => meta_of_parts(
            match field(j, "name"@) {
                Some(x) => text_of(x),
                None => None,
            },
            text_or_empty(field(j, "namespace"@)),
            map_or_empty(field(j, "labels"@)),
            map_or_empty(field(j, "annotations"@)),
        ),
        Json::Array(items) => if 1 <= items@.len() <= 4 {
            meta_of_parts(
                text_of(items@[0]),
                if items@.len() > 1 {
                    text_of(items@[1])
                } else {
                    Some(Seq::empty())
                },
                if items@.len() > 2 {
                    string_map_of(items@[2])
                } else {
                    Some(Seq::empty())
                },
                if items@.len() > 3 {
                    string_map_of(items@[3])
                } else {
                    Some(Seq::empty())
                },
            )
        } else {
            None
        },
        _ => None,
    }
}

proof fn lemma_string_pairs_prefix(es: Seq<(String, Json)>, k: int)
    requires
        0 <= k <= es.len(),
        string_pairs_of(es.subrange(0, k)) is None,
    ensures
        string_pairs_of(es) is None,
    decreases es.len() - k,
{
    if k < es.len() {
        assert(es.subrange(0, k + 1).drop_last() =~= es.subrange(0, k));
        lemma_string_pairs_prefix(es, k + 1);
    } else {
        assert(es.subrange(0, k) =~= es);
    }
}

fn text_value(j: &Json) -> (r: Option<String>)
    ensures
        opt_view(r) == text_of(*j),
{
    match j {
        Json::Str(s) => Some(owned(s.as_str())),
        _ => None,
    }
}

fn string_map_value(j: &Json) -> (r: Option<Vec<(String, String)>>)
    ensures
        match r {
            Some(ps) => string_map_of(*j) == Some(meta_pairs(ps@)),
            None => string_map_of(*j) is None,
        },
{
    match j {
        Json::Object(es) => {
            let mut ps: Vec<(String, String)> = Vec::new();
            let mut i: usize = 0;
            assert(es@.subrange(0, 0) =~= Seq::<(String, Json)>::empty());
            assert(meta_pairs(ps@) =~= Seq::<(Seq<char>, Seq<char>)>::empty());
            while i < es.len()
                invariant
                    i <= es.len(),
                    string_map_of(*j) == string_pairs_of(es@),
                    string_pairs_of(es@.subrange(0, i as int)) == Some(meta_pairs(ps@)),
                decreases es.len() - i,
            {
                assert(es@.subrange(0, i + 1).drop_last() =~= es@.subrange(0, i as int));
                match &es[i].1 {
                    Json::Str(s) => {
                        let pair = (owned(es[i].0.as_str()), owned(s.as_str()));
                        let ghost before = ps@;
                        ps.push(pair);
                        assert(es@.subrange(0, i + 1).last() == es@[i as int]);
                        assert(meta_pairs(ps@) =~= meta_pairs(before).push((pair.0@, pair.1@)));
                    },
                    _ => {
                        proof {
                            assert(es@.subrange(0, i + 1).last() == es@[i as int]);
                            lemma_string_pairs_prefix(es@, i + 1);
                        }
                        return None;
                    },
                }
                i += 1;
            }
            assert(es@.subrange(0, es@.len() as int) =~= es@);
            Some(ps)
        },
        _ => None,
    }
}

/// The plain values of pairs that may be missing.
pub open spec fn opt_pairs(v: Option<Vec<(String, String)>>) -> Option<Seq<(Seq<char>, Seq<char>)>> {
    match v {
        Some(ps) => Some(meta_pairs(ps@)),
        None => None,
    }
}

fn no_pairs() -> (r: Option<Vec<(String, String)>>)
    ensures
        opt_pairs(r) == Some(Seq::<(Seq<char>, Seq<char>)>::empty()),
{
    let v: Vec<(String, String)> = Vec::new();
    assert(meta_pairs(v@) =~= Seq::<(Seq<char>, Seq<char>)>::empty());
    Some(v)
}

fn map_value(j: &Json) -> (r: Option<Vec<(String, String)>>)
    ensures
        opt_pairs(r) == string_map_of(*j),
{
    string_map_value(j)
}

/// Reads object metadata; nothing when the document is not metadata.
pub fn object_meta_from_value(j: &Json) -> (r: Option<ObjectMeta>)
    ensures
        match r {
            Some(m) => meta_of_json(*j) == Some(meta_view(m)),
            None => meta_of_json(*j) is None,
        },
{
    let (name, namespace, labels, annotations) = match j {
        Json::Object(_) => {
            let name = match get(j, "name") {
                Some(x) => text_value(x),
                None => None,
            };
            let namespace = match get(j, "namespace") {
                Some(x) => text_value(x),
                None => Some(String::new()),
            };
            let labels = match get(j, "labels") {
                Some(x) => map_value(x),
                None => no_pairs(),
            };
            let annotations = match get(j, "annotations") {
                Some(x) => map_value(x),
                None => no_pairs(),
            };
            (name, namespace, labels, annotations)
        },
        Json::Array(items) => {
            let n = items.len();
            if n < 1 || n > 4 {
                return None;
            }
            let name = text_value(&items[0]);
            let namespace = if n > 1 {
                text_value(&items[1])
            } else {
                Some(String::new())
            };
            let labels = if n > 2 {
                map_value(&items[2])
            } else {
                no_pairs()
            };
            let annotations = if n > 3 {
                map_value(&items[3])
            } else {
                no_pairs()
            };
            (name, namespace, labels, annotations)
        },
        _ => {
            return None;
        },
    };
    assert(meta_of_json(*j) == meta_of_parts(
        opt_view(name),
        opt_view(namespace),
        opt_pairs(labels),
        opt_pairs(annotations),
    ));
    match (name, namespace, labels, annotations) {
        (Some(name), Some(namespace), Some(labels), Some(annotations)) => {
            Some(ObjectMeta { name, namespace, labels, annotations })
        },
        _ => None,
    }
}

/// Whether `j` is the object of the pairs `ps`, in their order.
pub open spec fn pairs_object(ps: Seq<(Seq<char>, Seq<char>)>, j: Json) -> bool {
    j matches Json::Object(es) && string_pairs_of(es@) == Some(ps)
}

fn pairs_to_json(ps: &Vec<(String, String)>) -> (r: Json)
    ensures
        pairs_object(meta_pairs(ps@), r),
{
    let mut es: Vec<(String, Json)> = Vec::new();
    let mut i: usize = 0;
    assert(meta_pairs(ps@.subrange(0, 0)) =~= Seq::<(Seq<char>, Seq<char>)>::empty());
    while i < ps.len()
        invariant
            i <= ps.len(),
            es@.len() == i,
            string_pairs_of(es@) == Some(meta_pairs(ps@.subrange(0, i as int))),
        decreases ps.len() - i,
    {
        let e = (owned(ps[i].0.as_str()), Json::Str(owned(ps[i].1.as_str())));
        let ghost before = es@;
        es.push(e);
        assert(es@.drop_last() =~= before);
        assert(meta_pairs(ps@.subrange(0, i + 1)) =~= meta_pairs(ps@.subrange(0, i as int)).push(
            (ps@[i as int].0@, ps@[i as int].1@),
        ));
        i += 1;
    }
    assert(ps@.subrange(0, ps@.len() as int) =~= ps@);
    Json::Object(es)
}

/// The fields object metadata is written with.
pub open spec fn meta_keys() -> Set<Seq<char>> {
    set!["name"@, "namespace"@, "labels"@, "annotations"@]
}

/// Whether `j` is the document of the metadata `m`: all four fields, the
/// maps as objects of strings.
pub open spec fn meta_json(m: MetaView, j: Json) -> bool {
    &&& j is Object
    &&& field(j, "name"@) matches Some(Json::Str(t)) && t@ == m.name
    &&& field(j, "namespace"@) matches Some(Json::Str(t)) && t@ == m.namespace
    &&& field(j, "labels"@) matches Some(x) && pairs_object(m.labels, x)
    &&& field(j, "annotations"@) matches Some(x) && pairs_object(m.annotations, x)
    &&& within(entries_of(j), meta_keys())
}

/// Writes object metadata.
pub fn object_meta_to_json(m: &ObjectMeta) -> (r: Json)
    ensures
        meta_json(meta_view(*m), r),
{
    proof {
        lemma_meta_keys();
    }
    let mut es: Vec<(String, Json)> = Vec::new();
    insert_entry(&mut es, "name", Json::Str(owned(m.name.as_str())));
    insert_entry(&mut es, "namespace", Json::Str(owned(m.namespace.as_str())));
    insert_entry(&mut es, "labels", pairs_to_json(&m.labels));
    insert_entry(&mut es, "annotations", pairs_to_json(&m.annotations));
    assert forall|k: Seq<char>| #[trigger] entries_get(es@, k) is Some implies meta_keys().contains(k) by {
        lemma_empty_entries(k);
    }
    Json::Object(es)
}

/// Metadata written and read back is the same metadata.
pub proof fn lemma_meta_round_trip(m: MetaView, j: Json)
    requires
        meta_json(m, j),
    ensures
        meta_of_json(j) == Some(m),
{
}

// ---------------------------------------------------------------------------
// Template specs

/// A Template's spec: the kind and metadata of what it renders, and the
/// JSON text of the rendered spec.
#[derive(Clone, Debug)]
pub struct TemplateSpec {
    pub kind: String,
    pub metadata: Option<ObjectMeta>,
    pub spec_json: String,
}

/// Whether the `metadata` field of a Template spec document reads: it is
/// absent or reads as metadata.
pub open spec fn template_meta_ok(v: Json) -> bool {
    match field(v, "metadata"@) {
        Some(x) => meta_of_json(x) is Some,
        None => true,
    }
}

/// Whether `m` is what the `metadata` field `v` is read as.
pub open spec fn template_meta_read(v: Option<Json>, m: Option<ObjectMeta>) -> bool {
    match v {
        Some(x) => m matches Some(mm) && meta_of_json(x) == Some(meta_view(mm)),
        None => m is None,
    }
}

/// Whether `r` is what a Template spec document `v` is read as: its
/// metadata must read and its spec be JSON, checked in that order.
pub open spec fn template_spec_decoded(v: Json, r: Result<TemplateSpec, ManifestError>) -> bool {
    &&& (r is Ok <==> template_meta_ok(v) && json_field_text(v, "spec"@, "specJson"@) is Some)
    &&& match r {
        Ok(t) => {
            &&& t.kind@ == str_or_empty(field(v, "kind"@))
            &&& template_meta_read(field(v, "metadata"@), t.metadata)
            &&& Some(t.spec_json@) == json_field_text(v, "spec"@, "specJson"@)
        },
        Err(e) => if !template_meta_ok(v) {
            e is InvalidMetadata
        } else {
            e matches ManifestError::InvalidEmbeddedJson { key } && key@ == "specJson"@
        },
    }
}

/// Reads a Template's spec.
pub fn template_spec_from_value(v: &Json) -> (r: Result<TemplateSpec, ManifestError>)
    ensures
        template_spec_decoded(*v, r),
{
    let kind = str_field(v, "kind");
    let metadata = match get(v, "metadata") {
        Some(x) => match object_meta_from_value(x) {
            Some(m) => Some(m),
            None => {
                return Err(ManifestError::InvalidMetadata);
            },
        },
        None => None,
    };
    let spec_json = json_field_or_string(v, "spec", "specJson")?;
    Ok(TemplateSpec { kind, metadata, spec_json })
}

/// The fields a Template spec is written with.
pub open spec fn template_spec_keys() -> Set<Seq<char>> {
    set!["kind"@, "metadata"@, "spec"@]
}

/// Whether `j` is the document of the Template spec `t` whose spec text
/// reads as `parsed`: its kind, its metadata or `null`, and that value.
pub open spec fn template_spec_json(t: TemplateSpec, parsed: Json, j: Json) -> bool {
    &&& j is Object
    &&& field(j, "kind"@) matches Some(Json::Str(k)) && k@ == t.kind@
    &&& match t.metadata {
        Some(m) => field(j, "metadata"@) matches Some(x) && meta_json(meta_view(m), x),
        None => field(j, "metadata"@) == Some(Json::Null),
    }
    &&& field(j, "spec"@) == Some(parsed)
    &&& within(entries_of(j), template_spec_keys())
}

/// Writes a Template's spec; `parsed_spec` is what its spec text reads as
/// (an empty object for blank text).
pub fn template_spec_to_json(t: &TemplateSpec, parsed_spec: Json) -> (r: Json)
    ensures
        template_spec_json(*t, parsed_spec, r),
{
    proof {
        lemma_template_spec_keys();
    }
    let mut es: Vec<(String, Json)> = Vec::new();
    insert_entry(&mut es, "kind", Json::Str(owned(t.kind.as_str())));
    match &t.metadata {
        Some(m) => insert_entry(&mut es, "metadata", object_meta_to_json(m)),
        None => insert_entry(&mut es, "metadata", Json::Null),
    }
    insert_entry(&mut es, "spec", parsed_spec);
    assert forall|k: Seq<char>| #[trigger] entries_get(es@, k) is Some implies template_spec_keys().contains(k) by {
        lemma_empty_entries(k);
    }
    Json::Object(es)
}

/// A Template spec with metadata, written and read back, is the same spec
/// when its spec text is the compact text of the value it reads as.
pub proof fn lemma_template_spec_round_trip(t: TemplateSpec, parsed: Json, j: Json)
    requires
        template_spec_json(t, parsed, j),
        t.metadata is Some,
        json_text(parsed) == t.spec_json@,
    ensures
        template_meta_ok(j),
        str_or_empty(field(j, "kind"@)) == t.kind@,
        template_meta_read(field(j, "metadata"@), t.metadata),
        json_field_text(j, "spec"@, "specJson"@) == Some(t.spec_json@),
{
    let m = t.metadata->0;
    let x = field(j, "metadata"@)->0;
    lemma_meta_round_trip(meta_view(m), x);
}

proof fn lemma_meta_keys()
    ensures
        "name"@ != "namespace"@,
        "name"@ != "labels"@,
        "name"@ != "annotations"@,
        "namespace"@ != "labels"@,
        "namespace"@ != "annotations"@,
        "labels"@ != "annotations"@,
{
    reveal_strlit("name");
    reveal_strlit("namespace");
    reveal_strlit("labels");
    reveal_strlit("annotations");
    assert("name"@.len() == 4);
    assert("namespace"@.len() == 9);
    assert("labels"@.len() == 6);
    assert("annotations"@.len() == 11);
}

proof fn lemma_template_spec_keys()
    ensures
        "kind"@ != "metadata"@,
        "kind"@ != "spec"@,
        "metadata"@ != "spec"@,
{
    reveal_strlit("kind");
    reveal_strlit("metadata");
    reveal_strlit("spec");
    assert("kind"@.len() == 4);
    assert("metadata"@.len() == 8);
    assert("spec"@.len() == 4);
    assert("kind"@[0] != "spec"@[0]);
}

} // verus!
