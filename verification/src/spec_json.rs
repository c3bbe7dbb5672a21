//! Resource specs as JSON documents: sandbox runtime templates, the specs
//! of sandboxes, sandbox policies and classes, deployment replicas and
//! schedules; what a document is read as and what a spec is written as.

use vstd::prelude::*;
use crate::config_doc::json_at;
use crate::json::{
    as_bool, as_str, as_u64, bool_field, entries_get, field, get, insert_entry, is_json_text,
    is_str, json_document, json_text, json_to_text, remove_entry, str_field, str_or_empty, Json,
};
use crate::manifest_checks::{forbidden_mount_paths, validate_sandbox_mount_path, ManifestError};
use crate::status_json::{
    entries_of, full_str_at, lemma_empty_entries, put_full_str, put_str, ref_json, ref_of_json,
    ref_view, resource_ref_from_value, resource_ref_json, str_at, strings_from_value,
    strings_of_json, within, RefView, ResourceRef,
};
use crate::enum_names::{
    enum_key, enum_key_text, file_index_policy_by_key, file_index_policy_name, file_index_policy_of_key,
    file_index_policy_text, file_purpose_by_key, file_purpose_name, file_purpose_of_key, file_purpose_text,
    file_retention_by_key, file_retention_name, file_retention_of_key, file_retention_text,
    lemma_file_index_policy_name_round_trip, lemma_file_purpose_name_round_trip,
    lemma_file_retention_name_round_trip, FileIndexPolicy,
    FilePurpose, FileRetention,
};
use crate::text::{blank, is_blank, owned, strings_view, trim_end_text};

verus! {

/// Whether a sandbox mount path is allowed: empty, or absolute and not the
/// root or a system directory.
pub open spec fn mount_path_allowed(p: Seq<char>) -> bool {
    p.len() == 0 || (p[0] == '/' && !forbidden_mount_paths().contains(trim_end_text(p, '/')))
}

/// The error a refused mount path is reported with.
pub open spec fn mount_path_error(p: Seq<char>, e: ManifestError) -> bool {
    if p[0] != '/' {
        e is MountPathNotAbsolute
    } else {
        e matches ManifestError::MountPathForbidden { path } && path@ == p
    }
}

/// Where a sandbox's workspace is mounted, and how.
#[derive(Clone, Debug)]
pub struct SandboxWorkspace {
    pub mode: String,
    pub mount_path: String,
}

/// What is installed and run when a sandbox starts.
#[derive(Clone, Debug)]
pub struct SandboxSetup {
    pub packages: Vec<String>,
    pub commands: Vec<String>,
}

/// A sandbox's network access.
#[derive(Clone, Debug)]
pub struct SandboxNetwork {
    pub mode: String,
}

/// The paths a sandbox may write and only read.
#[derive(Clone, Debug)]
pub struct SandboxFilesystem {
    pub writable: Vec<String>,
    pub readonly: Vec<String>,
}

/// How a sandbox is leased.
#[derive(Clone, Debug)]
pub struct SandboxLeasePolicy {
    pub mode: String,
}

/// What a sandbox is started from.
#[derive(Clone, Debug)]
pub struct SandboxRuntimeTemplate {
    pub image: String,
    pub workspace: Option<SandboxWorkspace>,
    pub setup: Option<SandboxSetup>,
    pub network: Option<SandboxNetwork>,
    pub filesystem: Option<SandboxFilesystem>,
    pub lease_policy: Option<SandboxLeasePolicy>,
}

/// The text at a path of fields, or the empty text.
pub open spec fn text_at(v: Json, path: Seq<Seq<char>>) -> Seq<char> {
    str_or_empty(json_at(v, path))
}

/// The mount path a template document names.
pub open spec fn template_mount_path(v: Json) -> Seq<char> {
    text_at(v, seq!["workspace"@, "mountPath"@])
}

/// `t` is what template document `v` is read as: every part there, each
/// field from its place in the document or empty.
pub open spec fn template_read(v: Json, t: SandboxRuntimeTemplate) -> bool {
    &&& t.image@ == str_or_empty(field(v, "image"@))
    &&& t.workspace matches Some(w) && w.mode@ == text_at(v, seq!["workspace"@, "mode"@])
        && w.mount_path@ == template_mount_path(v)
    &&& t.setup matches Some(s) && strings_view(s.packages@) == strings_of_json(
        json_at(v, seq!["setup"@, "packages"@]),
    ) && strings_view(s.commands@) == strings_of_json(json_at(v, seq!["setup"@, "commands"@]))
    &&& t.network matches Some(n) && n.mode@ == text_at(v, seq!["network"@, "mode"@])
    &&& t.filesystem matches Some(f) && strings_view(f.writable@) == strings_of_json(
        json_at(v, seq!["filesystem"@, "writable"@]),
    ) && strings_view(f.readonly@) == strings_of_json(json_at(v, seq!["filesystem"@, "readonly"@]))
    &&& t.lease_policy matches Some(l) && l.mode@ == text_at(v, seq!["leasePolicy"@, "mode"@])
}

fn text_at_path(v: &Json, first: &str, second: &str) -> (r: String)
    ensures
        r@ == text_at(*v, seq![first@, second@]),
{
    proof {
        reveal_with_fuel(json_at, 3);
        assert(seq![first@, second@].drop_first() =~= seq![second@]);
        assert(seq![second@].drop_first() =~= Seq::<Seq<char>>::empty());
    }
    match get(v, first) {
        Some(inner) => str_field(inner, second),
        None => String::new(),
    }
}

fn strings_at_path(v: &Json, first: &str, second: &str) -> (r: Vec<String>)
    ensures
        strings_view(r@) == strings_of_json(json_at(*v, seq![first@, second@])),
{
    proof {
        reveal_with_fuel(json_at, 3);
        assert(seq![first@, second@].drop_first() =~= seq![second@]);
        assert(seq![second@].drop_first() =~= Seq::<Seq<char>>::empty());
    }
    match get(v, first) {
        Some(inner) => strings_from_value(get(inner, second)),
        None => strings_from_value(None),
    }
}

/// Reads a sandbox runtime template; its mount path must be allowed.
pub fn sandbox_runtime_template_from_value(v: &Json) -> (r: Result<SandboxRuntimeTemplate, ManifestError>)
    ensures
        r is Ok <==> mount_path_allowed(template_mount_path(*v)),
        match r {
            Ok(t) => template_read(*v, t),
            Err(e) => mount_path_error(template_mount_path(*v), e),
        },
{
    let mount_path = text_at_path(v, "workspace", "mountPath");
    match validate_sandbox_mount_path(mount_path.as_str()) {
        Ok(()) => {},
        Err(e) => {
            return Err(e);
        },
    }
    Ok(
        SandboxRuntimeTemplate {
            image: str_field(v, "image"),
            workspace: Some(SandboxWorkspace { mode: text_at_path(v, "workspace", "mode"), mount_path }),
            setup: Some(
                SandboxSetup {
                    packages: strings_at_path(v, "setup", "packages"),
                    commands: strings_at_path(v, "setup", "commands"),
                },
            ),
            network: Some(SandboxNetwork { mode: text_at_path(v, "network", "mode") }),
            filesystem: Some(
                SandboxFilesystem {
                    writable: strings_at_path(v, "filesystem", "writable"),
                    readonly: strings_at_path(v, "filesystem", "readonly"),
                },
            ),
            lease_policy: Some(SandboxLeasePolicy { mode: text_at_path(v, "leasePolicy", "mode") }),
        },
    )
}

/// `j` is a JSON array of the strings `ss`.
pub open spec fn strings_json(ss: Seq<Seq<char>>, j: Json) -> bool {
    j matches Json::Array(items) && items@.len() == ss.len() && forall|i: int|
        0 <= i < ss.len() ==> #[trigger] is_str(Some(items@[i]), ss[i])
}

/// A JSON array of strings.
pub fn strings_to_json(ss: &Vec<String>) -> (r: Json)
    ensures
        strings_json(strings_view(ss@), r),
{
    let mut items: Vec<Json> = Vec::new();
    let mut i: usize = 0;
    while i < ss.len()
        invariant
            i <= ss.len(),
            items@.len() == i,
            forall|j: int| 0 <= j < i ==> #[trigger] is_str(Some(items@[j]), ss@[j]@),
        decreases ss.len() - i,
    {
        items.push(Json::Str(owned(ss[i].as_str())));
        i += 1;
    }
    Json::Array(items)
}

/// The fields a template is written with.
pub open spec fn template_keys() -> Set<Seq<char>> {
    set!["image"@, "workspace"@, "setup"@, "network"@, "filesystem"@, "leasePolicy"@]
}

/// `j` is an object with the field `key` holding exactly the string `s`
/// and no other field than those of `keys`.
pub open spec fn one_text_object(j: Json, key: Seq<char>, s: Seq<char>) -> bool {
    &&& j is Object
    &&& within(entries_of(j), set![key])
    &&& full_str_at(entries_of(j), key, s)
}

/// `j` is an object with two fields, each an array of strings.
pub open spec fn two_lists_object(
    j: Json,
    k1: Seq<char>,
    l1: Seq<Seq<char>>,
    k2: Seq<char>,
    l2: Seq<Seq<char>>,
) -> bool {
    &&& j is Object
    &&& within(entries_of(j), set![k1, k2])
    &&& match entries_get(entries_of(j), k1) {
        Some(a) => strings_json(l1, a),
        None => false,
    }
    &&& match entries_get(entries_of(j), k2) {
        Some(b) => strings_json(l2, b),
        None => false,
    }
}

/// `j` is the JSON form of a template: every field written, `null` for a
/// part the template lacks.
pub open spec fn template_json(t: SandboxRuntimeTemplate, j: Json) -> bool {
    let es = entries_of(j);
    &&& j is Object
    &&& within(es, template_keys())
    &&& full_str_at(es, "image"@, t.image@)
    &&& match t.workspace {
        Some(w) => entries_get(es, "workspace"@) matches Some(x) && x is Object && within(
            entries_of(x),
            set!["mode"@, "mountPath"@],
        ) && full_str_at(entries_of(x), "mode"@, w.mode@) && full_str_at(
            entries_of(x),
            "mountPath"@,
            w.mount_path@,
        ),
        None => entries_get(es, "workspace"@) == Some(Json::Null),
    }
    &&& match t.setup {
        Some(s) => entries_get(es, "setup"@) matches Some(x) && two_lists_object(
            x,
            "packages"@,
            strings_view(s.packages@),
            "commands"@,
            strings_view(s.commands@),
        ),
        None => entries_get(es, "setup"@) == Some(Json::Null),
    }
    &&& match t.network {
        Some(n) => entries_get(es, "network"@) matches Some(x) && one_text_object(x, "mode"@, n.mode@),
        None => entries_get(es, "network"@) == Some(Json::Null),
    }
    &&& match t.filesystem {
        Some(f) => entries_get(es, "filesystem"@) matches Some(x) && two_lists_object(
            x,
            "writable"@,
            strings_view(f.writable@),
            "readonly"@,
            strings_view(f.readonly@),
        ),
        None => entries_get(es, "filesystem"@) == Some(Json::Null),
    }
    &&& match t.lease_policy {
        Some(l) => entries_get(es, "leasePolicy"@) matches Some(x) && one_text_object(x, "mode"@, l.mode@),
        None => entries_get(es, "leasePolicy"@) == Some(Json::Null),
    }
}

fn text_object(key: &str, s: &String) -> (r: Json)
    ensures
        one_text_object(r, key@, s@),
{
    let mut m: Vec<(String, Json)> = Vec::new();
    put_full_str(&mut m, key, s);
    assert forall|k: Seq<char>| #[trigger] entries_get(m@, k) is Some implies set![key@].contains(k) by {
        lemma_empty_entries(k);
    }
    Json::Object(m)
}

fn pair_object(k1: &str, v1: Json, k2: &str, v2: Json) -> (r: Json)
    requires
        k1@ != k2@,
    ensures
        r is Object,
        within(entries_of(r), set![k1@, k2@]),
        entries_get(entries_of(r), k1@) == Some(v1),
        entries_get(entries_of(r), k2@) == Some(v2),
{
    let mut m: Vec<(String, Json)> = Vec::new();
    insert_entry(&mut m, k1, v1);
    insert_entry(&mut m, k2, v2);
    assert forall|k: Seq<char>| #[trigger] entries_get(m@, k) is Some implies set![k1@, k2@].contains(k) by {
        lemma_empty_entries(k);
    }
    Json::Object(m)
}

/// The JSON form of a sandbox runtime template; `{}` when there is none.
pub fn sandbox_runtime_template_to_json_value(t: Option<&SandboxRuntimeTemplate>) -> (r: Json)
    ensures
        match t {
            Some(t) => template_json(*t, r),
            None => r is Object && within(entries_of(r), Set::empty()),
        },
{
    proof {
        lemma_template_keys();
    }
    let t = match t {
        Some(t) => t,
        None => {
            let r = Json::Object(Vec::new());
            assert forall|k: Seq<char>| #[trigger] entries_get(entries_of(r), k) is Some implies Set::<
                Seq<char>,
            >::empty().contains(k) by {
                lemma_empty_entries(k);
            }
            return r;
        },
    };
    let mut m: Vec<(String, Json)> = Vec::new();
    put_full_str(&mut m, "image", &t.image);
    let workspace = match &t.workspace {
        Some(w) => pair_object(
            "mode",
            Json::Str(owned(w.mode.as_str())),
            "mountPath",
            Json::Str(owned(w.mount_path.as_str())),
        ),
        None => Json::Null,
    };
    insert_entry(&mut m, "workspace", workspace);
    let setup = match &t.setup {
        Some(s) => pair_object("packages", strings_to_json(&s.packages), "commands", strings_to_json(&s.commands)),
        None => Json::Null,
    };
    insert_entry(&mut m, "setup", setup);
    let network = match &t.network {
        Some(n) => text_object("mode", &n.mode),
        None => Json::Null,
    };
    insert_entry(&mut m, "network", network);
    let filesystem = match &t.filesystem {
        Some(f) => pair_object(
            "writable",
            strings_to_json(&f.writable),
            "readonly",
            strings_to_json(&f.readonly),
        ),
        None => Json::Null,
    };
    insert_entry(&mut m, "filesystem", filesystem);
    let lease_policy = match &t.lease_policy {
        Some(l) => text_object("mode", &l.mode),
        None => Json::Null,
    };
    insert_entry(&mut m, "leasePolicy", lease_policy);
    assert forall|k: Seq<char>| #[trigger] entries_get(m@, k) is Some implies template_keys().contains(k) by {
        lemma_empty_entries(k);
    }
    Json::Object(m)
}


/// A list of strings written and read back is the same list.
pub proof fn lemma_strings_round_trip(ss: Seq<Seq<char>>, j: Json)
    requires
        strings_json(ss, j),
    ensures
        strings_of_json(Some(j)) == ss,
{
    let items = j->Array_0@;
    assert forall|i: int| 0 <= i < items.len() implies #[trigger] items[i] is Str && str_or_empty(
        Some(items[i]),
    ) == ss[i] by {
        assert(is_str(Some(items[i]), ss[i]));
    }
    assert(strings_of_json(Some(j)) =~= ss);
}

/// A template with all its parts, written and read back, is the same
/// template.
pub proof fn lemma_template_round_trip(t: SandboxRuntimeTemplate, j: Json)
    requires
        template_json(t, j),
        t.workspace is Some,
        t.setup is Some,
        t.network is Some,
        t.filesystem is Some,
        t.lease_policy is Some,
    ensures
        template_read(j, t),
{
    reveal_with_fuel(json_at, 3);
    let es = entries_of(j);
    let s = t.setup->0;
    let x = field(j, "setup"@)->0;
    lemma_strings_round_trip(strings_view(s.packages@), field(x, "packages"@)->0);
    lemma_strings_round_trip(strings_view(s.commands@), field(x, "commands"@)->0);
    let f = t.filesystem->0;
    let y = field(j, "filesystem"@)->0;
    lemma_strings_round_trip(strings_view(f.writable@), field(y, "writable"@)->0);
    lemma_strings_round_trip(strings_view(f.readonly@), field(y, "readonly"@)->0);
    assert(seq!["setup"@, "packages"@].drop_first() =~= seq!["packages"@]);
    assert(seq!["setup"@, "commands"@].drop_first() =~= seq!["commands"@]);
    assert(seq!["filesystem"@, "writable"@].drop_first() =~= seq!["writable"@]);
    assert(seq!["filesystem"@, "readonly"@].drop_first() =~= seq!["readonly"@]);
    assert(seq!["workspace"@, "mode"@].drop_first() =~= seq!["mode"@]);
    assert(seq!["workspace"@, "mountPath"@].drop_first() =~= seq!["mountPath"@]);
    assert(seq!["network"@, "mode"@].drop_first() =~= seq!["mode"@]);
    assert(seq!["leasePolicy"@, "mode"@].drop_first() =~= seq!["mode"@]);
    assert(seq!["mode"@].drop_first() =~= Seq::<Seq<char>>::empty());
    assert(seq!["mountPath"@].drop_first() =~= Seq::<Seq<char>>::empty());
    assert(seq!["packages"@].drop_first() =~= Seq::<Seq<char>>::empty());
    assert(seq!["commands"@].drop_first() =~= Seq::<Seq<char>>::empty());
    assert(seq!["writable"@].drop_first() =~= Seq::<Seq<char>>::empty());
    assert(seq!["readonly"@].drop_first() =~= Seq::<Seq<char>>::empty());
}

/// `t` is what a template is read as when its document is missing: every
/// part there and empty.
pub open spec fn template_is_empty(t: SandboxRuntimeTemplate) -> bool {
    &&& t.image@.len() == 0
    &&& t.workspace matches Some(w) && w.mode@.len() == 0 && w.mount_path@.len() == 0
    &&& t.setup matches Some(s) && s.packages@.len() == 0 && s.commands@.len() == 0
    &&& t.network matches Some(n) && n.mode@.len() == 0
    &&& t.filesystem matches Some(f) && f.writable@.len() == 0 && f.readonly@.len() == 0
    &&& t.lease_policy matches Some(l) && l.mode@.len() == 0
}

/// The mount path a template document names, when there is one.
pub open spec fn template_mount_path_at(v: Option<Json>) -> Seq<char> {
    match v {
        Some(x) => template_mount_path(x),
        None => seq![],
    }
}

/// `t` is what a template document is read as, `{}` standing in for a
/// missing one.
pub open spec fn template_read_at(v: Option<Json>, t: SandboxRuntimeTemplate) -> bool {
    match v {
        Some(x) => template_read(x, t),
        None => template_is_empty(t),
    }
}

fn template_from_opt(v: Option<&Json>) -> (r: Result<SandboxRuntimeTemplate, ManifestError>)
    ensures
        r is Ok <==> mount_path_allowed(template_mount_path_at(opt_json(v))),
        match r {
            Ok(t) => template_read_at(opt_json(v), t),
            Err(e) => mount_path_error(template_mount_path_at(opt_json(v)), e),
        },
{
    match v {
        Some(x) => sandbox_runtime_template_from_value(x),
        None => {
            let empty = Json::Object(Vec::new());
            proof {
                reveal_with_fuel(json_at, 3);
                lemma_empty_entries("workspace"@);
                lemma_empty_entries("image"@);
                lemma_empty_entries("setup"@);
                lemma_empty_entries("network"@);
                lemma_empty_entries("filesystem"@);
                lemma_empty_entries("leasePolicy"@);
            }
            let r = sandbox_runtime_template_from_value(&empty);
            proof {
                if r is Ok {
                    let t = r->Ok_0;
                    assert(strings_view(t.setup->0.packages@).len() == 0);
                    assert(strings_view(t.setup->0.commands@).len() == 0);
                    assert(strings_view(t.filesystem->0.writable@).len() == 0);
                    assert(strings_view(t.filesystem->0.readonly@).len() == 0);
                }
            }
            r
        },
    }
}

/// The value a reference to a JSON value stands for.
pub open spec fn opt_json(v: Option<&Json>) -> Option<Json> {
    match v {
        Some(j) => Some(*j),
        None => None,
    }
}

/// The reference a document's optional field is read as.
pub open spec fn ref_read(v: Option<Json>, r: Option<ResourceRef>) -> bool {
    match (v, r) {
        (Some(j), Some(x)) => ref_view(x) == ref_of_json(j),
        (None, None) => true,
        _ => false,
    }
}

fn ref_from_opt(v: Option<&Json>) -> (r: Option<ResourceRef>)
    ensures
        ref_read(opt_json(v), r),
{
    match v {
        Some(x) => Some(resource_ref_from_value(x)),
        None => None,
    }
}

/// A Sandbox's spec.
#[derive(Clone, Debug)]
pub struct SandboxSpec {
    pub policy_ref: String,
    pub class_ref: Option<ResourceRef>,
    pub runtime_template: Option<SandboxRuntimeTemplate>,
}

/// Whether `r` is what a Sandbox spec document `v` is read as.
pub open spec fn sandbox_spec_decoded(v: Json, r: Result<SandboxSpec, ManifestError>) -> bool {
    &&& (r is Ok <==> mount_path_allowed(template_mount_path_at(field(v, "runtimeTemplate"@))))
    &&& (match r {
        Ok(s) => {
            &&& s.policy_ref@ == str_or_empty(field(v, "policyRef"@))
            &&& ref_read(field(v, "classRef"@), s.class_ref)
            &&& s.runtime_template matches Some(t) && template_read_at(
                field(v, "runtimeTemplate"@),
                t,
            )
        },
        Err(e) => mount_path_error(template_mount_path_at(field(v, "runtimeTemplate"@)), e)
    })
}

/// Reads a Sandbox's spec; its runtime template, or an empty one, must be
/// allowed.
pub fn sandbox_spec_from_value(v: &Json) -> (r: Result<SandboxSpec, ManifestError>)
    ensures
        sandbox_spec_decoded(*v, r),
{
    let policy_ref = str_field(v, "policyRef");
    let class_ref = ref_from_opt(get(v, "classRef"));
    let runtime_template = template_from_opt(get(v, "runtimeTemplate"))?;
    Ok(SandboxSpec { policy_ref, class_ref, runtime_template: Some(runtime_template) })
}

/// A SandboxPolicy's spec.
#[derive(Clone, Debug)]
pub struct SandboxPolicySpec {
    pub class_ref: Option<ResourceRef>,
    pub template: Option<SandboxRuntimeTemplate>,
    pub max_concurrent: u32,
}

/// The template document of a sandbox policy: `template.spec`, else
/// `template`.
pub open spec fn policy_template(v: Json) -> Option<Json> {
    match json_at(v, seq!["template"@, "spec"@]) {
        Some(x) => Some(x),
        None => field(v, "template"@),
    }
}

/// The concurrency limit a sandbox policy document sets: `quota.maxConcurrent`,
/// else `maxConcurrent`, as an unsigned number.
pub open spec fn policy_max_concurrent(v: Json) -> Option<u64> {
    match json_at(v, seq!["quota"@, "maxConcurrent"@]) {
        Some(x) => as_u64(Some(x)),
        None => as_u64(field(v, "maxConcurrent"@)),
    }
}

fn at_path<'a>(v: &'a Json, first: &str, second: &str) -> (r: Option<&'a Json>)
    ensures
        opt_json(r) == json_at(*v, seq![first@, second@]),
{
    proof {
        reveal_with_fuel(json_at, 3);
        assert(seq![first@, second@].drop_first() =~= seq![second@]);
        assert(seq![second@].drop_first() =~= Seq::<Seq<char>>::empty());
    }
    match get(v, first) {
        Some(inner) => get(inner, second),
        None => None,
    }
}

/// Whether `r` is what a SandboxPolicy spec document `v` is read as.
pub open spec fn sandbox_policy_spec_decoded(v: Json, r: Result<SandboxPolicySpec, ManifestError>) -> bool {
    &&& (r is Ok <==> mount_path_allowed(template_mount_path_at(policy_template(v))) && match policy_max_concurrent(v) {
        Some(n) => n <= u32::MAX,
        None => true,
    })
    &&& (match r {
        Ok(s) => {
            &&& ref_read(field(v, "classRef"@), s.class_ref)
            &&& s.template matches Some(t) && template_read_at(policy_template(v), t)
            &&& s.max_concurrent == match policy_max_concurrent(v) {
                Some(n) => n,
                None => 0,
            }
        },
        Err(e) => if mount_path_allowed(template_mount_path_at(policy_template(v))) {
            e is MaxConcurrentOutOfRange
        } else {
            mount_path_error(template_mount_path_at(policy_template(v)), e)
        }
    })
}

/// Reads a SandboxPolicy's spec: its template must be allowed and its
/// concurrency limit must fit in `u32`, checked in that order.
pub fn sandbox_policy_spec_from_value(v: &Json) -> (r: Result<SandboxPolicySpec, ManifestError>)
    ensures
        sandbox_policy_spec_decoded(*v, r),
{
    let class_ref = ref_from_opt(get(v, "classRef"));
    let tv = match at_path(v, "template", "spec") {
        Some(x) => Some(x),
        None => get(v, "template"),
    };
    let template = template_from_opt(tv)?;
    let limit = match at_path(v, "quota", "maxConcurrent") {
        Some(x) => Some(x),
        None => get(v, "maxConcurrent"),
    };
    let max_concurrent: u32 = match limit {
        Some(Json::PosInt(n)) => {
            if *n > 4294967295u64 {
                return Err(ManifestError::MaxConcurrentOutOfRange);
            }
            *n as u32
        },
        _ => 0,
    };
    Ok(SandboxPolicySpec { class_ref, template: Some(template), max_concurrent })
}

/// What a field holding JSON is read as: the JSON text of `object_key`
/// when it is there, else the text of `string_key` when it is a string
/// that is JSON, else the JSON text of `string_key`'s value, else `{}`.
/// Nothing when `string_key` is a string that is not JSON.
pub open spec fn json_field_text(v: Json, object_key: Seq<char>, string_key: Seq<char>) -> Option<Seq<char>> {
    match field(v, object_key) {
        Some(x) => Some(json_text(x)),
        None => match field(v, string_key) {
            Some(Json::Str(t)) => if json_document(t@) is Some {
                Some(t@)
            } else {
                None
            },
            Some(x) => Some(json_text(x)),
            None => Some("{}"@),
        },
    }
}

/// The JSON text of a field that a manifest may give as JSON or as a
/// string of JSON.
pub fn json_field_or_string(v: &Json, object_key: &str, string_key: &str) -> (r: Result<String, ManifestError>)
    ensures
        match (r, json_field_text(*v, object_key@, string_key@)) {
            (Ok(t), Some(u)) => t@ == u,
            (Err(e), None) => e matches ManifestError::InvalidEmbeddedJson { key } && key@ == string_key@,
            _ => false,
        },
{
    if let Some(x) = get(v, object_key) {
        return Ok(json_to_text(x));
    }
    match get(v, string_key) {
        Some(Json::Str(t)) => {
            if is_json_text(t.as_str()) {
                Ok(owned(t.as_str()))
            } else {
                Err(ManifestError::InvalidEmbeddedJson { key: owned(string_key) })
            }
        },
        Some(x) => Ok(json_to_text(x)),
        None => Ok(owned("{}")),
    }
}

/// A SandboxClass's spec.
#[derive(Clone, Debug)]
pub struct SandboxClassSpec {
    pub provider: String,
    pub provider_config_json: String,
    pub credentials_json: String,
}

/// Whether `r` is what a SandboxClass spec document `v` is read as.
pub open spec fn sandbox_class_spec_decoded(v: Json, r: Result<SandboxClassSpec, ManifestError>) -> bool {
    &&& (r is Ok <==> json_field_text(v, "providerConfig"@, "providerConfigJson"@) is Some
        && json_field_text(v, "credentials"@, "credentialsJson"@) is Some)
    &&& (match r {
        Ok(s) => {
            &&& s.provider@ == str_or_empty(field(v, "provider"@))
            &&& Some(s.provider_config_json@) == json_field_text(
                v,
                "providerConfig"@,
                "providerConfigJson"@,
            )
            &&& Some(s.credentials_json@) == json_field_text(v, "credentials"@, "credentialsJson"@)
        },
        Err(e) => e matches ManifestError::InvalidEmbeddedJson { key } && if json_field_text(
            v,
            "providerConfig"@,
            "providerConfigJson"@,
        ) is None {
            key@ == "providerConfigJson"@
        } else {
            key@ == "credentialsJson"@
        }
    })
}

/// Reads a SandboxClass's spec.
pub fn sandbox_class_spec_from_value(v: &Json) -> (r: Result<SandboxClassSpec, ManifestError>)
    ensures
        sandbox_class_spec_decoded(*v, r),
{
    let provider = str_field(v, "provider");
    let provider_config_json = json_field_or_string(v, "providerConfig", "providerConfigJson")?;
    let credentials_json = json_field_or_string(v, "credentials", "credentialsJson")?;
    Ok(SandboxClassSpec { provider, provider_config_json, credentials_json })
}

/// A DeploymentReplica's spec.
#[derive(Clone, Debug)]
pub struct DeploymentReplicaSpec {
    pub deployment_ref: Option<ResourceRef>,
    pub target_namespace: String,
}

/// Whether `r` is what a DeploymentReplica spec document `v` is read as.
pub open spec fn deployment_replica_spec_read(v: Json, r: DeploymentReplicaSpec) -> bool {
    &&& (ref_read(field(v, "deploymentRef"@), r.deployment_ref))
    &&& (r.target_namespace@ == str_or_empty(field(v, "targetNamespace"@)))
}

/// Reads a DeploymentReplica's spec.
pub fn deployment_replica_spec_from_value(v: &Json) -> (r: DeploymentReplicaSpec)
    ensures
        deployment_replica_spec_read(*v, r),
{
    DeploymentReplicaSpec {
        deployment_ref: ref_from_opt(get(v, "deploymentRef")),
        target_namespace: str_field(v, "targetNamespace"),
    }
}


/// What a schedule runs.
#[derive(Clone, Debug)]
pub struct ScheduleTarget {
    pub agent: String,
    pub session_mode: String,
    pub session_id: String,
    pub workflow: String,
}

/// A Schedule's spec.
#[derive(Clone, Debug)]
pub struct ScheduleSpec {
    pub kind: String,
    pub cron: String,
    pub interval_seconds: u32,
    pub run_at: String,
    pub timezone: String,
    pub target: Option<ScheduleTarget>,
    pub input_message: String,
    pub enabled: bool,
    pub input_json: String,
}

/// `t` is what a schedule target document is read as.
pub open spec fn target_read(v: Json, t: ScheduleTarget) -> bool {
    &&& t.agent@ == str_or_empty(field(v, "agent"@))
    &&& t.session_mode@ == str_or_empty(field(v, "sessionMode"@))
    &&& t.session_id@ == str_or_empty(field(v, "sessionId"@))
    &&& t.workflow@ == str_or_empty(field(v, "workflow"@))
}

/// The text a schedule's `inputJson` field is read as: a string as it is,
/// any other value as its JSON text, and nothing as the empty text.
pub open spec fn input_json_text(v: Option<Json>) -> Seq<char> {
    match v {
        Some(Json::Str(t)) => t@,
        Some(x) => json_text(x),
        None => seq![],
    }
}

/// `s` is what a schedule spec document is read as.
pub open spec fn schedule_spec_read(v: Json, s: ScheduleSpec) -> bool {
    &&& s.kind@ == str_or_empty(field(v, "kind"@))
    &&& s.cron@ == str_or_empty(field(v, "cron"@))
    &&& s.interval_seconds == match as_u64(field(v, "intervalSeconds"@)) {
        Some(n) => n,
        None => 0,
    }
    &&& s.run_at@ == str_or_empty(field(v, "runAt"@))
    &&& s.timezone@ == str_or_empty(field(v, "timezone"@))
    &&& match (field(v, "target"@), s.target) {
        (Some(x), Some(t)) => target_read(x, t),
        (None, None) => true,
        _ => false,
    }
    &&& s.input_message@ == str_or_empty(field(v, "inputMessage"@))
    &&& s.enabled == (as_bool(field(v, "enabled"@)) == Some(true))
    &&& s.input_json@ == input_json_text(field(v, "inputJson"@))
}

/// Whether `r` is what a Schedule spec document `v` is read as.
pub open spec fn schedule_spec_decoded(v: Json, r: Result<ScheduleSpec, ManifestError>) -> bool {
    &&& (r is Ok <==> match as_u64(field(v, "intervalSeconds"@)) {
        Some(n) => n <= u32::MAX,
        None => true,
    })
    &&& (match r {
        Ok(s) => schedule_spec_read(v, s),
        Err(e) => e is IntervalSecondsOutOfRange
    })
}

/// Reads a Schedule's spec; its interval must fit in `u32`.
pub fn schedule_spec_from_value(v: &Json) -> (r: Result<ScheduleSpec, ManifestError>)
    ensures
        schedule_spec_decoded(*v, r),
{
    let interval_seconds: u32 = match get(v, "intervalSeconds") {
        Some(Json::PosInt(n)) => {
            if *n > 4294967295u64 {
                return Err(ManifestError::IntervalSecondsOutOfRange);
            }
            *n as u32
        },
        _ => 0,
    };
    let target = match get(v, "target") {
        Some(t) => Some(
            ScheduleTarget {
                agent: str_field(t, "agent"),
                session_mode: str_field(t, "sessionMode"),
                session_id: str_field(t, "sessionId"),
                workflow: str_field(t, "workflow"),
            },
        ),
        None => None,
    };
    let input_json = match get(v, "inputJson") {
        Some(Json::Str(t)) => owned(t.as_str()),
        Some(x) => json_to_text(x),
        None => String::new(),
    };
    Ok(
        ScheduleSpec {
            kind: str_field(v, "kind"),
            cron: str_field(v, "cron"),
            interval_seconds,
            run_at: str_field(v, "runAt"),
            timezone: str_field(v, "timezone"),
            target,
            input_message: str_field(v, "inputMessage"),
            enabled: bool_field(v, "enabled"),
            input_json,
        },
    )
}

/// The fields a schedule spec is written with.
pub open spec fn schedule_spec_keys() -> Set<Seq<char>> {
    set![
        "kind"@,
        "cron"@,
        "intervalSeconds"@,
        "runAt"@,
        "timezone"@,
        "target"@,
        "inputMessage"@,
        "enabled"@,
        "inputJson"@,
    ]
}

/// `j` is the JSON form of a schedule target: the fields that are set.
pub open spec fn target_json(t: ScheduleTarget, j: Json) -> bool {
    let es = entries_of(j);
    &&& j is Object
    &&& within(es, set!["agent"@, "sessionMode"@, "sessionId"@, "workflow"@])
    &&& str_at(es, "agent"@, t.agent@)
    &&& str_at(es, "sessionMode"@, t.session_mode@)
    &&& str_at(es, "sessionId"@, t.session_id@)
    &&& str_at(es, "workflow"@, t.workflow@)
}

/// `j` is the JSON form of a schedule spec whose input text reads as
/// `parsed` (nothing when it is not JSON): the kind and the flag always,
/// the other fields when they are set, and the input as the value it
/// reads as, or as a string when it reads as none.
pub open spec fn schedule_spec_json(s: ScheduleSpec, parsed: Option<Json>, j: Json) -> bool {
    let es = entries_of(j);
    &&& j is Object
    &&& within(es, schedule_spec_keys())
    &&& full_str_at(es, "kind"@, s.kind@)
    &&& str_at(es, "cron"@, s.cron@)
    &&& if s.interval_seconds == 0 {
        entries_get(es, "intervalSeconds"@) is None
    } else {
        entries_get(es, "intervalSeconds"@) == Some(Json::PosInt(s.interval_seconds as u64))
    }
    &&& str_at(es, "runAt"@, s.run_at@)
    &&& str_at(es, "timezone"@, s.timezone@)
    &&& match s.target {
        Some(t) => entries_get(es, "target"@) matches Some(x) && target_json(t, x),
        None => entries_get(es, "target"@) is None,
    }
    &&& str_at(es, "inputMessage"@, s.input_message@)
    &&& entries_get(es, "enabled"@) == Some(Json::Bool(s.enabled))
    &&& if s.input_json@.len() == 0 {
        entries_get(es, "inputJson"@) is None
    } else {
        match parsed {
            Some(p) => entries_get(es, "inputJson"@) == Some(p),
            None => is_str(entries_get(es, "inputJson"@), s.input_json@),
        }
    }
}

/// The JSON form of a Schedule's spec; `parsed_input` is what the spec's
/// input text reads as, or nothing when it is not JSON.
pub fn schedule_spec_to_json(s: &ScheduleSpec, parsed_input: Option<Json>) -> (r: Json)
    ensures
        schedule_spec_json(*s, parsed_input, r),
{
    proof {
        lemma_schedule_spec_keys();
    }
    let mut m: Vec<(String, Json)> = Vec::new();
    put_full_str(&mut m, "kind", &s.kind);
    put_str(&mut m, "cron", &s.cron);
    if s.interval_seconds != 0 {
        insert_entry(&mut m, "intervalSeconds", Json::PosInt(s.interval_seconds as u64));
    }
    put_str(&mut m, "runAt", &s.run_at);
    put_str(&mut m, "timezone", &s.timezone);
    match &s.target {
        Some(t) => {
            let mut tm: Vec<(String, Json)> = Vec::new();
            put_str(&mut tm, "agent", &t.agent);
            put_str(&mut tm, "sessionMode", &t.session_mode);
            put_str(&mut tm, "sessionId", &t.session_id);
            put_str(&mut tm, "workflow", &t.workflow);
            assert forall|k: Seq<char>| #[trigger] entries_get(tm@, k) is Some implies set![
                "agent"@,
                "sessionMode"@,
                "sessionId"@,
                "workflow"@,
            ].contains(k) by {
                lemma_empty_entries(k);
            }
            insert_entry(&mut m, "target", Json::Object(tm));
        },
        None => {},
    }
    put_str(&mut m, "inputMessage", &s.input_message);
    insert_entry(&mut m, "enabled", Json::Bool(s.enabled));
    if !s.input_json.as_str().is_empty() {
        match parsed_input {
            Some(p) => insert_entry(&mut m, "inputJson", p),
            None => insert_entry(&mut m, "inputJson", Json::Str(owned(s.input_json.as_str()))),
        }
    }
    assert forall|k: Seq<char>| #[trigger] entries_get(m@, k) is Some implies schedule_spec_keys().contains(k) by {
        lemma_empty_entries(k);
    }
    Json::Object(m)
}

/// A Schedule's spec written and read back is the same spec, when its
/// input text is not JSON or is the compact text of the value it reads as,
/// that value not being a string.
pub proof fn lemma_schedule_spec_round_trip(s: ScheduleSpec, parsed: Option<Json>, j: Json)
    requires
        schedule_spec_json(s, parsed, j),
        parsed matches Some(p) ==> !(p is Str) && json_text(p) == s.input_json@,
    ensures
        schedule_spec_read(j, s),
{
    assert(s.kind@ == str_or_empty(field(j, "kind"@)));
    assert(s.cron@ == str_or_empty(field(j, "cron"@)));
    assert(s.run_at@ == str_or_empty(field(j, "runAt"@)));
    assert(s.timezone@ == str_or_empty(field(j, "timezone"@)));
    assert(s.input_message@ == str_or_empty(field(j, "inputMessage"@)));
    assert(s.input_json@ == input_json_text(field(j, "inputJson"@)));
    match s.target {
        Some(t) => {
            let x = field(j, "target"@)->0;
            assert(t.agent@ == str_or_empty(field(x, "agent"@)));
            assert(t.session_mode@ == str_or_empty(field(x, "sessionMode"@)));
            assert(t.session_id@ == str_or_empty(field(x, "sessionId"@)));
            assert(t.workflow@ == str_or_empty(field(x, "workflow"@)));
        },
        None => {},
    }
}

proof fn lemma_schedule_spec_keys()
    ensures
        "kind"@ != "cron"@,
        "kind"@ != "intervalSeconds"@,
        "kind"@ != "runAt"@,
        "kind"@ != "timezone"@,
        "kind"@ != "target"@,
        "kind"@ != "inputMessage"@,
        "kind"@ != "enabled"@,
        "kind"@ != "inputJson"@,
        "kind"@ != "agent"@,
        "kind"@ != "sessionMode"@,
        "kind"@ != "sessionId"@,
        "kind"@ != "workflow"@,
        "cron"@ != "intervalSeconds"@,
        "cron"@ != "runAt"@,
        "cron"@ != "timezone"@,
        "cron"@ != "target"@,
        "cron"@ != "inputMessage"@,
        "cron"@ != "enabled"@,
        "cron"@ != "inputJson"@,
        "cron"@ != "agent"@,
        "cron"@ != "sessionMode"@,
        "cron"@ != "sessionId"@,
        "cron"@ != "workflow"@,
        "intervalSeconds"@ != "runAt"@,
        "intervalSeconds"@ != "timezone"@,
        "intervalSeconds"@ != "target"@,
        "intervalSeconds"@ != "inputMessage"@,
        "intervalSeconds"@ != "enabled"@,
        "intervalSeconds"@ != "inputJson"@,
        "intervalSeconds"@ != "agent"@,
        "intervalSeconds"@ != "sessionMode"@,
        "intervalSeconds"@ != "sessionId"@,
        "intervalSeconds"@ != "workflow"@,
        "runAt"@ != "timezone"@,
        "runAt"@ != "target"@,
        "runAt"@ != "inputMessage"@,
        "runAt"@ != "enabled"@,
        "runAt"@ != "inputJson"@,
        "runAt"@ != "agent"@,
        "runAt"@ != "sessionMode"@,
        "runAt"@ != "sessionId"@,
        "runAt"@ != "workflow"@,
        "timezone"@ != "target"@,
        "timezone"@ != "inputMessage"@,
        "timezone"@ != "enabled"@,
        "timezone"@ != "inputJson"@,
        "timezone"@ != "agent"@,
        "timezone"@ != "sessionMode"@,
        "timezone"@ != "sessionId"@,
        "timezone"@ != "workflow"@,
        "target"@ != "inputMessage"@,
        "target"@ != "enabled"@,
        "target"@ != "inputJson"@,
        "target"@ != "agent"@,
        "target"@ != "sessionMode"@,
        "target"@ != "sessionId"@,
        "target"@ != "workflow"@,
        "inputMessage"@ != "enabled"@,
        "inputMessage"@ != "inputJson"@,
        "inputMessage"@ != "agent"@,
        "inputMessage"@ != "sessionMode"@,
        "inputMessage"@ != "sessionId"@,
        "inputMessage"@ != "workflow"@,
        "enabled"@ != "inputJson"@,
        "enabled"@ != "agent"@,
        "enabled"@ != "sessionMode"@,
        "enabled"@ != "sessionId"@,
        "enabled"@ != "workflow"@,
        "inputJson"@ != "agent"@,
        "inputJson"@ != "sessionMode"@,
        "inputJson"@ != "sessionId"@,
        "inputJson"@ != "workflow"@,
        "agent"@ != "sessionMode"@,
        "agent"@ != "sessionId"@,
        "agent"@ != "workflow"@,
        "sessionMode"@ != "sessionId"@,
        "sessionMode"@ != "workflow"@,
        "sessionId"@ != "workflow"@,
{
    reveal_strlit("kind");
    reveal_strlit("cron");
    reveal_strlit("intervalSeconds");
    reveal_strlit("runAt");
    reveal_strlit("timezone");
    reveal_strlit("target");
    reveal_strlit("inputMessage");
    reveal_strlit("enabled");
    reveal_strlit("inputJson");
    reveal_strlit("agent");
    reveal_strlit("sessionMode");
    reveal_strlit("sessionId");
    reveal_strlit("workflow");
    assert("kind"@.len() == 4);
    assert("cron"@.len() == 4);
    assert("intervalSeconds"@.len() == 15);
    assert("runAt"@.len() == 5);
    assert("timezone"@.len() == 8);
    assert("target"@.len() == 6);
    assert("inputMessage"@.len() == 12);
    assert("enabled"@.len() == 7);
    assert("inputJson"@.len() == 9);
    assert("agent"@.len() == 5);
    assert("sessionMode"@.len() == 11);
    assert("sessionId"@.len() == 9);
    assert("workflow"@.len() == 8);
    assert("kind"@[0] != "cron"@[0]);
    assert("runAt"@[0] != "agent"@[0]);
    assert("timezone"@[0] != "workflow"@[0]);
    assert("inputJson"@[0] != "sessionId"@[0]);
}


proof fn lemma_template_keys()
    ensures
        "image"@ != "workspace"@,
        "image"@ != "setup"@,
        "image"@ != "network"@,
        "image"@ != "filesystem"@,
        "image"@ != "leasePolicy"@,
        "image"@ != "mode"@,
        "image"@ != "mountPath"@,
        "image"@ != "packages"@,
        "image"@ != "commands"@,
        "image"@ != "writable"@,
        "image"@ != "readonly"@,
        "workspace"@ != "setup"@,
        "workspace"@ != "network"@,
        "workspace"@ != "filesystem"@,
        "workspace"@ != "leasePolicy"@,
        "workspace"@ != "mode"@,
        "workspace"@ != "mountPath"@,
        "workspace"@ != "packages"@,
        "workspace"@ != "commands"@,
        "workspace"@ != "writable"@,
        "workspace"@ != "readonly"@,
        "setup"@ != "network"@,
        "setup"@ != "filesystem"@,
        "setup"@ != "leasePolicy"@,
        "setup"@ != "mode"@,
        "setup"@ != "mountPath"@,
        "setup"@ != "packages"@,
        "setup"@ != "commands"@,
        "setup"@ != "writable"@,
        "setup"@ != "readonly"@,
        "network"@ != "filesystem"@,
        "network"@ != "leasePolicy"@,
        "network"@ != "mode"@,
        "network"@ != "mountPath"@,
        "network"@ != "packages"@,
        "network"@ != "commands"@,
        "network"@ != "writable"@,
        "network"@ != "readonly"@,
        "filesystem"@ != "leasePolicy"@,
        "filesystem"@ != "mode"@,
        "filesystem"@ != "mountPath"@,
        "filesystem"@ != "packages"@,
        "filesystem"@ != "commands"@,
        "filesystem"@ != "writable"@,
        "filesystem"@ != "readonly"@,
        "leasePolicy"@ != "mode"@,
        "leasePolicy"@ != "mountPath"@,
        "leasePolicy"@ != "packages"@,
        "leasePolicy"@ != "commands"@,
        "leasePolicy"@ != "writable"@,
        "leasePolicy"@ != "readonly"@,
        "mode"@ != "mountPath"@,
        "mode"@ != "packages"@,
        "mode"@ != "commands"@,
        "mode"@ != "writable"@,
        "mode"@ != "readonly"@,
        "mountPath"@ != "packages"@,
        "mountPath"@ != "commands"@,
        "mountPath"@ != "writable"@,
        "mountPath"@ != "readonly"@,
        "packages"@ != "commands"@,
        "packages"@ != "writable"@,
        "packages"@ != "readonly"@,
        "commands"@ != "writable"@,
        "commands"@ != "readonly"@,
        "writable"@ != "readonly"@,
{
    reveal_strlit("image");
    reveal_strlit("workspace");
    reveal_strlit("setup");
    reveal_strlit("network");
    reveal_strlit("filesystem");
    reveal_strlit("leasePolicy");
    reveal_strlit("mode");
    reveal_strlit("mountPath");
    reveal_strlit("packages");
    reveal_strlit("commands");
    reveal_strlit("writable");
    reveal_strlit("readonly");
    assert("image"@.len() == 5);
    assert("workspace"@.len() == 9);
    assert("setup"@.len() == 5);
    assert("network"@.len() == 7);
    assert("filesystem"@.len() == 10);
    assert("leasePolicy"@.len() == 11);
    assert("mode"@.len() == 4);
    assert("mountPath"@.len() == 9);
    assert("packages"@.len() == 8);
    assert("commands"@.len() == 8);
    assert("writable"@.len() == 8);
    assert("readonly"@.len() == 8);
    assert("image"@[0] != "setup"@[0]);
    assert("workspace"@[0] != "mountPath"@[0]);
    assert("packages"@[0] != "commands"@[0]);
    assert("packages"@[0] != "writable"@[0]);
    assert("packages"@[0] != "readonly"@[0]);
    assert("commands"@[0] != "writable"@[0]);
    assert("commands"@[0] != "readonly"@[0]);
    assert("writable"@[0] != "readonly"@[0]);
}

// ---------------------------------------------------------------------------
// Writing specs

/// Whether `j` is the document of a reference that may be missing: `null`
/// when it is.
pub open spec fn opt_ref_json(r: Option<ResourceRef>, j: Json) -> bool {
    match r {
        Some(x) => ref_json(ref_view(x), j),
        None => j is Null,
    }
}

fn opt_ref_to_json(r: &Option<ResourceRef>) -> (j: Json)
    ensures
        opt_ref_json(*r, j),
{
    match r {
        Some(x) => resource_ref_json(x),
        None => Json::Null,
    }
}

/// Whether `j` is the document of the DeploymentReplica spec `s`.
pub open spec fn deployment_replica_spec_json(s: DeploymentReplicaSpec, j: Json) -> bool {
    &&& j is Object
    &&& field(j, "deploymentRef"@) matches Some(x) && opt_ref_json(s.deployment_ref, x)
    &&& is_str(field(j, "targetNamespace"@), s.target_namespace@)
    &&& within(entries_of(j), set!["deploymentRef"@, "targetNamespace"@])
}

/// Writes a DeploymentReplica's spec.
pub fn deployment_replica_spec_to_json(s: &DeploymentReplicaSpec) -> (r: Json)
    ensures
        deployment_replica_spec_json(*s, r),
{
    proof {
        lemma_replica_spec_keys();
    }
    let mut m: Vec<(String, Json)> = Vec::new();
    insert_entry(&mut m, "deploymentRef", opt_ref_to_json(&s.deployment_ref));
    put_full_str(&mut m, "targetNamespace", &s.target_namespace);
    assert forall|k: Seq<char>| #[trigger] entries_get(m@, k) is Some implies set![
        "deploymentRef"@,
        "targetNamespace"@,
    ].contains(k) by {
        lemma_empty_entries(k);
    }
    Json::Object(m)
}

/// A DeploymentReplica spec with a deployment reference, written and read
/// back, is the same spec.
pub proof fn lemma_deployment_replica_spec_round_trip(s: DeploymentReplicaSpec, j: Json)
    requires
        deployment_replica_spec_json(s, j),
        s.deployment_ref is Some,
    ensures
        deployment_replica_spec_read(j, s),
{
    lemma_ref_round_trip(ref_view(s.deployment_ref->0), field(j, "deploymentRef"@)->0);
}

proof fn lemma_ref_round_trip(r: RefView, j: Json)
    requires
        ref_json(r, j),
    ensures
        ref_of_json(j) == r,
{
}

/// Whether `j` is the document of the SandboxClass spec `s` whose embedded
/// texts read as `config` and `credentials`.
pub open spec fn sandbox_class_spec_json(s: SandboxClassSpec, config: Json, credentials: Json, j: Json) -> bool {
    &&& j is Object
    &&& is_str(field(j, "provider"@), s.provider@)
    &&& field(j, "providerConfig"@) == Some(config)
    &&& field(j, "credentials"@) == Some(credentials)
    &&& within(entries_of(j), set!["provider"@, "providerConfig"@, "credentials"@])
}

/// Writes a SandboxClass's spec; `config` and `credentials` are what its
/// provider configuration and credentials texts read as (an empty object
/// for blank text).
pub fn sandbox_class_spec_to_json(s: &SandboxClassSpec, config: Json, credentials: Json) -> (r: Json)
    ensures
        sandbox_class_spec_json(*s, config, credentials, r),
{
    proof {
        lemma_class_spec_keys();
    }
    let mut m: Vec<(String, Json)> = Vec::new();
    put_full_str(&mut m, "provider", &s.provider);
    insert_entry(&mut m, "providerConfig", config);
    insert_entry(&mut m, "credentials", credentials);
    assert forall|k: Seq<char>| #[trigger] entries_get(m@, k) is Some implies set![
        "provider"@,
        "providerConfig"@,
        "credentials"@,
    ].contains(k) by {
        lemma_empty_entries(k);
    }
    Json::Object(m)
}

/// A SandboxClass spec written and read back is the same spec, when its
/// texts are the compact texts of the values they read as.
pub proof fn lemma_sandbox_class_spec_round_trip(s: SandboxClassSpec, config: Json, credentials: Json, j: Json)
    requires
        sandbox_class_spec_json(s, config, credentials, j),
        json_text(config) == s.provider_config_json@,
        json_text(credentials) == s.credentials_json@,
    ensures
        sandbox_class_spec_decoded(j, Ok(s)),
{
}

/// Whether `j` is the document of the SandboxPolicy spec `s`.
pub open spec fn sandbox_policy_spec_json(s: SandboxPolicySpec, j: Json) -> bool {
    &&& j is Object
    &&& field(j, "classRef"@) matches Some(x) && opt_ref_json(s.class_ref, x)
    &&& field(j, "template"@) matches Some(x) && match s.template {
        Some(t) => template_json(t, x),
        None => x is Object && within(entries_of(x), Set::empty()),
    }
    &&& field(j, "maxConcurrent"@) == Some(Json::PosInt(s.max_concurrent as u64))
    &&& within(entries_of(j), set!["classRef"@, "template"@, "maxConcurrent"@])
}

/// Writes a SandboxPolicy's spec.
pub fn sandbox_policy_spec_to_json(s: &SandboxPolicySpec) -> (r: Json)
    ensures
        sandbox_policy_spec_json(*s, r),
{
    proof {
        lemma_policy_spec_keys();
    }
    let mut m: Vec<(String, Json)> = Vec::new();
    insert_entry(&mut m, "classRef", opt_ref_to_json(&s.class_ref));
    let t = match &s.template {
        Some(t) => Some(t),
        None => None,
    };
    insert_entry(&mut m, "template", sandbox_runtime_template_to_json_value(t));
    insert_entry(&mut m, "maxConcurrent", Json::PosInt(s.max_concurrent as u64));
    assert forall|k: Seq<char>| #[trigger] entries_get(m@, k) is Some implies set![
        "classRef"@,
        "template"@,
        "maxConcurrent"@,
    ].contains(k) by {
        lemma_empty_entries(k);
    }
    Json::Object(m)
}

/// Whether `j` is the document of the Sandbox spec `s`.
pub open spec fn sandbox_spec_json(s: SandboxSpec, j: Json) -> bool {
    &&& j is Object
    &&& is_str(field(j, "policyRef"@), s.policy_ref@)
    &&& field(j, "classRef"@) matches Some(x) && opt_ref_json(s.class_ref, x)
    &&& field(j, "runtimeTemplate"@) matches Some(x) && match s.runtime_template {
        Some(t) => template_json(t, x),
        None => x is Object && within(entries_of(x), Set::empty()),
    }
    &&& within(entries_of(j), set!["policyRef"@, "classRef"@, "runtimeTemplate"@])
}

/// Writes a Sandbox's spec.
pub fn sandbox_spec_to_json(s: &SandboxSpec) -> (r: Json)
    ensures
        sandbox_spec_json(*s, r),
{
    proof {
        lemma_sandbox_spec_keys();
    }
    let mut m: Vec<(String, Json)> = Vec::new();
    put_full_str(&mut m, "policyRef", &s.policy_ref);
    insert_entry(&mut m, "classRef", opt_ref_to_json(&s.class_ref));
    let t = match &s.runtime_template {
        Some(t) => Some(t),
        None => None,
    };
    insert_entry(&mut m, "runtimeTemplate", sandbox_runtime_template_to_json_value(t));
    assert forall|k: Seq<char>| #[trigger] entries_get(m@, k) is Some implies set![
        "policyRef"@,
        "classRef"@,
        "runtimeTemplate"@,
    ].contains(k) by {
        lemma_empty_entries(k);
    }
    Json::Object(m)
}

proof fn lemma_replica_spec_keys()
    ensures
        "deploymentRef"@ != "targetNamespace"@,
{
    reveal_strlit("deploymentRef");
    reveal_strlit("targetNamespace");
    assert("deploymentRef"@.len() == 13);
    assert("targetNamespace"@.len() == 15);
}

proof fn lemma_class_spec_keys()
    ensures
        "provider"@ != "providerConfig"@,
        "provider"@ != "credentials"@,
        "providerConfig"@ != "credentials"@,
{
    reveal_strlit("provider");
    reveal_strlit("providerConfig");
    reveal_strlit("credentials");
    assert("provider"@.len() == 8);
    assert("providerConfig"@.len() == 14);
    assert("credentials"@.len() == 11);
}

proof fn lemma_policy_spec_keys()
    ensures
        "classRef"@ != "template"@,
        "classRef"@ != "maxConcurrent"@,
        "template"@ != "maxConcurrent"@,
{
    reveal_strlit("classRef");
    reveal_strlit("template");
    reveal_strlit("maxConcurrent");
    assert("classRef"@.len() == 8);
    assert("template"@.len() == 8);
    assert("maxConcurrent"@.len() == 13);
    assert("classRef"@[0] != "template"@[0]);
}

proof fn lemma_sandbox_spec_keys()
    ensures
        "policyRef"@ != "classRef"@,
        "policyRef"@ != "runtimeTemplate"@,
        "classRef"@ != "runtimeTemplate"@,
{
    reveal_strlit("policyRef");
    reveal_strlit("classRef");
    reveal_strlit("runtimeTemplate");
    assert("policyRef"@.len() == 9);
    assert("classRef"@.len() == 8);
    assert("runtimeTemplate"@.len() == 15);
}

/// Whether the template `t` is complete and its mount path allowed.
pub open spec fn template_complete(t: SandboxRuntimeTemplate) -> bool {
    &&& t.workspace matches Some(w) && mount_path_allowed(w.mount_path@)
    &&& t.setup is Some
    &&& t.network is Some
    &&& t.filesystem is Some
    &&& t.lease_policy is Some
}

/// A SandboxPolicy spec with a class reference and a complete template
/// whose mount path is allowed, written and read back, is the same spec.
pub proof fn lemma_sandbox_policy_spec_round_trip(s: SandboxPolicySpec, j: Json)
    requires
        sandbox_policy_spec_json(s, j),
        s.class_ref is Some,
        s.template matches Some(t) && template_complete(t),
    ensures
        sandbox_policy_spec_decoded(j, Ok(s)),
{
    reveal_with_fuel(json_at, 3);
    lemma_spec_not_template_key();
    lemma_quota_not_policy_key();
    let t = s.template->0;
    let x = field(j, "template"@)->0;
    lemma_template_round_trip(t, x);
    lemma_ref_round_trip(ref_view(s.class_ref->0), field(j, "classRef"@)->0);
    assert(entries_get(entries_of(x), "spec"@) is None);
    assert(json_at(j, seq!["template"@, "spec"@]) is None);
    assert(entries_get(entries_of(j), "quota"@) is None);
    assert(json_at(j, seq!["quota"@, "maxConcurrent"@]) is None);
}

/// A Sandbox spec with a class reference and a complete template whose
/// mount path is allowed, written and read back, is the same spec.
pub proof fn lemma_sandbox_spec_round_trip(s: SandboxSpec, j: Json)
    requires
        sandbox_spec_json(s, j),
        s.class_ref is Some,
        s.runtime_template matches Some(t) && template_complete(t),
    ensures
        sandbox_spec_decoded(j, Ok(s)),
{
    let t = s.runtime_template->0;
    lemma_template_round_trip(t, field(j, "runtimeTemplate"@)->0);
    lemma_ref_round_trip(ref_view(s.class_ref->0), field(j, "classRef"@)->0);
}

proof fn lemma_spec_not_template_key()
    ensures
        "spec"@ != "image"@,
        "spec"@ != "workspace"@,
        "spec"@ != "setup"@,
        "spec"@ != "network"@,
        "spec"@ != "filesystem"@,
        "spec"@ != "leasePolicy"@,
{
    reveal_strlit("spec");
    reveal_strlit("image");
    reveal_strlit("workspace");
    reveal_strlit("setup");
    reveal_strlit("network");
    reveal_strlit("filesystem");
    reveal_strlit("leasePolicy");
    assert("spec"@.len() == 4);
    assert("image"@.len() == 5);
    assert("workspace"@.len() == 9);
    assert("setup"@.len() == 5);
    assert("network"@.len() == 7);
    assert("filesystem"@.len() == 10);
    assert("leasePolicy"@.len() == 11);
}

proof fn lemma_quota_not_policy_key()
    ensures
        "quota"@ != "classRef"@,
        "quota"@ != "template"@,
        "quota"@ != "maxConcurrent"@,
{
    reveal_strlit("quota");
    reveal_strlit("classRef");
    reveal_strlit("template");
    reveal_strlit("maxConcurrent");
    assert("quota"@.len() == 5);
    assert("classRef"@.len() == 8);
    assert("template"@.len() == 8);
    assert("maxConcurrent"@.len() == 13);
}

// ---------------------------------------------------------------------------
// Permission requests

/// A PermissionRequest's spec: who asks, in which session, for what, and
/// the JSON text of the request's payload.
#[derive(Clone, Debug)]
pub struct PermissionRequestSpec {
    pub agent: String,
    pub session_id: String,
    pub action: String,
    pub prompt: String,
    pub payload_json: String,
}

/// The payload of a PermissionRequest spec document: `null` when missing.
pub open spec fn payload_of(v: Json) -> Json {
    match field(v, "payload"@) {
        Some(p) => p,
        None => Json::Null,
    }
}

/// Whether `s` is what a PermissionRequest spec document `v` is read as.
pub open spec fn permission_request_spec_read(v: Json, s: PermissionRequestSpec) -> bool {
    &&& s.agent@ == str_or_empty(field(v, "agent"@))
    &&& s.session_id@ == str_or_empty(field(v, "sessionId"@))
    &&& s.action@ == str_or_empty(field(v, "action"@))
    &&& s.prompt@ == str_or_empty(field(v, "prompt"@))
    &&& s.payload_json@ == json_text(payload_of(v))
}

/// Reads a PermissionRequest's spec.
pub fn permission_request_spec_from_value(v: &Json) -> (r: PermissionRequestSpec)
    ensures
        permission_request_spec_read(*v, r),
{
    let null = Json::Null;
    let payload = match get(v, "payload") {
        Some(p) => p,
        None => &null,
    };
    PermissionRequestSpec {
        agent: str_field(v, "agent"),
        session_id: str_field(v, "sessionId"),
        action: str_field(v, "action"),
        prompt: str_field(v, "prompt"),
        payload_json: json_to_text(payload),
    }
}

/// Whether `j` is the document of the PermissionRequest spec `s` whose
/// payload text reads as `payload`.
pub open spec fn permission_request_spec_json(s: PermissionRequestSpec, payload: Json, j: Json) -> bool {
    &&& j is Object
    &&& is_str(field(j, "agent"@), s.agent@)
    &&& is_str(field(j, "sessionId"@), s.session_id@)
    &&& is_str(field(j, "action"@), s.action@)
    &&& is_str(field(j, "prompt"@), s.prompt@)
    &&& field(j, "payload"@) == Some(payload)
    &&& within(entries_of(j), set!["agent"@, "sessionId"@, "action"@, "prompt"@, "payload"@])
}

/// Writes a PermissionRequest's spec; `payload` is what its payload text
/// reads as (an empty object for blank text).
pub fn permission_request_spec_to_json(s: &PermissionRequestSpec, payload: Json) -> (r: Json)
    ensures
        permission_request_spec_json(*s, payload, r),
{
    proof {
        lemma_permission_request_spec_keys();
    }
    let mut m: Vec<(String, Json)> = Vec::new();
    put_full_str(&mut m, "agent", &s.agent);
    put_full_str(&mut m, "sessionId", &s.session_id);
    put_full_str(&mut m, "action", &s.action);
    put_full_str(&mut m, "prompt", &s.prompt);
    insert_entry(&mut m, "payload", payload);
    assert forall|k: Seq<char>| #[trigger] entries_get(m@, k) is Some implies set![
        "agent"@,
        "sessionId"@,
        "action"@,
        "prompt"@,
        "payload"@,
    ].contains(k) by {
        lemma_empty_entries(k);
    }
    Json::Object(m)
}

/// A PermissionRequest spec written and read back is the same spec, when
/// its payload text is the compact text of the value it reads as.
pub proof fn lemma_permission_request_spec_round_trip(s: PermissionRequestSpec, payload: Json, j: Json)
    requires
        permission_request_spec_json(s, payload, j),
        json_text(payload) == s.payload_json@,
    ensures
        permission_request_spec_read(j, s),
{
}

proof fn lemma_permission_request_spec_keys()
    ensures
        "agent"@ != "sessionId"@,
        "agent"@ != "action"@,
        "agent"@ != "prompt"@,
        "agent"@ != "payload"@,
        "sessionId"@ != "action"@,
        "sessionId"@ != "prompt"@,
        "sessionId"@ != "payload"@,
        "action"@ != "prompt"@,
        "action"@ != "payload"@,
        "prompt"@ != "payload"@,
{
    reveal_strlit("agent");
    reveal_strlit("sessionId");
    reveal_strlit("action");
    reveal_strlit("prompt");
    reveal_strlit("payload");
    assert("agent"@.len() == 5);
    assert("sessionId"@.len() == 9);
    assert("action"@.len() == 6);
    assert("prompt"@.len() == 6);
    assert("payload"@.len() == 7);
    assert("action"@[0] != "prompt"@[0]);
}


// ---------------------------------------------------------------------------
// Deployments and skills

/// The namespaces a deployment places its templates in: the children of
/// `parent` whose labels include `match_labels`.
#[derive(Clone, Debug)]
pub struct NamespaceSelector {
    pub parent: String,
    pub match_labels: Vec<(String, String)>,
}

/// A Deployment's spec: where it is placed, and its templates, each kept as
/// the document it was given as.
#[derive(Debug)]
pub struct DeploymentSpec {
    pub namespace_selector: Option<NamespaceSelector>,
    pub templates: Vec<Json>,
}

/// The texts of a label list.
pub open spec fn labels_view(ls: Seq<(String, String)>) -> Seq<(Seq<char>, Seq<char>)> {
    ls.map_values(|l: (String, String)| (l.0@, l.1@))
}

/// The entries of an object as texts when every value is a string; nothing
/// when one is not.
pub open spec fn str_entries(es: Seq<(String, Json)>) -> Option<Seq<(Seq<char>, Seq<char>)>>
    decreases es.len(),
{
    if es.len() == 0 {
        Some(seq![])
    } else {
        match (es.last().1, str_entries(es.drop_last())) {
            (Json::Str(t), Some(f)) => Some(f.push((es.last().0@, t@))),
            _ => None,
        }
    }
}

/// The labels a `matchLabels` value is read as: an object of strings as it
/// is, anything else as no labels.
pub open spec fn labels_of(v: Option<Json>) -> Seq<(Seq<char>, Seq<char>)> {
    match v {
        Some(Json::Object(es)) => match str_entries(es@) {
            Some(l) => l,
            None => seq![],
        },
        _ => seq![],
    }
}

/// The field `key` of a deployment spec's `placement.namespaceSelector`.
pub open spec fn selector_field(v: Json, key: Seq<char>) -> Option<Json> {
    match field(v, "placement"@) {
        Some(p) => match field(p, "namespaceSelector"@) {
            Some(x) => field(x, key),
            None => None,
        },
        None => None,
    }
}

/// Whether `s` is what a Deployment spec document `v` is read as: a
/// selector whose parent and labels are those under
/// `placement.namespaceSelector` (empty when missing), and the `templates`
/// array's items (none when it is not an array).
pub open spec fn deployment_spec_read(v: Json, s: DeploymentSpec) -> bool {
    &&& s.namespace_selector matches Some(ns)
    &&& ns.parent@ == str_or_empty(selector_field(v, "parent"@))
    &&& labels_view(ns.match_labels@) == labels_of(selector_field(v, "matchLabels"@))
    &&& s.templates@ == match field(v, "templates"@) {
        Some(Json::Array(items)) => items@,
        _ => Seq::<Json>::empty(),
    }
}

proof fn lemma_str_entries_prefix(s: Seq<(String, Json)>, i: int)
    requires
        0 <= i <= s.len(),
        str_entries(s.take(i)) is None,
    ensures
        str_entries(s) is None,
    decreases s.len(),
{
    if i == s.len() {
        assert(s.take(i) =~= s);
    } else {
        assert(s.drop_last().take(i) =~= s.take(i));
        lemma_str_entries_prefix(s.drop_last(), i);
    }
}

/// Reads a `matchLabels` value.
#[verifier::loop_isolation(false)]
fn labels_from(v: Option<&Json>) -> (r: Vec<(String, String)>)
    ensures
        labels_view(r@) == labels_of(
            match v {
                Some(x) => Some(*x),
                None => None,
            },
        ),
{
    let empty: Vec<(String, String)> = Vec::new();
    proof {
        assert(labels_view(empty@) =~= Seq::<(Seq<char>, Seq<char>)>::empty());
    }
    match v {
        Some(Json::Object(es)) => {
            let mut out: Vec<(String, String)> = Vec::new();
            let mut i: usize = 0;
            proof {
                assert(es@.take(0) =~= Seq::<(String, Json)>::empty());
                assert(labels_view(out@) =~= Seq::<(Seq<char>, Seq<char>)>::empty());
            }
            while i < es.len()
                invariant
                    i <= es.len(),
                    str_entries(es@.take(i as int)) == Some(labels_view(out@)),
                decreases es.len() - i,
            {
                proof {
                    assert(es@.take(i + 1).drop_last() =~= es@.take(i as int));
                    assert(es@.take(i + 1).last() == es@[i as int]);
                }
                match &es[i].1 {
                    Json::Str(t) => {
                        let ghost pre = labels_view(out@);
                        out.push((owned(es[i].0.as_str()), owned(t.as_str())));
                        proof {
                            assert(labels_view(out@) =~= pre.push((es@[i as int].0@, t@)));
                        }
                    },
                    _ => {
                        proof {
                            assert(!(es@[i as int].1 is Str));
                            assert(str_entries(es@.take(i + 1)) is None);
                            lemma_str_entries_prefix(es@, i + 1);
                            assert(labels_of(Some(Json::Object(*es))) =~= Seq::<(Seq<char>, Seq<char>)>::empty());
                        }
                        let none: Vec<(String, String)> = Vec::new();
                        proof {
                            assert(labels_view(none@) =~= Seq::<(Seq<char>, Seq<char>)>::empty());
                        }
                        return none;
                    },
                }
                i += 1;
            }
            proof {
                assert(es@.take(i as int) =~= es@);
            }
            out
        },
        _ => empty,
    }
}

/// Reads a Deployment's spec.
pub fn deployment_spec_from_value(v: Json) -> (r: DeploymentSpec)
    ensures
        deployment_spec_read(v, r),
{
    let (parent, labels) = {
        let sel = match get(&v, "placement") {
            Some(p) => get(p, "namespaceSelector"),
            None => None,
        };
        match sel {
            Some(x) => (str_field(x, "parent"), labels_from(get(x, "matchLabels"))),
            None => {
                let l = labels_from(None);
                (String::new(), l)
            },
        }
    };
    let ghost whole = v;
    let templates = match v {
        Json::Object(mut es) => match remove_entry(&mut es, "templates") {
            Some(Json::Array(items)) => items,
            _ => Vec::new(),
        },
        _ => Vec::new(),
    };
    DeploymentSpec {
        namespace_selector: Some(NamespaceSelector { parent, match_labels: labels }),
        templates,
    }
}

/// `j` is the object of the labels `ls`: one string entry for each, in
/// order.
pub open spec fn labels_json(ls: Seq<(Seq<char>, Seq<char>)>, j: Json) -> bool {
    &&& j matches Json::Object(es)
    &&& es@.len() == ls.len()
    &&& forall|i: int|
        0 <= i < ls.len() ==> #[trigger] es@[i].0@ == ls[i].0 && (es@[i].1 matches Json::Str(t) && t@
            == ls[i].1)
}

/// Whether `j` is the document of the Deployment spec `s`: its placement's
/// `namespaceSelector` (`null` without one) and its templates.
pub open spec fn deployment_spec_json(s: DeploymentSpec, j: Json) -> bool {
    &&& j is Object
    &&& within(entries_of(j), set!["placement"@, "templates"@])
    &&& field(j, "placement"@) matches Some(p)
    &&& p is Object
    &&& within(entries_of(p), set!["namespaceSelector"@])
    &&& field(p, "namespaceSelector"@) matches Some(x)
    &&& match s.namespace_selector {
        None => x is Null,
        Some(ns) => {
            &&& x is Object
            &&& within(entries_of(x), set!["parent"@, "matchLabels"@])
            &&& is_str(field(x, "parent"@), ns.parent@)
            &&& field(x, "matchLabels"@) matches Some(l)
            &&& labels_json(labels_view(ns.match_labels@), l)
        },
    }
    &&& field(j, "templates"@) matches Some(Json::Array(items))
    &&& items@ == s.templates@
}

/// The object of a label list.
fn labels_to_json(ls: &Vec<(String, String)>) -> (r: Json)
    ensures
        labels_json(labels_view(ls@), r),
{
    let mut es: Vec<(String, Json)> = Vec::new();
    let mut i: usize = 0;
    while i < ls.len()
        invariant
            i <= ls.len(),
            es@.len() == i,
            forall|k: int|
                0 <= k < i ==> #[trigger] es@[k].0@ == ls@[k].0@ && (es@[k].1 matches Json::Str(t) && t@
                    == ls@[k].1@),
        decreases ls.len() - i,
    {
        es.push((owned(ls[i].0.as_str()), Json::Str(owned(ls[i].1.as_str()))));
        i += 1;
    }
    proof {
        let lv = labels_view(ls@);
        assert(lv.len() == es@.len());
        assert forall|k: int| 0 <= k < lv.len() implies #[trigger] es@[k].0@ == lv[k].0 && (es@[k].1 matches Json::Str(
            t,
        ) && t@ == lv[k].1) by {
            assert(lv[k] == (ls@[k].0@, ls@[k].1@));
        }
    }
    Json::Object(es)
}

/// Writes a Deployment's spec.
pub fn deployment_spec_to_json(s: DeploymentSpec) -> (r: Json)
    ensures
        deployment_spec_json(s, r),
{
    proof {
        lemma_deployment_spec_keys();
    }
    let ghost given = s;
    let DeploymentSpec { namespace_selector, templates } = s;
    let sel = match namespace_selector {
        None => Json::Null,
        Some(ns) => {
            let mut m: Vec<(String, Json)> = Vec::new();
            put_full_str(&mut m, "parent", &ns.parent);
            insert_entry(&mut m, "matchLabels", labels_to_json(&ns.match_labels));
            assert forall|k: Seq<char>| #[trigger] entries_get(m@, k) is Some implies set![
                "parent"@,
                "matchLabels"@,
            ].contains(k) by {
                lemma_empty_entries(k);
            }
            Json::Object(m)
        },
    };
    let mut placement: Vec<(String, Json)> = Vec::new();
    insert_entry(&mut placement, "namespaceSelector", sel);
    assert forall|k: Seq<char>| #[trigger] entries_get(placement@, k) is Some implies set![
        "namespaceSelector"@,
    ].contains(k) by {
        lemma_empty_entries(k);
    }
    let mut m: Vec<(String, Json)> = Vec::new();
    insert_entry(&mut m, "placement", Json::Object(placement));
    insert_entry(&mut m, "templates", Json::Array(templates));
    assert forall|k: Seq<char>| #[trigger] entries_get(m@, k) is Some implies set![
        "placement"@,
        "templates"@,
    ].contains(k) by {
        lemma_empty_entries(k);
    }
    Json::Object(m)
}

/// A Deployment's spec written and read back gives its selector and
/// templates back (an absent selector reads as an empty one).
pub proof fn lemma_deployment_spec_round_trip(s: DeploymentSpec, j: Json, r: DeploymentSpec)
    requires
        deployment_spec_json(s, j),
        deployment_spec_read(j, r),
    ensures
        r.templates@ == s.templates@,
        s.namespace_selector matches Some(ns) ==> r.namespace_selector->0.parent@ == ns.parent@
            && labels_view(r.namespace_selector->0.match_labels@) == labels_view(ns.match_labels@),
{
    match s.namespace_selector {
        Some(ns) => {
            let x = selector_field(j, "matchLabels"@)->0;
            let ls = labels_view(ns.match_labels@);
            let es = x->Object_0;
            assert(str_entries(es@) == Some(ls)) by {
                lemma_labels_read(es@, ls);
            }
        },
        None => {},
    }
}

proof fn lemma_labels_read(es: Seq<(String, Json)>, ls: Seq<(Seq<char>, Seq<char>)>)
    requires
        es.len() == ls.len(),
        forall|i: int|
            0 <= i < ls.len() ==> #[trigger] es[i].0@ == ls[i].0 && (es[i].1 matches Json::Str(t) && t@
                == ls[i].1),
    ensures
        str_entries(es) == Some(ls),
    decreases es.len(),
{
    if es.len() > 0 {
        let n = es.len() - 1;
        assert(es[n].0@ == ls[n].0);
        lemma_labels_read(es.drop_last(), ls.drop_last());
        assert(ls.drop_last().push(ls.last()) =~= ls);
    } else {
        assert(ls =~= Seq::<(Seq<char>, Seq<char>)>::empty());
    }
}

/// A Skill's spec.
#[derive(Clone, Debug)]
pub struct SkillSpec {
    pub description: String,
    pub instructions: String,
}

/// What reading a Skill spec document gives: its description and
/// instructions, each required to be non-blank, the description first.
pub open spec fn skill_spec_decoded(v: Json, r: Result<SkillSpec, ManifestError>) -> bool {
    let d = str_or_empty(field(v, "description"@));
    let i = str_or_empty(field(v, "instructions"@));
    if is_blank(d) {
        r matches Err(e) && e == ManifestError::SkillDescriptionRequired
    } else if is_blank(i) {
        r matches Err(e) && e == ManifestError::SkillInstructionsRequired
    } else {
        r matches Ok(s) && s.description@ == d && s.instructions@ == i
    }
}

/// Reads a Skill's spec.
pub fn skill_spec_from_value(v: &Json) -> (r: Result<SkillSpec, ManifestError>)
    ensures
        skill_spec_decoded(*v, r),
{
    let description = str_field(v, "description");
    if blank(description.as_str()) {
        return Err(ManifestError::SkillDescriptionRequired);
    }
    let instructions = str_field(v, "instructions");
    if blank(instructions.as_str()) {
        return Err(ManifestError::SkillInstructionsRequired);
    }
    Ok(SkillSpec { description, instructions })
}

/// Whether `j` is the document of the Skill spec `s`.
pub open spec fn skill_spec_json(s: SkillSpec, j: Json) -> bool {
    &&& j is Object
    &&& is_str(field(j, "description"@), s.description@)
    &&& is_str(field(j, "instructions"@), s.instructions@)
    &&& within(entries_of(j), set!["description"@, "instructions"@])
}

/// Writes a Skill's spec.
pub fn skill_spec_to_json(s: &SkillSpec) -> (r: Json)
    ensures
        skill_spec_json(*s, r),
{
    proof {
        lemma_skill_spec_keys();
    }
    let mut m: Vec<(String, Json)> = Vec::new();
    put_full_str(&mut m, "description", &s.description);
    put_full_str(&mut m, "instructions", &s.instructions);
    assert forall|k: Seq<char>| #[trigger] entries_get(m@, k) is Some implies set![
        "description"@,
        "instructions"@,
    ].contains(k) by {
        lemma_empty_entries(k);
    }
    Json::Object(m)
}

proof fn lemma_deployment_spec_keys()
    ensures
        "placement"@ != "templates"@,
        "placement"@ != "namespaceSelector"@,
        "placement"@ != "parent"@,
        "placement"@ != "matchLabels"@,
        "templates"@ != "namespaceSelector"@,
        "templates"@ != "parent"@,
        "templates"@ != "matchLabels"@,
        "namespaceSelector"@ != "parent"@,
        "namespaceSelector"@ != "matchLabels"@,
        "parent"@ != "matchLabels"@,
{
    reveal_strlit("placement");
    reveal_strlit("templates");
    reveal_strlit("namespaceSelector");
    reveal_strlit("parent");
    reveal_strlit("matchLabels");
    assert("placement"@.len() == 9);
    assert("templates"@.len() == 9);
    assert("namespaceSelector"@.len() == 17);
    assert("parent"@.len() == 6);
    assert("matchLabels"@.len() == 11);
    assert("placement"@[0] != "templates"@[0]);
}

proof fn lemma_skill_spec_keys()
    ensures
        "description"@ != "instructions"@,
{
    reveal_strlit("description");
    reveal_strlit("instructions");
    assert("description"@.len() == 11);
    assert("instructions"@.len() == 12);
}


// ---------------------------------------------------------------------------
// Files

/// A File's spec.
#[derive(Clone, Debug)]
pub struct FileSpec {
    pub path: String,
    pub media_type: String,
    pub purpose: FilePurpose,
    pub index_policy: FileIndexPolicy,
    pub retention: FileRetention,
}

/// Whether a field is absent or a string.
pub open spec fn named_or_absent(o: Option<Json>) -> bool {
    o is None || o matches Some(Json::Str(_))
}

/// Whether a File spec document is an object whose enum fields are each
/// given by name or left out.
pub open spec fn file_spec_named(v: Json) -> bool {
    &&& v is Object
    &&& named_or_absent(field(v, "purpose"@))
    &&& named_or_absent(field(v, "indexPolicy"@))
    &&& named_or_absent(field(v, "retention"@))
}

/// The text a string field is read as: empty when absent, nothing when it
/// is not a string.
pub open spec fn text_read(o: Option<Json>) -> Option<Seq<char>> {
    match o {
        None => Some(seq![]),
        Some(Json::Str(t)) => Some(t@),
        _ => None,
    }
}

/// The key an enum field names: its text normalized with `prefix` taken
/// off, and the empty key when it is absent.
pub open spec fn named_key(o: Option<Json>, prefix: Seq<char>) -> Seq<char> {
    match o {
        Some(Json::Str(t)) => enum_key_text(t@, prefix),
        _ => ""@,
    }
}

/// What reading a File spec document whose enum fields are named gives:
/// its path and media type (empty when absent), each required to be a
/// string, and its purpose, index policy and retention, each required to
/// name a value (none named is unspecified); checked in that order.
pub open spec fn file_spec_decoded(v: Json, r: Result<FileSpec, ManifestError>) -> bool {
    let pk = named_key(field(v, "purpose"@), "FILE_PURPOSE_"@);
    let ik = named_key(field(v, "indexPolicy"@), "FILE_INDEX_POLICY_"@);
    let rk = named_key(field(v, "retention"@), "FILE_RETENTION_"@);
    if text_read(field(v, "path"@)) is None {
        r matches Err(ManifestError::FileSpecField { field }) && field@ == "path"@
    } else if text_read(field(v, "mediaType"@)) is None {
        r matches Err(ManifestError::FileSpecField { field }) && field@ == "mediaType"@
    } else if file_purpose_of_key(pk) is None {
        r matches Err(ManifestError::FileSpecEnum { name, key }) && name@ == "FilePurpose"@ && key@ == pk
    } else if file_index_policy_of_key(ik) is None {
        r matches Err(ManifestError::FileSpecEnum { name, key }) && name@ == "FileIndexPolicy"@ && key@
            == ik
    } else if file_retention_of_key(rk) is None {
        r matches Err(ManifestError::FileSpecEnum { name, key }) && name@ == "FileRetention"@ && key@ == rk
    } else {
        &&& r matches Ok(s)
        &&& s.path@ == text_read(field(v, "path"@))->0
        &&& s.media_type@ == text_read(field(v, "mediaType"@))->0
        &&& s.purpose == file_purpose_of_key(pk)->0
        &&& s.index_policy == file_index_policy_of_key(ik)->0
        &&& s.retention == file_retention_of_key(rk)->0
    }
}

/// Whether a File spec document is an object whose enum fields are named.
pub fn file_spec_is_named(v: &Json) -> (r: bool)
    ensures
        r == file_spec_named(*v),
{
    if !(match v {
        Json::Object(_) => true,
        _ => false,
    }) {
        return false;
    }
    let p = match get(v, "purpose") {
        None | Some(Json::Str(_)) => true,
        _ => false,
    };
    let i = match get(v, "indexPolicy") {
        None | Some(Json::Str(_)) => true,
        _ => false,
    };
    let t = match get(v, "retention") {
        None | Some(Json::Str(_)) => true,
        _ => false,
    };
    p && i && t
}

fn text_value(v: &Json, key: &str) -> (r: Option<String>)
    ensures
        match (r, text_read(field(*v, key@))) {
            (Some(s), Some(t)) => s@ == t,
            (None, None) => true,
            _ => false,
        },
{
    match get(v, key) {
        None => Some(String::new()),
        Some(Json::Str(t)) => Some(owned(t.as_str())),
        _ => None,
    }
}

fn named_key_of(v: &Json, key: &str, prefix: &str) -> (r: String)
    ensures
        r@ == named_key(field(*v, key@), prefix@),
{
    match get(v, key) {
        Some(Json::Str(t)) => enum_key(t.as_str(), prefix),
        _ => owned(""),
    }
}

/// Reads a File's spec (see [`file_spec_decoded`]).
pub fn file_spec_from_value(v: &Json) -> (r: Result<FileSpec, ManifestError>)
    ensures
        file_spec_decoded(*v, r),
{
    let path = match text_value(v, "path") {
        Some(t) => t,
        None => {
            return Err(ManifestError::FileSpecField { field: owned("path") });
        },
    };
    let media_type = match text_value(v, "mediaType") {
        Some(t) => t,
        None => {
            return Err(ManifestError::FileSpecField { field: owned("mediaType") });
        },
    };
    let pk = named_key_of(v, "purpose", "FILE_PURPOSE_");
    let purpose = match file_purpose_by_key(pk.as_str()) {
        Some(p) => p,
        None => {
            return Err(ManifestError::FileSpecEnum { name: owned("FilePurpose"), key: pk });
        },
    };
    let ik = named_key_of(v, "indexPolicy", "FILE_INDEX_POLICY_");
    let index_policy = match file_index_policy_by_key(ik.as_str()) {
        Some(p) => p,
        None => {
            return Err(ManifestError::FileSpecEnum { name: owned("FileIndexPolicy"), key: ik });
        },
    };
    let rk = named_key_of(v, "retention", "FILE_RETENTION_");
    let retention = match file_retention_by_key(rk.as_str()) {
        Some(p) => p,
        None => {
            return Err(ManifestError::FileSpecEnum { name: owned("FileRetention"), key: rk });
        },
    };
    Ok(FileSpec { path, media_type, purpose, index_policy, retention })
}

/// Whether `j` is the document of the File spec `s`: the enums by name.
pub open spec fn file_spec_json(s: FileSpec, j: Json) -> bool {
    &&& j is Object
    &&& is_str(field(j, "path"@), s.path@)
    &&& is_str(field(j, "mediaType"@), s.media_type@)
    &&& is_str(field(j, "purpose"@), file_purpose_text(s.purpose))
    &&& is_str(field(j, "indexPolicy"@), file_index_policy_text(s.index_policy))
    &&& is_str(field(j, "retention"@), file_retention_text(s.retention))
    &&& within(entries_of(j), set!["path"@, "mediaType"@, "purpose"@, "indexPolicy"@, "retention"@])
}

/// Writes a File's spec.
pub fn file_spec_to_json(s: &FileSpec) -> (r: Json)
    ensures
        file_spec_json(*s, r),
{
    proof {
        lemma_file_spec_keys();
    }
    let mut m: Vec<(String, Json)> = Vec::new();
    put_full_str(&mut m, "path", &s.path);
    put_full_str(&mut m, "mediaType", &s.media_type);
    put_full_str(&mut m, "purpose", &owned(file_purpose_name(s.purpose)));
    put_full_str(&mut m, "indexPolicy", &owned(file_index_policy_name(s.index_policy)));
    put_full_str(&mut m, "retention", &owned(file_retention_name(s.retention)));
    assert forall|k: Seq<char>| #[trigger] entries_get(m@, k) is Some implies set![
        "path"@,
        "mediaType"@,
        "purpose"@,
        "indexPolicy"@,
        "retention"@,
    ].contains(k) by {
        lemma_empty_entries(k);
    }
    Json::Object(m)
}

proof fn lemma_file_spec_keys()
    ensures
        "path"@ != "mediaType"@,
        "path"@ != "purpose"@,
        "path"@ != "indexPolicy"@,
        "path"@ != "retention"@,
        "mediaType"@ != "purpose"@,
        "mediaType"@ != "indexPolicy"@,
        "mediaType"@ != "retention"@,
        "purpose"@ != "indexPolicy"@,
        "purpose"@ != "retention"@,
        "indexPolicy"@ != "retention"@,
{
    reveal_strlit("path");
    reveal_strlit("mediaType");
    reveal_strlit("purpose");
    reveal_strlit("indexPolicy");
    reveal_strlit("retention");
    assert("path"@.len() == 4);
    assert("mediaType"@.len() == 9);
    assert("purpose"@.len() == 7);
    assert("indexPolicy"@.len() == 11);
    assert("retention"@.len() == 9);
    assert("mediaType"@[0] != "retention"@[0]);
}


/// A File's spec written and read back is the same spec.
pub proof fn lemma_file_spec_round_trip(s: FileSpec, j: Json, r: Result<FileSpec, ManifestError>)
    requires
        file_spec_json(s, j),
        file_spec_decoded(j, r),
    ensures
        file_spec_named(j),
        r matches Ok(t) && t.path@ == s.path@ && t.media_type@ == s.media_type@ && t.purpose == s.purpose
            && t.index_policy == s.index_policy && t.retention == s.retention,
{
    lemma_file_purpose_name_round_trip(s.purpose);
    lemma_file_index_policy_name_round_trip(s.index_policy);
    lemma_file_retention_name_round_trip(s.retention);
}

} // verus!
