//! Keys of the earlier flat table layout, where a row had a `namespace`
//! column and a `/`-separated `key`, and their conversion to resource keys.

use vstd::prelude::*;
use crate::keys::{
    self, KeyError, KeyView, ResourceKey, canonical_text, key_in, key_well_formed,
    lemma_canonical_round_trip, parse_canonical_text,
};
use crate::ns;
use crate::text::{
    chars_eq, chars_of, join_chars, join_on, last_part, last_part_chars, owned, push_char, push_str, split_chars,
    split_on, str_eq, string_of, strip_prefix_chars, strip_prefix_text, strip_suffix_chars,
    strip_suffix_text, views_of,
};

verus! {

/// The namespace a legacy row is read in: the old system namespaces are
/// renamed, every other namespace stays.
pub open spec fn legacy_namespace(namespace: Seq<char>) -> Seq<char> {
    if namespace == "talon-system:ns"@ {
        "Sys:ns"@
    } else if namespace == "talon-system:ns:internal"@ {
        "Sys:ns:internal"@
    } else {
        namespace
    }
}

/// The key a legacy `/`-separated key of `namespace` names, by its parts.
pub open spec fn legacy_shape_key(namespace: Seq<char>, p: Seq<Seq<char>>) -> Option<KeyView> {
    if p.len() == 2 && p[0] == "Agent"@ {
        Some(key_in(namespace, seq![], "Agent"@, p[1]))
    } else if p.len() == 4 && p[0] == "Agent"@ && p[2] == "Session"@ {
        Some(key_in(namespace, seq![("Agent"@, p[1])], "Session"@, p[3]))
    } else if p.len() == 6 && p[0] == "Agent"@ && p[2] == "Session"@ && p[4] == "Messages"@ {
        Some(
            key_in(
                namespace,
                seq![("Agent"@, p[1]), ("Session"@, p[3])],
                "SessionMessage"@,
                p[5],
            ),
        )
    } else if p.len() == 2 && p[0] == "Schedule"@ {
        Some(key_in(namespace, seq![], "Schedule"@, p[1]))
    } else if p.len() == 2 && p[0] == "McpServer"@ {
        Some(key_in(namespace, seq![], "McpServer"@, p[1]))
    } else if p.len() == 2 && p[0] == "KnowledgeResource"@ {
        Some(key_in(namespace, seq![], "KnowledgeResource"@, p[1]))
    } else if p.len() >= 4 && p[0] == "Agent"@ && p[2] == "Memory"@ {
        Some(
            key_in(
                namespace,
                seq![("Agent"@, p[1])],
                "Memory"@,
                join_on(p.subrange(3, p.len() as int), '/'),
            ),
        )
    } else if p.len() >= 2 && p[0] == "Knowledge"@ {
        Some(key_in(namespace, seq![], "Knowledge"@, join_on(p.subrange(1, p.len() as int), '/')))
    } else {
        None
    }
}

/// Why a legacy key could not be converted.
#[derive(Clone, Debug)]
pub enum LegacyKeyError {
    /// A key of the namespace-metadata namespace without `Namespace/`.
    NamespaceMetadataKey { key: String },
    /// A key of the root namespace-edge namespace without `NamespaceRef/`.
    RootNamespaceEdgeKey { key: String },
    /// A key of a namespace-edge namespace without `NamespaceRef/`.
    NamespaceEdgeKey { key: String },
    /// A key of no known shape.
    KeyShape { namespace: String, key: String },
}

/// The kind of a legacy conversion error with the texts it carries.
pub enum LegacyKeyErrorView {
    NamespaceMetadataKey(Seq<char>),
    RootNamespaceEdgeKey(Seq<char>),
    NamespaceEdgeKey(Seq<char>),
    KeyShape(Seq<char>, Seq<char>),
}

impl View for LegacyKeyError {
    type V = LegacyKeyErrorView;

    open spec fn view(&self) -> LegacyKeyErrorView {
        match self {
            LegacyKeyError::NamespaceMetadataKey { key } => LegacyKeyErrorView::NamespaceMetadataKey(key@),
            LegacyKeyError::RootNamespaceEdgeKey { key } => LegacyKeyErrorView::RootNamespaceEdgeKey(key@),
            LegacyKeyError::NamespaceEdgeKey { key } => LegacyKeyErrorView::NamespaceEdgeKey(key@),
            LegacyKeyError::KeyShape { namespace, key } => LegacyKeyErrorView::KeyShape(namespace@, key@),
        }
    }
}

/// The description of a legacy conversion error.
pub open spec fn legacy_error_text(e: LegacyKeyErrorView) -> Seq<char> {
    match e {
        LegacyKeyErrorView::NamespaceMetadataKey(key) => "unknown legacy namespace metadata key '"@ + key
            + "'"@,
        LegacyKeyErrorView::RootNamespaceEdgeKey(key) => "unknown legacy root namespace edge key '"@
            + key + "'"@,
        LegacyKeyErrorView::NamespaceEdgeKey(key) => "unknown legacy namespace edge key '"@ + key
            + "'"@,
        LegacyKeyErrorView::KeyShape(namespace, key) => "unknown legacy key shape namespace='"@
            + namespace + "' key='"@ + key + "'"@,
    }
}

impl LegacyKeyError {
    /// A description of the error.
    pub fn message(&self) -> (m: String)
        ensures
            m@ == legacy_error_text(self@),
    {
        let mut m = String::new();
        match self {
            LegacyKeyError::NamespaceMetadataKey { key } => {
                push_str(&mut m, "unknown legacy namespace metadata key '");
                push_str(&mut m, key.as_str());
            },
            LegacyKeyError::RootNamespaceEdgeKey { key } => {
                push_str(&mut m, "unknown legacy root namespace edge key '");
                push_str(&mut m, key.as_str());
            },
            LegacyKeyError::NamespaceEdgeKey { key } => {
                push_str(&mut m, "unknown legacy namespace edge key '");
                push_str(&mut m, key.as_str());
            },
            LegacyKeyError::KeyShape { namespace, key } => {
                push_str(&mut m, "unknown legacy key shape namespace='");
                push_str(&mut m, namespace.as_str());
                push_str(&mut m, "' key='");
                push_str(&mut m, key.as_str());
            },
        }
        push_char(&mut m, '\'');
        proof {
            reveal_strlit("'");
        }
        m
    }
}

/// The resource key a legacy row of `namespace` with key `key` is moved to.
pub open spec fn legacy_key(namespace: Seq<char>, key: Seq<char>) -> Result<KeyView, LegacyKeyErrorView> {
    let ns = legacy_namespace(namespace);
    if ns == "Sys:ns"@ {
        match strip_prefix_text(key, "Namespace/"@) {
            Some(name) => Ok(key_in(ns::TALON_SYSTEM@, seq![], "Namespace"@, name)),
            None => Err(LegacyKeyErrorView::NamespaceMetadataKey(key)),
        }
    } else if ns == "Sys:ns:internal"@ {
        match strip_prefix_text(key, "NamespaceRef/"@) {
            Some(child) => Ok(key_in(ns::TALON_SYSTEM@, seq![], "NamespaceRef"@, child)),
            None => Err(LegacyKeyErrorView::RootNamespaceEdgeKey(key)),
        }
    } else if let Some(parent) = strip_suffix_text(ns, ":ns:internal"@) {
        match strip_prefix_text(key, "NamespaceRef/"@) {
            Some(full_child) => Ok(
                key_in(parent, seq![], "NamespaceRef"@, last_part(full_child, ':')),
            ),
            None => Err(LegacyKeyErrorView::NamespaceEdgeKey(key)),
        }
    } else {
        match legacy_shape_key(ns, split_on(key, '/')) {
            Some(k) => Ok(k),
            None => Err(LegacyKeyErrorView::KeyShape(ns, key)),
        }
    }
}


/// Whether `v` is exactly `word`.
fn is_word(v: &Vec<char>, word: &str) -> (r: bool)
    ensures
        r == (v@ == word@),
{
    chars_eq(v, &chars_of(word))
}

/// The key of `namespace` named by a legacy key of known shape, by its parts.
fn shape_key(namespace: &str, parts: &Vec<Vec<char>>) -> (r: Option<ResourceKey>)
    ensures
        match (r, legacy_shape_key(namespace@, views_of(parts@))) {
            (Some(k), Some(v)) => k@ == v,
            (None, None) => true,
            _ => false,
        },
{
    let ghost p = views_of(parts@);
    let n = parts.len();
    proof {
        assert(p.len() == n);
        assert forall|i: int| 0 <= i < n implies p[i] == parts@[i]@ by {}
    }
    if n == 2 && is_word(&parts[0], "Agent") {
        let name = string_of(&parts[1]);
        return Some(keys::agent(namespace, name.as_str()));
    }
    if n == 4 && is_word(&parts[0], "Agent") && is_word(&parts[2], "Session") {
        let agent = string_of(&parts[1]);
        let session = string_of(&parts[3]);
        return Some(keys::session(namespace, agent.as_str(), session.as_str()));
    }
    if n == 6 && is_word(&parts[0], "Agent") && is_word(&parts[2], "Session") && is_word(
        &parts[4],
        "Messages",
    ) {
        let agent = string_of(&parts[1]);
        let session = string_of(&parts[3]);
        let message = string_of(&parts[5]);
        return Some(
            keys::session_message(namespace, agent.as_str(), session.as_str(), message.as_str()),
        );
    }
    if n == 2 && is_word(&parts[0], "Schedule") {
        let name = string_of(&parts[1]);
        return Some(keys::schedule(namespace, name.as_str()));
    }
    if n == 2 && is_word(&parts[0], "McpServer") {
        let name = string_of(&parts[1]);
        return Some(keys::mcp_server(namespace, name.as_str()));
    }
    if n == 2 && is_word(&parts[0], "KnowledgeResource") {
        let name = string_of(&parts[1]);
        return Some(keys::knowledge_resource(namespace, name.as_str()));
    }
    if n >= 4 && is_word(&parts[0], "Agent") && is_word(&parts[2], "Memory") {
        let agent = string_of(&parts[1]);
        let path = string_of(&join_chars(parts, 3, '/'));
        return Some(keys::agent_memory(namespace, agent.as_str(), path.as_str()));
    }
    if n >= 2 && is_word(&parts[0], "Knowledge") {
        let path = string_of(&join_chars(parts, 1, '/'));
        return Some(keys::knowledge(namespace, path.as_str()));
    }
    None
}

/// The canonical key text a legacy row of `namespace` with key `key` is
/// moved to.
pub fn namespaced_key(namespace: &str, key: &str) -> (r: Result<String, LegacyKeyError>)
    ensures
        match (r, legacy_key(namespace@, key@)) {
            (Ok(s), Ok(k)) => s@ == canonical_text(k),
            (Err(e), Err(f)) => e@ == f,
            _ => false,
        },
{
    let ns: &str = if str_eq(namespace, "talon-system:ns") {
        "Sys:ns"
    } else if str_eq(namespace, "talon-system:ns:internal") {
        "Sys:ns:internal"
    } else {
        namespace
    };
    assert(ns@ == legacy_namespace(namespace@));
    let key_chars = chars_of(key);
    if str_eq(ns, "Sys:ns") {
        return match strip_prefix_chars(&key_chars, "Namespace/") {
            Some(name) => Ok(keys::namespace_metadata(string_of(&name).as_str()).canonical()),
            None => Err(LegacyKeyError::NamespaceMetadataKey { key: owned(key) }),
        };
    }
    if str_eq(ns, "Sys:ns:internal") {
        return match strip_prefix_chars(&key_chars, "NamespaceRef/") {
            Some(child) => Ok(keys::namespace_ref(None, string_of(&child).as_str()).canonical()),
            None => Err(LegacyKeyError::RootNamespaceEdgeKey { key: owned(key) }),
        };
    }
    let ns_chars = chars_of(ns);
    if let Some(parent) = strip_suffix_chars(&ns_chars, ":ns:internal") {
        return match strip_prefix_chars(&key_chars, "NamespaceRef/") {
            Some(full_child) => {
                let parent = string_of(&parent);
                let child = string_of(&last_part_chars(&full_child, ':'));
                Ok(keys::namespace_ref(Some(parent.as_str()), child.as_str()).canonical())
            },
            None => Err(LegacyKeyError::NamespaceEdgeKey { key: owned(key) }),
        };
    }
    let parts = split_chars(&key_chars, '/');
    match shape_key(ns, &parts) {
        Some(k) => Ok(k.canonical()),
        None => Err(LegacyKeyError::KeyShape { namespace: owned(ns), key: owned(key) }),
    }
}

/// What to do with a table, given the names of its columns.
#[derive(Clone, Copy, Debug, PartialEq, Eq, Structural)]
pub enum LegacyTablePlan {
    /// The table is already keyed by structured columns, or does not exist.
    Current,
    /// The table has the legacy `key` column and is rewritten; `namespaced`
    /// when it also has a `namespace` column.
    Migrate { namespaced: bool },
}

/// A legacy table without a `key` column.
#[derive(Clone, Debug)]
pub struct MissingKeyColumn {
    pub table: String,
}

impl MissingKeyColumn {
    /// A description of the error.
    pub fn message(&self) -> (m: String)
        ensures
            m@ == "cannot migrate "@ + self.table@ + ": expected legacy key column"@,
    {
        let mut m = String::new();
        push_str(&mut m, "cannot migrate ");
        push_str(&mut m, self.table.as_str());
        push_str(&mut m, ": expected legacy key column");
        m
    }
}

/// A column called `name` is among `columns`.
pub open spec fn has_column(columns: Seq<String>, name: Seq<char>) -> bool {
    exists|i: int| 0 <= i < columns.len() && #[trigger] columns[i]@ == name
}

/// The plan for a table with `columns`, or `None` when it cannot be migrated.
pub open spec fn table_plan(columns: Seq<String>) -> Option<LegacyTablePlan> {
    if has_column(columns, "namespace"@) && has_column(columns, "parent_path"@) {
        Some(LegacyTablePlan::Current)
    } else if columns.len() == 0 {
        Some(LegacyTablePlan::Current)
    } else if !has_column(columns, "key"@) {
        None
    } else {
        Some(LegacyTablePlan::Migrate { namespaced: has_column(columns, "namespace"@) })
    }
}

fn find_column(columns: &Vec<String>, name: &str) -> (r: bool)
    ensures
        r == has_column(columns@, name@),
{
    let mut i: usize = 0;
    while i < columns.len()
        invariant
            i <= columns.len(),
            forall|j: int| 0 <= j < i ==> columns@[j]@ != name@,
        decreases columns.len() - i,
    {
        if str_eq(columns[i].as_str(), name) {
            return true;
        }
        i += 1;
    }
    false
}

/// Decides how the table `table` with the given column names is brought to
/// the structured layout.
pub fn legacy_table_plan(table: &str, columns: &Vec<String>) -> (r: Result<LegacyTablePlan, MissingKeyColumn>)
    ensures
        match (r, table_plan(columns@)) {
            (Ok(p), Some(q)) => p == q,
            (Err(e), None) => e.table@ == table@,
            _ => false,
        },
{
    let has_namespace = find_column(columns, "namespace");
    let has_parent_path = find_column(columns, "parent_path");
    let has_key = find_column(columns, "key");
    if has_namespace && has_parent_path {
        return Ok(LegacyTablePlan::Current);
    }
    if columns.len() == 0 {
        return Ok(LegacyTablePlan::Current);
    }
    if !has_key {
        return Err(MissingKeyColumn { table: owned(table) });
    }
    Ok(LegacyTablePlan::Migrate { namespaced: has_namespace })
}

/// Why a legacy row could not be given a resource key.
#[derive(Clone, Debug)]
pub enum LegacyRowError {
    /// The legacy key has no known shape.
    Legacy(LegacyKeyError),
    /// The key text is not a canonical key.
    Canonical(KeyError),
}

/// The resource key of a legacy row: its `key` converted in `namespace`
/// when the table had a namespace column, or read as a canonical key.
pub fn migrated_row_key(namespace: Option<&str>, old_key: &str) -> (r: Result<ResourceKey, LegacyRowError>)
    ensures
        namespace is None ==> match (r, parse_canonical_text(old_key@)) {
            (Ok(k), Ok(v)) => k@ == v,
            (Err(LegacyRowError::Canonical(e)), Err(f)) => e == f,
            _ => false,
        },
        namespace matches Some(ns) ==> match (r, legacy_key(ns@, old_key@)) {
            (Err(LegacyRowError::Legacy(e)), Err(f)) => e@ == f,
            (Ok(k), Ok(v)) => parse_canonical_text(canonical_text(v)) == Ok::<KeyView, KeyError>(k@),
            (Err(LegacyRowError::Canonical(e)), Ok(v)) => parse_canonical_text(canonical_text(v)) == Err::<KeyView, KeyError>(e),
            _ => false,
        },
        namespace matches Some(ns) ==> match legacy_key(ns@, old_key@) {
            Ok(v) => key_well_formed(v) ==> (r matches Ok(k) && k@ == v),
            Err(_) => true,
        },
{
    match namespace {
        Some(ns) => match namespaced_key(ns, old_key) {
            Ok(canonical) => {
                proof {
                    if let Ok(v) = legacy_key(ns@, old_key@) {
                        if key_well_formed(v) {
                            lemma_canonical_round_trip(v);
                        }
                    }
                }
                match ResourceKey::parse_canonical(canonical.as_str()) {
                    Ok(k) => Ok(k),
                    Err(e) => Err(LegacyRowError::Canonical(e)),
                }
            },
            Err(e) => Err(LegacyRowError::Legacy(e)),
        },
        None => match ResourceKey::parse_canonical(old_key) {
            Ok(k) => Ok(k),
            Err(e) => Err(LegacyRowError::Canonical(e)),
        },
    }
}

} // verus!
