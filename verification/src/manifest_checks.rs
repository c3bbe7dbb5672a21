//! Checks and normalizations that resource manifests go through: sandbox
//! mount paths, agent permission policies, McpServer namespaces, retry defaults.

use vstd::prelude::*;
use crate::text::{
    blank, chars_of, is_blank, owned, push_str, str_eq, string_of, trim_end_chars, trim_end_text,
};

verus! {

/// What is wrong with a manifest.
#[derive(Clone, Debug)]
pub enum ManifestError {
    /// A sandbox mount path that does not start with `/`.
    MountPathNotAbsolute,
    /// A sandbox mount path onto the root or a system directory.
    MountPathForbidden { path: String },
    /// A permission-policy key other than the known ones.
    UnsupportedPolicyKey { key: String },
    /// A permission-policy value other than `allow`, `ask`, `deny`.
    UnsupportedPolicyValue { key: String, value: String },
    /// An `McpServerBinding` manifest.
    McpServerBindingUnsupported,
    /// An `McpServer` manifest without a namespace.
    McpServerNamespaceRequired,
    /// A sandbox policy's `maxConcurrent` above the `u32` range.
    MaxConcurrentOutOfRange,
    /// A schedule's `intervalSeconds` above the `u32` range.
    IntervalSecondsOutOfRange,
    /// A field that must hold JSON text and does not.
    InvalidEmbeddedJson { key: String },
    /// Object metadata that is not a name with an optional namespace and
    /// string-valued labels and annotations.
    InvalidMetadata,
    /// A document that is not JSON; the parser's words.
    InvalidJson { detail: String },
    /// A spec's embedded JSON text that is not JSON; the parser's words.
    EmbeddedJson { detail: String },
    /// A raw spec's stored JSON text that is not JSON; the parser's words.
    StoredJson { detail: String },
    /// A Skill spec whose description is blank.
    SkillDescriptionRequired,
    /// A Skill spec whose instructions are blank.
    SkillInstructionsRequired,
    /// A File spec field that should be a string and is not.
    FileSpecField { field: String },
    /// A File spec enum text that names no value of `name`; `key` is the
    /// text as normalized.
    FileSpecEnum { name: String, key: String },
}

/// The description of a manifest error.
pub open spec fn manifest_error_text(e: ManifestError) -> Seq<char> {
    match e {
        ManifestError::MountPathNotAbsolute => "SandboxPolicy template.workspace.mountPath must be absolute"@,
        ManifestError::MountPathForbidden { path } => "SandboxPolicy template.workspace.mountPath '"@ + path@
            + "' is not allowed"@,
        ManifestError::UnsupportedPolicyKey { key } => "Agent spec.runtime.acp.permissionPolicy contains unsupported key '"@
            + key@ + "'"@,
        ManifestError::UnsupportedPolicyValue { key, value } => "Agent spec.runtime.acp.permissionPolicy."@
            + key@ + " has unsupported value '"@ + value@ + "'"@,
        ManifestError::McpServerBindingUnsupported => "McpServerBinding manifests are unsupported; use namespaced McpServer"@,
        ManifestError::McpServerNamespaceRequired => "McpServer metadata.namespace is required"@,
        ManifestError::MaxConcurrentOutOfRange => "sandbox policy maxConcurrent exceeds u32 range"@,
        ManifestError::IntervalSecondsOutOfRange => "schedule spec intervalSeconds exceeds u32 range"@,
        ManifestError::InvalidEmbeddedJson { key } => key@ + " must contain valid JSON"@,
        ManifestError::InvalidMetadata => "metadata must have a string name and string-valued labels and annotations"@,
        ManifestError::InvalidJson { detail } => detail@,
        ManifestError::EmbeddedJson { detail } => "Failed to parse embedded JSON"@,
        ManifestError::StoredJson { detail } => "Failed to parse stored JSON value"@,
        ManifestError::SkillDescriptionRequired => "Skill spec.description is required"@,
        ManifestError::SkillInstructionsRequired => "Skill spec.instructions is required"@,
        ManifestError::FileSpecField { field } => "File spec."@ + field@ + " must be a string"@,
        ManifestError::FileSpecEnum { name, key } => "invalid "@ + name@ + ": unsupported value '"@ + key@
            + "'"@,
    }
}

impl ManifestError {
    /// A description of the error.
    pub fn message(&self) -> (r: String)
        ensures
            r@ == manifest_error_text(*self),
    {
        let mut m = String::new();
        match self {
            ManifestError::MountPathNotAbsolute => {
                push_str(&mut m, "SandboxPolicy template.workspace.mountPath must be absolute");
            },
            ManifestError::MountPathForbidden { path } => {
                push_str(&mut m, "SandboxPolicy template.workspace.mountPath '");
                push_str(&mut m, path.as_str());
                push_str(&mut m, "' is not allowed");
            },
            ManifestError::UnsupportedPolicyKey { key } => {
                push_str(&mut m, "Agent spec.runtime.acp.permissionPolicy contains unsupported key '");
                push_str(&mut m, key.as_str());
                push_str(&mut m, "'");
            },
            ManifestError::UnsupportedPolicyValue { key, value } => {
                push_str(&mut m, "Agent spec.runtime.acp.permissionPolicy.");
                push_str(&mut m, key.as_str());
                push_str(&mut m, " has unsupported value '");
                push_str(&mut m, value.as_str());
                push_str(&mut m, "'");
            },
            ManifestError::McpServerBindingUnsupported => {
                push_str(&mut m, "McpServerBinding manifests are unsupported; use namespaced McpServer");
            },
            ManifestError::McpServerNamespaceRequired => {
                push_str(&mut m, "McpServer metadata.namespace is required");
            },
            ManifestError::MaxConcurrentOutOfRange => {
                push_str(&mut m, "sandbox policy maxConcurrent exceeds u32 range");
            },
            ManifestError::IntervalSecondsOutOfRange => {
                push_str(&mut m, "schedule spec intervalSeconds exceeds u32 range");
            },
            ManifestError::InvalidEmbeddedJson { key } => {
                push_str(&mut m, key.as_str());
                push_str(&mut m, " must contain valid JSON");
            },
            ManifestError::InvalidJson { detail } => {
                push_str(&mut m, detail.as_str());
            },
            ManifestError::EmbeddedJson { .. } => {
                push_str(&mut m, "Failed to parse embedded JSON");
            },
            ManifestError::StoredJson { .. } => {
                push_str(&mut m, "Failed to parse stored JSON value");
            },
            ManifestError::SkillDescriptionRequired => {
                push_str(&mut m, "Skill spec.description is required");
            },
            ManifestError::SkillInstructionsRequired => {
                push_str(&mut m, "Skill spec.instructions is required");
            },
            ManifestError::FileSpecField { field } => {
                push_str(&mut m, "File spec.");
                push_str(&mut m, field.as_str());
                push_str(&mut m, " must be a string");
            },
            ManifestError::FileSpecEnum { name, key } => {
                push_str(&mut m, "invalid ");
                push_str(&mut m, name.as_str());
                push_str(&mut m, ": unsupported value '");
                push_str(&mut m, key.as_str());
                push_str(&mut m, "'");
            },
            ManifestError::InvalidMetadata => {
                push_str(&mut m, "metadata must have a string name and string-valued labels and annotations");
            },
        }
        m
    }
}

/// Directories a sandbox workspace may not be mounted on (after trailing
/// `/`s are removed): the root and the system directories.
pub open spec fn forbidden_mount_paths() -> Seq<Seq<char>> {
    seq![
        ""@,
        "/bin"@,
        "/boot"@,
        "/dev"@,
        "/etc"@,
        "/lib"@,
        "/lib64"@,
        "/proc"@,
        "/root"@,
        "/run"@,
        "/sbin"@,
        "/sys"@,
        "/usr"@,
        "/var"@,
    ]
}

/// The views of a list of names.
pub open spec fn strs_view(names: Seq<&str>) -> Seq<Seq<char>> {
    names.map_values(|n: &str| n@)
}

fn contains_str(names: &[&str], s: &str) -> (r: bool)
    ensures
        r == strs_view(names@).contains(s@),
{
    let mut i: usize = 0;
    while i < names.len()
        invariant
            i <= names.len(),
            forall|j: int| 0 <= j < i ==> strs_view(names@)[j] != s@,
        decreases names.len() - i,
    {
        if str_eq(names[i], s) {
            assert(strs_view(names@)[i as int] == s@);
            return true;
        }
        i += 1;
    }
    false
}

/// Checks the workspace mount path of a sandbox policy: empty, or absolute
/// and not the root or a system directory.
pub fn validate_sandbox_mount_path(mount_path: &str) -> (r: Result<(), ManifestError>)
    ensures
        mount_path@.len() == 0 ==> r is Ok,
        mount_path@.len() > 0 && mount_path@[0] != '/' ==> r matches Err(
            ManifestError::MountPathNotAbsolute,
        ),
        mount_path@.len() > 0 && mount_path@[0] == '/' ==> if forbidden_mount_paths().contains(
            trim_end_text(mount_path@, '/'),
        ) {
            r matches Err(ManifestError::MountPathForbidden { path }) && path@ == mount_path@
        } else {
            r is Ok
        },
{
    let v = chars_of(mount_path);
    if v.len() == 0 {
        return Ok(());
    }
    if v[0] != '/' {
        return Err(ManifestError::MountPathNotAbsolute);
    }
    let normalized = string_of(&trim_end_chars(&v, '/'));
    let forbidden: [&str; 14] = [
        "",
        "/bin",
        "/boot",
        "/dev",
        "/etc",
        "/lib",
        "/lib64",
        "/proc",
        "/root",
        "/run",
        "/sbin",
        "/sys",
        "/usr",
        "/var",
    ];
    assert(strs_view(forbidden@) =~= forbidden_mount_paths());
    if contains_str(&forbidden, normalized.as_str()) {
        return Err(ManifestError::MountPathForbidden { path: owned(mount_path) });
    }
    Ok(())
}

/// The keys an agent's ACP permission policy may set.
pub open spec fn policy_keys() -> Seq<Seq<char>> {
    seq!["default"@, "filesystemRead"@, "filesystemWrite"@, "terminal"@]
}

/// The values an ACP permission may take.
pub open spec fn policy_values() -> Seq<Seq<char>> {
    seq!["allow"@, "ask"@, "deny"@]
}

/// The first unsupported entry of a permission policy, if any.
pub open spec fn policy_problem(policy: Seq<(String, String)>) -> Option<(Seq<char>, Option<Seq<char>>)>
    decreases policy.len(),
{
    if policy.len() == 0 {
        None
    } else if !policy_keys().contains(policy[0].0@) {
        Some((policy[0].0@, None))
    } else if !policy_values().contains(policy[0].1@) {
        Some((policy[0].0@, Some(policy[0].1@)))
    } else {
        policy_problem(policy.drop_first())
    }
}

/// Checks an agent's ACP permission policy, entry by entry: each key must
/// be a known one and each value `allow`, `ask` or `deny`.
pub fn validate_acp_permission_policy(policy: &Vec<(String, String)>) -> (r: Result<(), ManifestError>)
    ensures
        match policy_problem(policy@) {
            None => r is Ok,
            Some((key, None)) => r matches Err(ManifestError::UnsupportedPolicyKey { key: k }) && k@ == key,
            Some((key, Some(value))) => r matches Err(
                ManifestError::UnsupportedPolicyValue { key: k, value: v },
            ) && k@ == key && v@ == value,
        },
{
    let keys: [&str; 4] = ["default", "filesystemRead", "filesystemWrite", "terminal"];
    let values: [&str; 3] = ["allow", "ask", "deny"];
    assert(strs_view(keys@) =~= policy_keys());
    assert(strs_view(values@) =~= policy_values());
    let mut i: usize = 0;
    assert(policy@.skip(0) =~= policy@);
    while i < policy.len()
        invariant
            i <= policy.len(),
            strs_view(keys@) == policy_keys(),
            strs_view(values@) == policy_values(),
            policy_problem(policy@) == policy_problem(policy@.skip(i as int)),
        decreases policy.len() - i,
    {
        assert(policy@.skip(i as int).drop_first() =~= policy@.skip(i + 1));
        assert(policy@.skip(i as int)[0] == policy@[i as int]);
        let (key, value) = (&policy[i].0, &policy[i].1);
        if !contains_str(&keys, key.as_str()) {
            return Err(ManifestError::UnsupportedPolicyKey { key: key.clone() });
        }
        if !contains_str(&values, value.as_str()) {
            return Err(ManifestError::UnsupportedPolicyValue { key: key.clone(), value: value.clone() });
        }
        i += 1;
    }
    Ok(())
}

/// Checks the kind and namespace of an MCP server manifest: bindings are
/// no longer supported, and a server needs a namespace.
pub fn validate_mcp_server_namespace(kind: &str, namespace: &str) -> (r: Result<(), ManifestError>)
    ensures
        kind@ == "McpServerBinding"@ ==> r matches Err(ManifestError::McpServerBindingUnsupported),
        kind@ == "McpServer"@ ==> if is_blank(namespace@) {
            r matches Err(ManifestError::McpServerNamespaceRequired)
        } else {
            r is Ok
        },
        kind@ != "McpServerBinding"@ && kind@ != "McpServer"@ ==> r is Ok,
{
    proof {
        reveal_strlit("McpServer");
        reveal_strlit("McpServerBinding");
        assert("McpServer"@.len() != "McpServerBinding"@.len());
    }
    if str_eq(kind, "McpServerBinding") {
        return Err(ManifestError::McpServerBindingUnsupported);
    }
    if str_eq(kind, "McpServer") && blank(namespace) {
        return Err(ManifestError::McpServerNamespaceRequired);
    }
    Ok(())
}

/// `value`, or `{}` when it is blank.
pub fn non_empty_json_object(value: String) -> (r: String)
    ensures
        r@ == if is_blank(value@) {
            "{}"@
        } else {
            value@
        },
{
    if blank(value.as_str()) {
        owned("{}")
    } else {
        value
    }
}

/// Defaults of a workflow step's retry policy: attempts, and the initial
/// and longest backoff in seconds.
pub fn default_workflow_retry() -> (r: (u32, i64, i64))
    ensures
        r == (3u32, 1i64, 30i64),
{
    (3, 1, 30)
}

} // verus!
