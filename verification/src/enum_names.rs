//! Enum values as manifests write them: names such as `needs-review` or
//! `TASK_PHASE_NEEDS_REVIEW`, read case-insensitively, and written back in
//! their canonical upper-case form.

use vstd::prelude::*;
use crate::delegation::TaskPhase;
use crate::text::{
    chars_of, push_char, starts_with, str_eq, string_of, strip_prefix_chars, sub_chars, trim_ws_chars, trim_ws_text, is_whitespace, trim_ws_start_text, trim_ws_end_text,
};

verus! {

/// `c` in ASCII upper case.
pub open spec fn ascii_upper(c: char) -> char {
    if 'a' <= c <= 'z' {
        ((c as u8) - 32) as char
    } else {
        c
    }
}

/// `c` as enum names compare it: `-` read as `_`, letters in upper case.
pub open spec fn enum_name_char(c: char) -> char {
    if c == '-' {
        '_'
    } else {
        ascii_upper(c)
    }
}

/// An enum name as manifests compare them: trimmed, `-` read as `_`, in
/// ASCII upper case.
pub open spec fn enum_name_text(value: Seq<char>) -> Seq<char> {
    trim_ws_text(value).map_values(|c: char| enum_name_char(c))
}

/// An enum name as manifests compare them.
pub fn normalize_enum_name(value: &str) -> (r: String)
    ensures
        r@ == enum_name_text(value@),
{
    let t = trim_ws_chars(&chars_of(value));
    let mut r = String::new();
    let mut i: usize = 0;
    while i < t.len()
        invariant
            i <= t.len(),
            r@ == t@.take(i as int).map_values(|c: char| enum_name_char(c)),
        decreases t.len() - i,
    {
        let c = t[i];
        let u = if c == '-' {
            '_'
        } else if 'a' <= c && c <= 'z' {
            ((c as u8) - 32) as char
        } else {
            c
        };
        push_char(&mut r, u);
        assert(t@.take(i + 1) =~= t@.take(i as int).push(c));
        assert(r@ =~= t@.take(i + 1).map_values(|c: char| enum_name_char(c)));
        i += 1;
    }
    assert(t@.take(t.len() as int) =~= t@);
    r
}

/// `s` with every leading copy of `prefix` removed
/// (`str::trim_start_matches` with a string pattern).
pub open spec fn trim_prefix_repeated(s: Seq<char>, prefix: Seq<char>) -> Seq<char>
    decreases s.len(),
{
    if prefix.len() > 0 && starts_with(s, prefix) {
        trim_prefix_repeated(s.subrange(prefix.len() as int, s.len() as int), prefix)
    } else {
        s
    }
}

/// The name that an enum value of a manifest is matched by: normalized,
/// then without its leading type prefixes.
pub open spec fn enum_key_text(value: Seq<char>, prefix: Seq<char>) -> Seq<char> {
    trim_prefix_repeated(enum_name_text(value), prefix)
}

fn trim_prefix_repeated_chars(v: &Vec<char>, prefix: &str) -> (r: Vec<char>)
    ensures
        r@ == trim_prefix_repeated(v@, prefix@),
{
    let mut cur = sub_chars(v, 0, v.len());
    assert(v@.subrange(0, v@.len() as int) =~= v@);
    if chars_of(prefix).len() == 0 {
        return cur;
    }
    loop
        invariant
            prefix@.len() > 0,
            trim_prefix_repeated(cur@, prefix@) == trim_prefix_repeated(v@, prefix@),
        decreases cur@.len(),
    {
        match strip_prefix_chars(&cur, prefix) {
            Some(rest) => {
                cur = rest;
            },
            None => {
                return cur;
            },
        }
    }
}

/// The key of an enum value: normalized, without leading copies of `prefix`.
pub fn enum_key(value: &str, prefix: &str) -> (r: String)
    ensures
        r@ == enum_key_text(value@, prefix@),
{
    let n = normalize_enum_name(value);
    let k = trim_prefix_repeated_chars(&chars_of(n.as_str()), prefix);
    string_of(&k)
}

/// What a manifest file is kept for.
#[derive(Clone, Copy, Debug, PartialEq, Eq, Structural)]
pub enum FilePurpose {
    Unspecified,
    Memory,
    Artifact,
}

/// How a manifest file is indexed.
#[derive(Clone, Copy, Debug, PartialEq, Eq, Structural)]
pub enum FileIndexPolicy {
    Unspecified,
    NotIndexed,
    Search,
    Retrieval,
}

/// How long a manifest file is kept.
#[derive(Clone, Copy, Debug, PartialEq, Eq, Structural)]
pub enum FileRetention {
    Unspecified,
    Retained,
}

/// The canonical name of a file purpose.
pub open spec fn file_purpose_text(p: FilePurpose) -> Seq<char> {
    match p {
        FilePurpose::Unspecified => "UNSPECIFIED"@,
        FilePurpose::Memory => "MEMORY"@,
        FilePurpose::Artifact => "ARTIFACT"@,
    }
}

/// The file purpose a key names.
pub open spec fn file_purpose_of_key(key: Seq<char>) -> Option<FilePurpose> {
    if key == ""@ || key == "UNSPECIFIED"@ {
        Some(FilePurpose::Unspecified)
    } else if key == "MEMORY"@ {
        Some(FilePurpose::Memory)
    } else if key == "ARTIFACT"@ {
        Some(FilePurpose::Artifact)
    } else {
        None
    }
}

/// The canonical name of a file purpose.
pub fn file_purpose_name(p: FilePurpose) -> (r: &'static str)
    ensures
        r@ == file_purpose_text(p),
{
    match p {
        FilePurpose::Unspecified => "UNSPECIFIED",
        FilePurpose::Memory => "MEMORY",
        FilePurpose::Artifact => "ARTIFACT",
    }
}

/// The FilePurpose value a normalized key names.
pub fn file_purpose_by_key(k: &str) -> (r: Option<FilePurpose>)
    ensures
        r == file_purpose_of_key(k@),
{
    if str_eq(k, "") || str_eq(k, "UNSPECIFIED") {
        Some(FilePurpose::Unspecified)
    } else if str_eq(k, "MEMORY") {
        Some(FilePurpose::Memory)
    } else if str_eq(k, "ARTIFACT") {
        Some(FilePurpose::Artifact)
    } else {
        None
    }
}

/// Reads a file purpose from a manifest; the error holds the key that no
/// purpose has.
pub fn parse_file_purpose(value: &str) -> (r: Result<FilePurpose, String>)
    ensures
        match file_purpose_of_key(enum_key_text(value@, "FILE_PURPOSE_"@)) {
            Some(p) => r == Ok::<FilePurpose, String>(p),
            None => r matches Err(k) && k@ == enum_key_text(value@, "FILE_PURPOSE_"@),
        },
{
    let key = enum_key(value, "FILE_PURPOSE_");
    match file_purpose_by_key(key.as_str()) {
        Some(p) => Ok(p),
        None => Err(key),
    }
}

/// The canonical name of a file index policy.
pub open spec fn file_index_policy_text(p: FileIndexPolicy) -> Seq<char> {
    match p {
        FileIndexPolicy::Unspecified => "UNSPECIFIED"@,
        FileIndexPolicy::NotIndexed => "NONE"@,
        FileIndexPolicy::Search => "SEARCH"@,
        FileIndexPolicy::Retrieval => "RETRIEVAL"@,
    }
}

/// The file index policy a key names.
pub open spec fn file_index_policy_of_key(key: Seq<char>) -> Option<FileIndexPolicy> {
    if key == ""@ || key == "UNSPECIFIED"@ {
        Some(FileIndexPolicy::Unspecified)
    } else if key == "NONE"@ {
        Some(FileIndexPolicy::NotIndexed)
    } else if key == "SEARCH"@ {
        Some(FileIndexPolicy::Search)
    } else if key == "RETRIEVAL"@ {
        Some(FileIndexPolicy::Retrieval)
    } else {
        None
    }
}

/// The canonical name of a file index policy.
pub fn file_index_policy_name(p: FileIndexPolicy) -> (r: &'static str)
    ensures
        r@ == file_index_policy_text(p),
{
    match p {
        FileIndexPolicy::Unspecified => "UNSPECIFIED",
        FileIndexPolicy::NotIndexed => "NONE",
        FileIndexPolicy::Search => "SEARCH",
        FileIndexPolicy::Retrieval => "RETRIEVAL",
    }
}

/// The FileIndexPolicy value a normalized key names.
pub fn file_index_policy_by_key(k: &str) -> (r: Option<FileIndexPolicy>)
    ensures
        r == file_index_policy_of_key(k@),
{
    if str_eq(k, "") || str_eq(k, "UNSPECIFIED") {
        Some(FileIndexPolicy::Unspecified)
    } else if str_eq(k, "NONE") {
        Some(FileIndexPolicy::NotIndexed)
    } else if str_eq(k, "SEARCH") {
        Some(FileIndexPolicy::Search)
    } else if str_eq(k, "RETRIEVAL") {
        Some(FileIndexPolicy::Retrieval)
    } else {
        None
    }
}

/// Reads a file index policy from a manifest; the error holds the key that
/// no policy has.
pub fn parse_file_index_policy(value: &str) -> (r: Result<FileIndexPolicy, String>)
    ensures
        match file_index_policy_of_key(enum_key_text(value@, "FILE_INDEX_POLICY_"@)) {
            Some(p) => r == Ok::<FileIndexPolicy, String>(p),
            None => r matches Err(k) && k@ == enum_key_text(value@, "FILE_INDEX_POLICY_"@),
        },
{
    let key = enum_key(value, "FILE_INDEX_POLICY_");
    match file_index_policy_by_key(key.as_str()) {
        Some(p) => Ok(p),
        None => Err(key),
    }
}

/// The canonical name of a file retention.
pub open spec fn file_retention_text(p: FileRetention) -> Seq<char> {
    match p {
        FileRetention::Unspecified => "UNSPECIFIED"@,
        FileRetention::Retained => "RETAINED"@,
    }
}

/// The file retention a key names.
pub open spec fn file_retention_of_key(key: Seq<char>) -> Option<FileRetention> {
    if key == ""@ || key == "UNSPECIFIED"@ {
        Some(FileRetention::Unspecified)
    } else if key == "RETAINED"@ {
        Some(FileRetention::Retained)
    } else {
        None
    }
}

/// The canonical name of a file retention.
pub fn file_retention_name(p: FileRetention) -> (r: &'static str)
    ensures
        r@ == file_retention_text(p),
{
    match p {
        FileRetention::Unspecified => "UNSPECIFIED",
        FileRetention::Retained => "RETAINED",
    }
}

/// The FileRetention value a normalized key names.
pub fn file_retention_by_key(k: &str) -> (r: Option<FileRetention>)
    ensures
        r == file_retention_of_key(k@),
{
    if str_eq(k, "") || str_eq(k, "UNSPECIFIED") {
        Some(FileRetention::Unspecified)
    } else if str_eq(k, "RETAINED") {
        Some(FileRetention::Retained)
    } else {
        None
    }
}

/// Reads a file retention from a manifest; the error holds the key that no
/// retention has.
pub fn parse_file_retention(value: &str) -> (r: Result<FileRetention, String>)
    ensures
        match file_retention_of_key(enum_key_text(value@, "FILE_RETENTION_"@)) {
            Some(p) => r == Ok::<FileRetention, String>(p),
            None => r matches Err(k) && k@ == enum_key_text(value@, "FILE_RETENTION_"@),
        },
{
    let key = enum_key(value, "FILE_RETENTION_");
    match file_retention_by_key(key.as_str()) {
        Some(p) => Ok(p),
        None => Err(key),
    }
}

/// The canonical name of a task phase.
pub open spec fn task_phase_text(p: TaskPhase) -> Seq<char> {
    match p {
        TaskPhase::Unspecified => "UNSPECIFIED"@,
        TaskPhase::Queued => "QUEUED"@,
        TaskPhase::Running => "RUNNING"@,
        TaskPhase::Blocked => "BLOCKED"@,
        TaskPhase::NeedsReview => "NEEDS_REVIEW"@,
        TaskPhase::Succeeded => "SUCCEEDED"@,
        TaskPhase::Failed => "FAILED"@,
        TaskPhase::Canceled => "CANCELED"@,
        TaskPhase::Expired => "EXPIRED"@,
    }
}

/// The task phase a key names; `SUCCESS` and `COMPLETED` are read as
/// succeeded, `CANCELLED` as canceled.
pub open spec fn task_phase_of_key(key: Seq<char>) -> Option<TaskPhase> {
    if key == ""@ || key == "UNSPECIFIED"@ {
        Some(TaskPhase::Unspecified)
    } else if key == "QUEUED"@ {
        Some(TaskPhase::Queued)
    } else if key == "RUNNING"@ {
        Some(TaskPhase::Running)
    } else if key == "BLOCKED"@ {
        Some(TaskPhase::Blocked)
    } else if key == "NEEDS_REVIEW"@ {
        Some(TaskPhase::NeedsReview)
    } else if key == "SUCCEEDED"@ || key == "SUCCESS"@ || key == "COMPLETED"@ {
        Some(TaskPhase::Succeeded)
    } else if key == "FAILED"@ {
        Some(TaskPhase::Failed)
    } else if key == "CANCELED"@ || key == "CANCELLED"@ {
        Some(TaskPhase::Canceled)
    } else if key == "EXPIRED"@ {
        Some(TaskPhase::Expired)
    } else {
        None
    }
}

/// The canonical name of a task phase.
pub fn task_phase_name(p: TaskPhase) -> (r: &'static str)
    ensures
        r@ == task_phase_text(p),
{
    match p {
        TaskPhase::Unspecified => "UNSPECIFIED",
        TaskPhase::Queued => "QUEUED",
        TaskPhase::Running => "RUNNING",
        TaskPhase::Blocked => "BLOCKED",
        TaskPhase::NeedsReview => "NEEDS_REVIEW",
        TaskPhase::Succeeded => "SUCCEEDED",
        TaskPhase::Failed => "FAILED",
        TaskPhase::Canceled => "CANCELED",
        TaskPhase::Expired => "EXPIRED",
    }
}

/// Reads a task phase from a manifest; the error holds the key that no
/// phase has.
pub fn parse_task_phase(value: &str) -> (r: Result<TaskPhase, String>)
    ensures
        match task_phase_of_key(enum_key_text(value@, "TASK_PHASE_"@)) {
            Some(p) => r == Ok::<TaskPhase, String>(p),
            None => r matches Err(k) && k@ == enum_key_text(value@, "TASK_PHASE_"@),
        },
{
    let key = enum_key(value, "TASK_PHASE_");
    let k = key.as_str();
    if str_eq(k, "") || str_eq(k, "UNSPECIFIED") {
        Ok(TaskPhase::Unspecified)
    } else if str_eq(k, "QUEUED") {
        Ok(TaskPhase::Queued)
    } else if str_eq(k, "RUNNING") {
        Ok(TaskPhase::Running)
    } else if str_eq(k, "BLOCKED") {
        Ok(TaskPhase::Blocked)
    } else if str_eq(k, "NEEDS_REVIEW") {
        Ok(TaskPhase::NeedsReview)
    } else if str_eq(k, "SUCCEEDED") || str_eq(k, "SUCCESS") || str_eq(k, "COMPLETED") {
        Ok(TaskPhase::Succeeded)
    } else if str_eq(k, "FAILED") {
        Ok(TaskPhase::Failed)
    } else if str_eq(k, "CANCELED") || str_eq(k, "CANCELLED") {
        Ok(TaskPhase::Canceled)
    } else if str_eq(k, "EXPIRED") {
        Ok(TaskPhase::Expired)
    } else {
        Err(key)
    }
}

proof fn lemma_canonical_key(s: Seq<char>, prefix: Seq<char>)
    requires
        s.len() > 0,
        prefix.len() > 0,
        s[0] != prefix[0],
        forall|i: int| 0 <= i < s.len() ==> ('A' <= #[trigger] s[i] <= 'Z' || s[i] == '_'),
    ensures
        enum_key_text(s, prefix) == s,
{
    assert(!is_whitespace(s[0]));
    assert(!is_whitespace(s.last()));
    assert(trim_ws_start_text(s) == s);
    assert(trim_ws_end_text(s) == s);
    assert(s.map_values(|c: char| enum_name_char(c)) =~= s);
    if prefix.len() <= s.len() {
        assert(s.subrange(0, prefix.len() as int)[0] == s[0]);
    }
}

/// A file purpose written by its name reads back as the same purpose.
pub proof fn lemma_file_purpose_name_round_trip(p: FilePurpose)
    ensures
        file_purpose_of_key(enum_key_text(file_purpose_text(p), "FILE_PURPOSE_"@)) == Some(p),
{
    reveal_strlit("FILE_PURPOSE_");
    reveal_strlit("");
    reveal_strlit("UNSPECIFIED");
    reveal_strlit("MEMORY");
    reveal_strlit("ARTIFACT");
    lemma_canonical_key(file_purpose_text(p), "FILE_PURPOSE_"@);
}

/// A file index policy written by its name reads back as the same policy.
pub proof fn lemma_file_index_policy_name_round_trip(p: FileIndexPolicy)
    ensures
        file_index_policy_of_key(enum_key_text(file_index_policy_text(p), "FILE_INDEX_POLICY_"@))
            == Some(p),
{
    reveal_strlit("FILE_INDEX_POLICY_");
    reveal_strlit("");
    reveal_strlit("UNSPECIFIED");
    reveal_strlit("NONE");
    reveal_strlit("SEARCH");
    reveal_strlit("RETRIEVAL");
    lemma_canonical_key(file_index_policy_text(p), "FILE_INDEX_POLICY_"@);
}

/// A file retention written by its name reads back as the same retention.
pub proof fn lemma_file_retention_name_round_trip(p: FileRetention)
    ensures
        file_retention_of_key(enum_key_text(file_retention_text(p), "FILE_RETENTION_"@)) == Some(p),
{
    reveal_strlit("FILE_RETENTION_");
    reveal_strlit("");
    reveal_strlit("UNSPECIFIED");
    reveal_strlit("RETAINED");
    lemma_canonical_key(file_retention_text(p), "FILE_RETENTION_"@);
}

/// A task phase written by its name reads back as the same phase.
pub proof fn lemma_task_phase_name_round_trip(p: TaskPhase)
    ensures
        task_phase_of_key(enum_key_text(task_phase_text(p), "TASK_PHASE_"@)) == Some(p),
{
    reveal_strlit("TASK_PHASE_");
    reveal_strlit("");
    reveal_strlit("UNSPECIFIED");
    reveal_strlit("QUEUED");
    reveal_strlit("RUNNING");
    reveal_strlit("BLOCKED");
    reveal_strlit("NEEDS_REVIEW");
    reveal_strlit("SUCCEEDED");
    reveal_strlit("SUCCESS");
    reveal_strlit("COMPLETED");
    reveal_strlit("FAILED");
    reveal_strlit("CANCELED");
    reveal_strlit("CANCELLED");
    reveal_strlit("EXPIRED");
    lemma_canonical_key(task_phase_text(p), "TASK_PHASE_"@);
}

} // verus!
