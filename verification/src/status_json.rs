//! Resource statuses as JSON documents: what a status is written as (only
//! the fields that are set) and what a document is read back as (each
//! missing or mistyped field as its default).

use vstd::prelude::*;
use crate::delegation::ResourceCondition;
use crate::json::{
    as_array, as_bool, as_i64, as_str, bool_field, entries_get, field, get, i64_field,
    i64_or_zero, insert_entry, int_json, int_value, is_str, opt_i64_field, opt_str_field, opt_view,
    keys_distinct, str_field, str_or_empty, u64_field, u64_or_zero, Json,
};
use crate::text::{owned, strings_view};

verus! {

/// The entries of an object; none for other values.
pub open spec fn entries_of(j: Json) -> Seq<(String, Json)> {
    match j {
        Json::Object(es) => es@,
        _ => Seq::empty(),
    }
}

/// The entry `key` is there only when the string is not empty, and holds it.
pub open spec fn str_at(es: Seq<(String, Json)>, key: Seq<char>, s: Seq<char>) -> bool {
    if s.len() == 0 {
        entries_get(es, key) is None
    } else {
        is_str(entries_get(es, key), s)
    }
}

/// The entry `key` holds the string, empty or not.
pub open spec fn full_str_at(es: Seq<(String, Json)>, key: Seq<char>, s: Seq<char>) -> bool {
    is_str(entries_get(es, key), s)
}

/// The entry `key` is there only when the integer is not 0, and holds it.
pub open spec fn i64_at(es: Seq<(String, Json)>, key: Seq<char>, n: i64) -> bool {
    if n == 0 {
        entries_get(es, key) is None
    } else {
        entries_get(es, key) == Some(int_value(n))
    }
}

/// The entry `key` is there only when the integer is not 0, and holds it.
pub open spec fn u64_at(es: Seq<(String, Json)>, key: Seq<char>, n: u64) -> bool {
    if n == 0 {
        entries_get(es, key) is None
    } else {
        entries_get(es, key) == Some(Json::PosInt(n))
    }
}

/// The entry `key` is there only when the string is there and not empty.
pub open spec fn opt_str_at(es: Seq<(String, Json)>, key: Seq<char>, s: Option<Seq<char>>) -> bool {
    match s {
        Some(s) => str_at(es, key, s),
        None => entries_get(es, key) is None,
    }
}

/// The entry `key` is there whenever the integer is, and holds it.
pub open spec fn opt_i64_at(es: Seq<(String, Json)>, key: Seq<char>, n: Option<i64>) -> bool {
    match n {
        Some(n) => entries_get(es, key) == Some(int_value(n)),
        None => entries_get(es, key) is None,
    }
}

/// Every entry of `es` is named by one of `keys`, and no two by the same.
pub open spec fn within(es: Seq<(String, Json)>, keys: Set<Seq<char>>) -> bool {
    &&& forall|k: Seq<char>| #[trigger] entries_get(es, k) is Some ==> keys.contains(k)
    &&& keys_distinct(es)
}

// ---------------------------------------------------------------------------
// Writing entries

pub(crate) fn put_str(m: &mut Vec<(String, Json)>, key: &str, s: &String)
    ensures
        keys_distinct(old(m)@) ==> keys_distinct(final(m)@),
        forall|k: Seq<char>|
            (k != key@ || s@.len() == 0) ==> #[trigger] entries_get(final(m)@, k) == entries_get(
                old(m)@,
                k,
            ),
        s@.len() > 0 ==> is_str(entries_get(final(m)@, key@), s@),
{
    if !s.as_str().is_empty() {
        insert_entry(m, key, Json::Str(owned(s.as_str())));
    }
}

pub(crate) fn put_full_str(m: &mut Vec<(String, Json)>, key: &str, s: &String)
    ensures
        keys_distinct(old(m)@) ==> keys_distinct(final(m)@),
        forall|k: Seq<char>|
            k != key@ ==> #[trigger] entries_get(final(m)@, k) == entries_get(old(m)@, k),
        is_str(entries_get(final(m)@, key@), s@),
{
    insert_entry(m, key, Json::Str(owned(s.as_str())));
}

pub(crate) fn put_opt_str(m: &mut Vec<(String, Json)>, key: &str, s: &Option<String>)
    ensures
        keys_distinct(old(m)@) ==> keys_distinct(final(m)@),
        forall|k: Seq<char>|
            (k != key@ || !(opt_view(*s) matches Some(t) && t.len() > 0)) ==> #[trigger] entries_get(
                final(m)@,
                k,
            ) == entries_get(old(m)@, k),
        opt_view(*s) matches Some(t) ==> (t.len() > 0 ==> is_str(entries_get(final(m)@, key@), t)),
{
    match s {
        Some(s) => put_str(m, key, s),
        None => {},
    }
}

pub(crate) fn put_i64(m: &mut Vec<(String, Json)>, key: &str, n: i64)
    ensures
        keys_distinct(old(m)@) ==> keys_distinct(final(m)@),
        forall|k: Seq<char>|
            (k != key@ || n == 0) ==> #[trigger] entries_get(final(m)@, k) == entries_get(
                old(m)@,
                k,
            ),
        n != 0 ==> entries_get(final(m)@, key@) == Some(int_value(n)),
{
    if n != 0 {
        insert_entry(m, key, int_json(n));
    }
}

pub(crate) fn put_full_i64(m: &mut Vec<(String, Json)>, key: &str, n: i64)
    ensures
        keys_distinct(old(m)@) ==> keys_distinct(final(m)@),
        forall|k: Seq<char>|
            k != key@ ==> #[trigger] entries_get(final(m)@, k) == entries_get(old(m)@, k),
        entries_get(final(m)@, key@) == Some(int_value(n)),
{
    insert_entry(m, key, int_json(n));
}

pub(crate) fn put_opt_i64(m: &mut Vec<(String, Json)>, key: &str, n: Option<i64>)
    ensures
        keys_distinct(old(m)@) ==> keys_distinct(final(m)@),
        forall|k: Seq<char>|
            (k != key@ || n is None) ==> #[trigger] entries_get(final(m)@, k) == entries_get(
                old(m)@,
                k,
            ),
        n matches Some(x) ==> entries_get(final(m)@, key@) == Some(int_value(x)),
{
    match n {
        Some(x) => insert_entry(m, key, int_json(x)),
        None => {},
    }
}

pub(crate) fn put_u64(m: &mut Vec<(String, Json)>, key: &str, n: u64)
    ensures
        keys_distinct(old(m)@) ==> keys_distinct(final(m)@),
        forall|k: Seq<char>|
            (k != key@ || n == 0) ==> #[trigger] entries_get(final(m)@, k) == entries_get(
                old(m)@,
                k,
            ),
        n != 0 ==> entries_get(final(m)@, key@) == Some(Json::PosInt(n)),
{
    if n != 0 {
        insert_entry(m, key, Json::PosInt(n));
    }
}

pub(crate) fn put_full_u64(m: &mut Vec<(String, Json)>, key: &str, n: u64)
    ensures
        keys_distinct(old(m)@) ==> keys_distinct(final(m)@),
        forall|k: Seq<char>|
            k != key@ ==> #[trigger] entries_get(final(m)@, k) == entries_get(old(m)@, k),
        entries_get(final(m)@, key@) == Some(Json::PosInt(n)),
{
    insert_entry(m, key, Json::PosInt(n));
}

pub(crate) proof fn lemma_empty_entries(k: Seq<char>)
    ensures
        entries_get(Seq::<(String, Json)>::empty(), k) is None,
{
}

// ---------------------------------------------------------------------------
// Conditions

/// A condition as plain values.
#[verifier::ext_equal]
pub struct ConditionView {
    pub condition_type: Seq<char>,
    pub status: Seq<char>,
    pub reason: Seq<char>,
    pub message: Seq<char>,
    pub last_transition_time: i64,
    pub observed_generation: u64,
}

/// The plain values of a condition.
pub open spec fn condition_view(c: ResourceCondition) -> ConditionView {
    ConditionView {
        condition_type: c.condition_type@,
        status: c.status@,
        reason: c.reason@,
        message: c.message@,
        last_transition_time: c.last_transition_time,
        observed_generation: c.observed_generation,
    }
}

/// The plain values of a list of conditions.
pub open spec fn conditions_view(cs: Seq<ResourceCondition>) -> Seq<ConditionView> {
    cs.map_values(|c: ResourceCondition| condition_view(c))
}

/// The fields a condition is written with.
pub open spec fn condition_keys() -> Set<Seq<char>> {
    set![
        "type"@,
        "status"@,
        "reason"@,
        "message"@,
        "lastTransitionTime"@,
        "observedGeneration"@,
    ]
}

/// `j` is the JSON form of condition `c`: an object with the fields that
/// are set.
pub open spec fn condition_json(c: ConditionView, j: Json) -> bool {
    let es = entries_of(j);
    &&& j is Object
    &&& within(es, condition_keys())
    &&& str_at(es, "type"@, c.condition_type)
    &&& str_at(es, "status"@, c.status)
    &&& str_at(es, "reason"@, c.reason)
    &&& str_at(es, "message"@, c.message)
    &&& i64_at(es, "lastTransitionTime"@, c.last_transition_time)
    &&& u64_at(es, "observedGeneration"@, c.observed_generation)
}

/// The condition a JSON value is read as.
pub open spec fn condition_of_json(j: Json) -> ConditionView {
    ConditionView {
        condition_type: str_or_empty(field(j, "type"@)),
        status: str_or_empty(field(j, "status"@)),
        reason: str_or_empty(field(j, "reason"@)),
        message: str_or_empty(field(j, "message"@)),
        last_transition_time: i64_or_zero(field(j, "lastTransitionTime"@)),
        observed_generation: u64_or_zero(field(j, "observedGeneration"@)),
    }
}

/// The conditions a status document is read with: those of its
/// `conditions` array, or none.
pub open spec fn conditions_of_json(v: Json) -> Seq<ConditionView> {
    match as_array(field(v, "conditions"@)) {
        Some(items) => items.map_values(|j: Json| condition_of_json(j)),
        None => Seq::empty(),
    }
}

/// The JSON form of a condition: an object with the fields that are set.
pub fn condition_to_json(c: &ResourceCondition) -> (r: Json)
    ensures
        condition_json(condition_view(*c), r),
{
    proof {
        lemma_condition_keys();
    }
    let mut m: Vec<(String, Json)> = Vec::new();
    put_str(&mut m, "type", &c.condition_type);
    put_str(&mut m, "status", &c.status);
    put_str(&mut m, "reason", &c.reason);
    put_str(&mut m, "message", &c.message);
    put_i64(&mut m, "lastTransitionTime", c.last_transition_time);
    put_u64(&mut m, "observedGeneration", c.observed_generation);
    let r = Json::Object(m);
    assert forall|k: Seq<char>| #[trigger] entries_get(m@, k) is Some implies condition_keys().contains(k) by {
        lemma_empty_entries(k);
    }
    r
}

/// Reads a condition.
pub fn condition_from_json(j: &Json) -> (r: ResourceCondition)
    ensures
        condition_view(r) == condition_of_json(*j),
{
    ResourceCondition {
        condition_type: str_field(j, "type"),
        status: str_field(j, "status"),
        reason: str_field(j, "reason"),
        message: str_field(j, "message"),
        last_transition_time: i64_field(j, "lastTransitionTime"),
        observed_generation: u64_field(j, "observedGeneration"),
    }
}

/// Reads the conditions of a status document.
pub fn conditions_from_value(v: &Json) -> (r: Vec<ResourceCondition>)
    ensures
        conditions_view(r@) == conditions_of_json(*v),
{
    let mut r: Vec<ResourceCondition> = Vec::new();
    match get(v, "conditions") {
        Some(Json::Array(items)) => {
            let mut i: usize = 0;
            while i < items.len()
                invariant
                    i <= items.len(),
                    as_array(field(*v, "conditions"@)) == Some(items@),
                    conditions_view(r@) =~= items@.take(i as int).map_values(
                        |j: Json| condition_of_json(j),
                    ),
                decreases items.len() - i,
            {
                let c = condition_from_json(&items[i]);
                let ghost before = r@;
                r.push(c);
                assert(conditions_view(r@) =~= conditions_view(before).push(condition_view(c)));
                assert(items@.take(i + 1) =~= items@.take(i as int).push(items@[i as int]));
                assert(conditions_view(r@) =~= items@.take(i + 1).map_values(
                    |j: Json| condition_of_json(j),
                ));
                i += 1;
            }
            assert(items@.take(items.len() as int) =~= items@);
        },
        _ => {},
    }
    r
}

/// Writing a condition and reading it back gives the same condition.
pub proof fn lemma_condition_round_trip(c: ConditionView, j: Json)
    requires
        condition_json(c, j),
    ensures
        condition_of_json(j) == c,
{
    let r = condition_of_json(j);
    assert(r.condition_type == c.condition_type);
    assert(r.status == c.status);
    assert(r.reason == c.reason);
    assert(r.message == c.message);
    assert(r.last_transition_time == c.last_transition_time);
    assert(r.observed_generation == c.observed_generation);
}

// ---------------------------------------------------------------------------
// The fields every status has

/// What every status holds, as plain values.
#[verifier::ext_equal]
pub struct CommonView {
    pub observed_generation: u64,
    pub phase: Seq<char>,
    pub conditions: Seq<ConditionView>,
}

/// A status with only the fields every status has (Template, Skill,
/// McpServer, SandboxClass, SandboxPolicy, Workflow).
#[derive(Clone, Debug)]
pub struct CommonStatus {
    pub observed_generation: u64,
    pub phase: String,
    pub conditions: Vec<ResourceCondition>,
}

/// The plain values of the common fields.
pub open spec fn common_view(observed_generation: u64, phase: String, conditions: Seq<ResourceCondition>) -> CommonView {
    CommonView { observed_generation, phase: phase@, conditions: conditions_view(conditions) }
}

/// The entry `conditions` is there only when there are conditions, and
/// holds them in order.
pub open spec fn conditions_at(es: Seq<(String, Json)>, cs: Seq<ConditionView>) -> bool {
    if cs.len() == 0 {
        entries_get(es, "conditions"@) is None
    } else {
        entries_get(es, "conditions"@) matches Some(Json::Array(items)) && items@.len() == cs.len()
            && forall|i: int| 0 <= i < cs.len() ==> #[trigger] condition_json(cs[i], items@[i])
    }
}

/// The common fields as entries of a status document.
pub open spec fn common_at(es: Seq<(String, Json)>, c: CommonView) -> bool {
    &&& u64_at(es, "observedGeneration"@, c.observed_generation)
    &&& str_at(es, "phase"@, c.phase)
    &&& conditions_at(es, c.conditions)
}

/// The common fields a status document is read with.
pub open spec fn common_of_json(v: Json) -> CommonView {
    CommonView {
        observed_generation: u64_or_zero(field(v, "observedGeneration"@)),
        phase: str_or_empty(field(v, "phase"@)),
        conditions: conditions_of_json(v),
    }
}

/// The fields every status is written with.
pub open spec fn common_keys() -> Set<Seq<char>> {
    set!["observedGeneration"@, "phase"@, "conditions"@]
}

fn conditions_array(conds: &Vec<ResourceCondition>) -> (r: Vec<Json>)
    ensures
        r@.len() == conds@.len(),
        forall|i: int| 0 <= i < conds@.len() ==> #[trigger] condition_json(
            condition_view(conds@[i]),
            r@[i],
        ),
{
    let mut r: Vec<Json> = Vec::new();
    let mut i: usize = 0;
    while i < conds.len()
        invariant
            i <= conds.len(),
            r@.len() == i,
            forall|j: int| 0 <= j < i ==> #[trigger] condition_json(condition_view(conds@[j]), r@[j]),
        decreases conds.len() - i,
    {
        r.push(condition_to_json(&conds[i]));
        i += 1;
    }
    r
}

/// The entries of the common fields: those that are set.
pub fn common_status_map(observed_generation: u64, phase: &String, conditions: &Vec<ResourceCondition>) -> (m: Vec<(String, Json)>)
    ensures
        common_at(m@, common_view(observed_generation, *phase, conditions@)),
        within(m@, common_keys()),
{
    proof {
        lemma_agent_keys();
    }
    let mut m: Vec<(String, Json)> = Vec::new();
    put_u64(&mut m, "observedGeneration", observed_generation);
    put_str(&mut m, "phase", phase);
    if conditions.len() > 0 {
        let items = conditions_array(conditions);
        insert_entry(&mut m, "conditions", Json::Array(items));
    }
    assert forall|k: Seq<char>| #[trigger] entries_get(m@, k) is Some implies common_keys().contains(k) by {
        lemma_empty_entries(k);
    }
    m
}

/// Reads the common fields of a status document.
pub fn common_status_from_value(v: &Json) -> (r: CommonStatus)
    ensures
        common_view(r.observed_generation, r.phase, r.conditions@) == common_of_json(*v),
{
    CommonStatus {
        observed_generation: u64_field(v, "observedGeneration"),
        phase: str_field(v, "phase"),
        conditions: conditions_from_value(v),
    }
}

/// The JSON form of a status with only the common fields.
pub fn common_status_to_json(s: &CommonStatus) -> (r: Json)
    ensures
        r is Object,
        common_at(entries_of(r), common_view(s.observed_generation, s.phase, s.conditions@)),
        within(entries_of(r), common_keys()),
{
    Json::Object(common_status_map(s.observed_generation, &s.phase, &s.conditions))
}

/// Reading the common fields back from what they were written as gives
/// them back.
pub proof fn lemma_common_round_trip(c: CommonView, j: Json)
    requires
        j is Object,
        common_at(entries_of(j), c),
    ensures
        common_of_json(j) == c,
{
    let es = entries_of(j);
    assert(field(j, "conditions"@) == entries_get(es, "conditions"@));
    if c.conditions.len() > 0 {
        let items = as_array(field(j, "conditions"@)).unwrap();
        assert forall|i: int| 0 <= i < c.conditions.len() implies condition_of_json(items[i])
            == c.conditions[i] by {
            lemma_condition_round_trip(c.conditions[i], items[i]);
        }
        assert(conditions_of_json(j) =~= c.conditions);
    } else {
        assert(conditions_of_json(j) =~= c.conditions);
    }
    assert(common_of_json(j).phase == c.phase);
}

// ---------------------------------------------------------------------------
// Agent

/// An Agent's status.
#[derive(Clone, Debug)]
pub struct AgentStatus {
    pub observed_generation: u64,
    pub phase: String,
    pub conditions: Vec<ResourceCondition>,
    pub last_session_id: Option<String>,
}

/// An Agent's status as plain values.
#[verifier::ext_equal]
pub struct AgentView {
    pub common: CommonView,
    pub last_session_id: Option<Seq<char>>,
}

/// The plain values of an Agent's status.
pub open spec fn agent_view(s: AgentStatus) -> AgentView {
    AgentView {
        common: common_view(s.observed_generation, s.phase, s.conditions@),
        last_session_id: opt_view(s.last_session_id),
    }
}

/// The fields an Agent's status is written with.
pub open spec fn agent_keys() -> Set<Seq<char>> {
    common_keys().insert("lastSessionId"@)
}

/// `j` is the JSON form of an Agent's status.
pub open spec fn agent_json(s: AgentView, j: Json) -> bool {
    let es = entries_of(j);
    &&& j is Object
    &&& within(es, agent_keys())
    &&& common_at(es, s.common)
    &&& opt_str_at(es, "lastSessionId"@, s.last_session_id)
}

/// The Agent status a document is read as.
pub open spec fn agent_of_json(v: Json) -> AgentView {
    AgentView { common: common_of_json(v), last_session_id: as_str(field(v, "lastSessionId"@)) }
}

/// The JSON form of an Agent's status.
pub fn agent_status_to_json(s: &AgentStatus) -> (r: Json)
    ensures
        agent_json(agent_view(*s), r),
{
    proof {
        lemma_agent_keys();
    }
    let mut m = common_status_map(s.observed_generation, &s.phase, &s.conditions);
    put_opt_str(&mut m, "lastSessionId", &s.last_session_id);
    Json::Object(m)
}

/// Reads an Agent's status.
pub fn agent_status_from_value(v: &Json) -> (r: AgentStatus)
    ensures
        agent_view(r) == agent_of_json(*v),
{
    AgentStatus {
        observed_generation: u64_field(v, "observedGeneration"),
        phase: str_field(v, "phase"),
        conditions: conditions_from_value(v),
        last_session_id: opt_str_field(v, "lastSessionId"),
    }
}

/// Writing an Agent's status and reading it back gives the same status,
/// when its last session, if any, is named.
pub proof fn lemma_agent_round_trip(s: AgentView, j: Json)
    requires
        agent_json(s, j),
        s.last_session_id matches Some(t) ==> t.len() > 0,
    ensures
        agent_of_json(j) == s,
{
    lemma_common_round_trip(s.common, j);
}

// ---------------------------------------------------------------------------
// Schedule

/// A Schedule's status.
#[derive(Clone, Debug)]
pub struct ScheduleStatus {
    pub observed_generation: u64,
    pub phase: String,
    pub conditions: Vec<ResourceCondition>,
    pub revision: u64,
    pub next_run_at: Option<i64>,
    pub backend_handle: Option<String>,
    pub backend_armed: bool,
    pub last_run_at: Option<i64>,
    pub last_session_id: Option<String>,
    pub last_error: Option<String>,
    pub claimed_run_at: Option<i64>,
    pub claim_expires_at: Option<i64>,
}

/// A Schedule's status as plain values.
#[verifier::ext_equal]
pub struct ScheduleView {
    pub common: CommonView,
    pub revision: u64,
    pub next_run_at: Option<i64>,
    pub backend_handle: Option<Seq<char>>,
    pub backend_armed: bool,
    pub last_run_at: Option<i64>,
    pub last_session_id: Option<Seq<char>>,
    pub last_error: Option<Seq<char>>,
    pub claimed_run_at: Option<i64>,
    pub claim_expires_at: Option<i64>,
}

/// The plain values of a Schedule's status.
pub open spec fn schedule_view(s: ScheduleStatus) -> ScheduleView {
    ScheduleView {
        common: common_view(s.observed_generation, s.phase, s.conditions@),
        revision: s.revision,
        next_run_at: s.next_run_at,
        backend_handle: opt_view(s.backend_handle),
        backend_armed: s.backend_armed,
        last_run_at: s.last_run_at,
        last_session_id: opt_view(s.last_session_id),
        last_error: opt_view(s.last_error),
        claimed_run_at: s.claimed_run_at,
        claim_expires_at: s.claim_expires_at,
    }
}

/// The fields a Schedule's status is written with.
pub open spec fn schedule_keys() -> Set<Seq<char>> {
    common_keys().union(
        set![
            "revision"@,
            "nextRunAt"@,
            "backendHandle"@,
            "backendArmed"@,
            "lastRunAt"@,
            "lastSessionId"@,
            "lastError"@,
            "claimedRunAt"@,
            "claimExpiresAt"@,
        ],
    )
}

/// `j` is the JSON form of a Schedule's status.
pub open spec fn schedule_json(s: ScheduleView, j: Json) -> bool {
    let es = entries_of(j);
    &&& j is Object
    &&& within(es, schedule_keys())
    &&& common_at(es, s.common)
    &&& u64_at(es, "revision"@, s.revision)
    &&& opt_i64_at(es, "nextRunAt"@, s.next_run_at)
    &&& opt_str_at(es, "backendHandle"@, s.backend_handle)
    &&& entries_get(es, "backendArmed"@) == if s.backend_armed {
        Some(Json::Bool(true))
    } else {
        None
    }
    &&& opt_i64_at(es, "lastRunAt"@, s.last_run_at)
    &&& opt_str_at(es, "lastSessionId"@, s.last_session_id)
    &&& opt_str_at(es, "lastError"@, s.last_error)
    &&& opt_i64_at(es, "claimedRunAt"@, s.claimed_run_at)
    &&& opt_i64_at(es, "claimExpiresAt"@, s.claim_expires_at)
}

/// The Schedule status a document is read as.
pub open spec fn schedule_of_json(v: Json) -> ScheduleView {
    ScheduleView {
        common: common_of_json(v),
        revision: u64_or_zero(field(v, "revision"@)),
        next_run_at: as_i64(field(v, "nextRunAt"@)),
        backend_handle: as_str(field(v, "backendHandle"@)),
        backend_armed: as_bool(field(v, "backendArmed"@)) == Some(true),
        last_run_at: as_i64(field(v, "lastRunAt"@)),
        last_session_id: as_str(field(v, "lastSessionId"@)),
        last_error: as_str(field(v, "lastError"@)),
        claimed_run_at: as_i64(field(v, "claimedRunAt"@)),
        claim_expires_at: as_i64(field(v, "claimExpiresAt"@)),
    }
}

/// The JSON form of a Schedule's status.
#[verifier::rlimit(50)]
pub fn schedule_status_to_json(s: &ScheduleStatus) -> (r: Json)
    ensures
        schedule_json(schedule_view(*s), r),
{
    proof {
        lemma_schedule_keys();
    }
    let mut m = common_status_map(s.observed_generation, &s.phase, &s.conditions);
    put_u64(&mut m, "revision", s.revision);
    put_opt_i64(&mut m, "nextRunAt", s.next_run_at);
    put_opt_str(&mut m, "backendHandle", &s.backend_handle);
    if s.backend_armed {
        insert_entry(&mut m, "backendArmed", Json::Bool(true));
    }
    put_opt_i64(&mut m, "lastRunAt", s.last_run_at);
    put_opt_str(&mut m, "lastSessionId", &s.last_session_id);
    put_opt_str(&mut m, "lastError", &s.last_error);
    put_opt_i64(&mut m, "claimedRunAt", s.claimed_run_at);
    put_opt_i64(&mut m, "claimExpiresAt", s.claim_expires_at);
    Json::Object(m)
}

/// Reads a Schedule's status.
pub fn schedule_status_from_value(v: &Json) -> (r: ScheduleStatus)
    ensures
        schedule_view(r) == schedule_of_json(*v),
{
    ScheduleStatus {
        observed_generation: u64_field(v, "observedGeneration"),
        phase: str_field(v, "phase"),
        conditions: conditions_from_value(v),
        revision: u64_field(v, "revision"),
        next_run_at: opt_i64_field(v, "nextRunAt"),
        backend_handle: opt_str_field(v, "backendHandle"),
        backend_armed: bool_field(v, "backendArmed"),
        last_run_at: opt_i64_field(v, "lastRunAt"),
        last_session_id: opt_str_field(v, "lastSessionId"),
        last_error: opt_str_field(v, "lastError"),
        claimed_run_at: opt_i64_field(v, "claimedRunAt"),
        claim_expires_at: opt_i64_field(v, "claimExpiresAt"),
    }
}

/// Writing a Schedule's status and reading it back gives the same status,
/// when none of its optional texts is there and empty.
pub proof fn lemma_schedule_round_trip(s: ScheduleView, j: Json)
    requires
        schedule_json(s, j),
        s.backend_handle matches Some(t) ==> t.len() > 0,
        s.last_session_id matches Some(t) ==> t.len() > 0,
        s.last_error matches Some(t) ==> t.len() > 0,
    ensures
        schedule_of_json(j) == s,
{
    lemma_common_round_trip(s.common, j);
}

// ---------------------------------------------------------------------------
// Worker

/// A Worker's status, without its endpoints.
#[derive(Clone, Debug)]
pub struct WorkerStatus {
    pub observed_generation: u64,
    pub phase: String,
    pub conditions: Vec<ResourceCondition>,
    pub started_at: i64,
    pub heartbeat_at: i64,
    pub expires_at: i64,
    pub version: String,
}

/// A Worker's status as plain values.
#[verifier::ext_equal]
pub struct WorkerView {
    pub common: CommonView,
    pub started_at: i64,
    pub heartbeat_at: i64,
    pub expires_at: i64,
    pub version: Seq<char>,
}

/// The plain values of a Worker's status.
pub open spec fn worker_view(s: WorkerStatus) -> WorkerView {
    WorkerView {
        common: common_view(s.observed_generation, s.phase, s.conditions@),
        started_at: s.started_at,
        heartbeat_at: s.heartbeat_at,
        expires_at: s.expires_at,
        version: s.version@,
    }
}

/// The fields a Worker's status is written with.
pub open spec fn worker_keys() -> Set<Seq<char>> {
    common_keys().union(set!["startedAt"@, "heartbeatAt"@, "expiresAt"@, "version"@])
}

/// `j` is the JSON form of a Worker's status: the times are always
/// written.
pub open spec fn worker_json(s: WorkerView, j: Json) -> bool {
    let es = entries_of(j);
    &&& j is Object
    &&& within(es, worker_keys())
    &&& common_at(es, s.common)
    &&& entries_get(es, "startedAt"@) == Some(int_value(s.started_at))
    &&& entries_get(es, "heartbeatAt"@) == Some(int_value(s.heartbeat_at))
    &&& entries_get(es, "expiresAt"@) == Some(int_value(s.expires_at))
    &&& str_at(es, "version"@, s.version)
}

/// The Worker status a document is read as.
pub open spec fn worker_of_json(v: Json) -> WorkerView {
    WorkerView {
        common: common_of_json(v),
        started_at: i64_or_zero(field(v, "startedAt"@)),
        heartbeat_at: i64_or_zero(field(v, "heartbeatAt"@)),
        expires_at: i64_or_zero(field(v, "expiresAt"@)),
        version: str_or_empty(field(v, "version"@)),
    }
}

/// The JSON form of a Worker's status.
pub fn worker_status_to_json(s: &WorkerStatus) -> (r: Json)
    ensures
        worker_json(worker_view(*s), r),
{
    proof {
        lemma_worker_keys();
    }
    let mut m = common_status_map(s.observed_generation, &s.phase, &s.conditions);
    put_full_i64(&mut m, "startedAt", s.started_at);
    put_full_i64(&mut m, "heartbeatAt", s.heartbeat_at);
    put_full_i64(&mut m, "expiresAt", s.expires_at);
    put_str(&mut m, "version", &s.version);
    Json::Object(m)
}

/// Reads a Worker's status.
pub fn worker_status_from_value(v: &Json) -> (r: WorkerStatus)
    ensures
        worker_view(r) == worker_of_json(*v),
{
    WorkerStatus {
        observed_generation: u64_field(v, "observedGeneration"),
        phase: str_field(v, "phase"),
        conditions: conditions_from_value(v),
        started_at: i64_field(v, "startedAt"),
        heartbeat_at: i64_field(v, "heartbeatAt"),
        expires_at: i64_field(v, "expiresAt"),
        version: str_field(v, "version"),
    }
}

/// Writing a Worker's status and reading it back gives the same status.
pub proof fn lemma_worker_round_trip(s: WorkerView, j: Json)
    requires
        worker_json(s, j),
    ensures
        worker_of_json(j) == s,
{
    lemma_common_round_trip(s.common, j);
}

// ---------------------------------------------------------------------------
// PermissionRequest

/// A PermissionRequest's status: the decision, who made it and when.
#[derive(Clone, Debug)]
pub struct PermissionRequestStatus {
    pub observed_generation: u64,
    pub phase: String,
    pub conditions: Vec<ResourceCondition>,
    pub decision: String,
    pub decided_by: String,
    pub decided_at: i64,
}

/// A PermissionRequest's status as plain values.
#[verifier::ext_equal]
pub struct PermissionRequestView {
    pub common: CommonView,
    pub decision: Seq<char>,
    pub decided_by: Seq<char>,
    pub decided_at: i64,
}

/// The plain values of a PermissionRequest's status.
pub open spec fn permission_request_view(s: PermissionRequestStatus) -> PermissionRequestView {
    PermissionRequestView {
        common: common_view(s.observed_generation, s.phase, s.conditions@),
        decision: s.decision@,
        decided_by: s.decided_by@,
        decided_at: s.decided_at,
    }
}

/// The fields a PermissionRequest's status is written with.
pub open spec fn permission_request_keys() -> Set<Seq<char>> {
    common_keys().union(set!["decision"@, "decidedBy"@, "decidedAt"@])
}

/// `j` is the JSON form of a PermissionRequest's status: each field only
/// when it is set.
pub open spec fn permission_request_json(s: PermissionRequestView, j: Json) -> bool {
    let es = entries_of(j);
    &&& j is Object
    &&& within(es, permission_request_keys())
    &&& common_at(es, s.common)
    &&& str_at(es, "decision"@, s.decision)
    &&& str_at(es, "decidedBy"@, s.decided_by)
    &&& i64_at(es, "decidedAt"@, s.decided_at)
}

/// The PermissionRequest status a document is read as.
pub open spec fn permission_request_of_json(v: Json) -> PermissionRequestView {
    PermissionRequestView {
        common: common_of_json(v),
        decision: str_or_empty(field(v, "decision"@)),
        decided_by: str_or_empty(field(v, "decidedBy"@)),
        decided_at: i64_or_zero(field(v, "decidedAt"@)),
    }
}

/// The JSON form of a PermissionRequest's status.
pub fn permission_request_status_to_json(s: &PermissionRequestStatus) -> (r: Json)
    ensures
        permission_request_json(permission_request_view(*s), r),
{
    proof {
        lemma_permission_request_keys();
    }
    let mut m = common_status_map(s.observed_generation, &s.phase, &s.conditions);
    put_str(&mut m, "decision", &s.decision);
    put_str(&mut m, "decidedBy", &s.decided_by);
    put_i64(&mut m, "decidedAt", s.decided_at);
    Json::Object(m)
}

/// Reads a PermissionRequest's status.
pub fn permission_request_status_from_value(v: &Json) -> (r: PermissionRequestStatus)
    ensures
        permission_request_view(r) == permission_request_of_json(*v),
{
    PermissionRequestStatus {
        observed_generation: u64_field(v, "observedGeneration"),
        phase: str_field(v, "phase"),
        conditions: conditions_from_value(v),
        decision: str_field(v, "decision"),
        decided_by: str_field(v, "decidedBy"),
        decided_at: i64_field(v, "decidedAt"),
    }
}

/// Writing a PermissionRequest's status and reading it back gives the same
/// status.
pub proof fn lemma_permission_request_round_trip(s: PermissionRequestView, j: Json)
    requires
        permission_request_json(s, j),
    ensures
        permission_request_of_json(j) == s,
{
    lemma_common_round_trip(s.common, j);
}

// ---------------------------------------------------------------------------
// Sandbox

/// Who holds a sandbox, and until when.
#[derive(Clone, Debug)]
pub struct SandboxLease {
    pub owner_kind: String,
    pub owner_agent: String,
    pub owner_session_id: String,
    pub token: String,
    pub acquired_at: i64,
    pub expires_at: i64,
    pub heartbeat_at: i64,
}

/// A sandbox lease as plain values.
#[verifier::ext_equal]
pub struct LeaseView {
    pub owner_kind: Seq<char>,
    pub owner_agent: Seq<char>,
    pub owner_session_id: Seq<char>,
    pub token: Seq<char>,
    pub acquired_at: i64,
    pub expires_at: i64,
    pub heartbeat_at: i64,
}

/// The plain values of a lease.
pub open spec fn lease_view(l: SandboxLease) -> LeaseView {
    LeaseView {
        owner_kind: l.owner_kind@,
        owner_agent: l.owner_agent@,
        owner_session_id: l.owner_session_id@,
        token: l.token@,
        acquired_at: l.acquired_at,
        expires_at: l.expires_at,
        heartbeat_at: l.heartbeat_at,
    }
}

/// The fields a lease is written with.
pub open spec fn lease_keys() -> Set<Seq<char>> {
    set![
        "ownerKind"@,
        "ownerAgent"@,
        "ownerSessionId"@,
        "token"@,
        "acquiredAt"@,
        "expiresAt"@,
        "heartbeatAt"@,
    ]
}

/// `j` is the JSON form of a lease: an object with the fields that are set.
pub open spec fn lease_json(l: LeaseView, j: Json) -> bool {
    let es = entries_of(j);
    &&& j is Object
    &&& within(es, lease_keys())
    &&& str_at(es, "ownerKind"@, l.owner_kind)
    &&& str_at(es, "ownerAgent"@, l.owner_agent)
    &&& str_at(es, "ownerSessionId"@, l.owner_session_id)
    &&& str_at(es, "token"@, l.token)
    &&& i64_at(es, "acquiredAt"@, l.acquired_at)
    &&& i64_at(es, "expiresAt"@, l.expires_at)
    &&& i64_at(es, "heartbeatAt"@, l.heartbeat_at)
}

/// The lease a JSON value is read as.
pub open spec fn lease_of_json(j: Json) -> LeaseView {
    LeaseView {
        owner_kind: str_or_empty(field(j, "ownerKind"@)),
        owner_agent: str_or_empty(field(j, "ownerAgent"@)),
        owner_session_id: str_or_empty(field(j, "ownerSessionId"@)),
        token: str_or_empty(field(j, "token"@)),
        acquired_at: i64_or_zero(field(j, "acquiredAt"@)),
        expires_at: i64_or_zero(field(j, "expiresAt"@)),
        heartbeat_at: i64_or_zero(field(j, "heartbeatAt"@)),
    }
}

/// The JSON form of a lease.
pub fn sandbox_lease_to_json(l: &SandboxLease) -> (r: Json)
    ensures
        lease_json(lease_view(*l), r),
{
    proof {
        lemma_lease_keys();
    }
    let mut m: Vec<(String, Json)> = Vec::new();
    put_str(&mut m, "ownerKind", &l.owner_kind);
    put_str(&mut m, "ownerAgent", &l.owner_agent);
    put_str(&mut m, "ownerSessionId", &l.owner_session_id);
    put_str(&mut m, "token", &l.token);
    put_i64(&mut m, "acquiredAt", l.acquired_at);
    put_i64(&mut m, "expiresAt", l.expires_at);
    put_i64(&mut m, "heartbeatAt", l.heartbeat_at);
    assert forall|k: Seq<char>| #[trigger] entries_get(m@, k) is Some implies lease_keys().contains(k) by {
        lemma_empty_entries(k);
    }
    Json::Object(m)
}

/// Reads a lease; a lease is there whenever the document has the field,
/// whatever its value.
pub fn sandbox_lease_from_value(v: Option<&Json>) -> (r: Option<SandboxLease>)
    ensures
        match (v, r) {
            (Some(j), Some(l)) => lease_view(l) == lease_of_json(*j),
            (None, None) => true,
            _ => false,
        },
{
    match v {
        Some(j) => Some(
            SandboxLease {
                owner_kind: str_field(j, "ownerKind"),
                owner_agent: str_field(j, "ownerAgent"),
                owner_session_id: str_field(j, "ownerSessionId"),
                token: str_field(j, "token"),
                acquired_at: i64_field(j, "acquiredAt"),
                expires_at: i64_field(j, "expiresAt"),
                heartbeat_at: i64_field(j, "heartbeatAt"),
            },
        ),
        None => None,
    }
}

/// A process run in a sandbox.
#[derive(Clone, Debug)]
pub struct SandboxProcessStatus {
    pub id: String,
    pub command: String,
    pub args: Vec<String>,
    pub protocol: String,
    pub phase: String,
}

/// A sandbox process as plain values.
#[verifier::ext_equal]
pub struct ProcessView {
    pub id: Seq<char>,
    pub command: Seq<char>,
    pub args: Seq<Seq<char>>,
    pub protocol: Seq<char>,
    pub phase: Seq<char>,
}

/// The plain values of a sandbox process.
pub open spec fn process_view(p: SandboxProcessStatus) -> ProcessView {
    ProcessView {
        id: p.id@,
        command: p.command@,
        args: strings_view(p.args@),
        protocol: p.protocol@,
        phase: p.phase@,
    }
}

/// The fields a sandbox process is written with.
pub open spec fn process_keys() -> Set<Seq<char>> {
    set!["id"@, "command"@, "args"@, "protocol"@, "phase"@]
}

/// `j` is the JSON form of a sandbox process.
pub open spec fn process_json(p: ProcessView, j: Json) -> bool {
    let es = entries_of(j);
    &&& j is Object
    &&& within(es, process_keys())
    &&& str_at(es, "id"@, p.id)
    &&& str_at(es, "command"@, p.command)
    &&& if p.args.len() == 0 {
        entries_get(es, "args"@) is None
    } else {
        entries_get(es, "args"@) matches Some(Json::Array(items)) && items@.len() == p.args.len()
            && forall|i: int| 0 <= i < p.args.len() ==> #[trigger] is_str(Some(items@[i]), p.args[i])
    }
    &&& str_at(es, "protocol"@, p.protocol)
    &&& str_at(es, "phase"@, p.phase)
}

/// The list of strings a JSON value is read as: the strings of an array of
/// strings, and none for anything else.
pub open spec fn strings_of_json(v: Option<Json>) -> Seq<Seq<char>> {
    match as_array(v) {
        Some(items) => if forall|i: int| 0 <= i < items.len() ==> #[trigger] items[i] is Str {
            items.map_values(|j: Json| str_or_empty(Some(j)))
        } else {
            Seq::empty()
        },
        None => Seq::empty(),
    }
}

/// The sandbox process a JSON value is read as.
pub open spec fn process_of_json(j: Json) -> ProcessView {
    ProcessView {
        id: str_or_empty(field(j, "id"@)),
        command: str_or_empty(field(j, "command"@)),
        args: strings_of_json(field(j, "args"@)),
        protocol: str_or_empty(field(j, "protocol"@)),
        phase: str_or_empty(field(j, "phase"@)),
    }
}

/// The JSON form of a sandbox process.
pub fn sandbox_process_status_to_json(p: &SandboxProcessStatus) -> (r: Json)
    ensures
        process_json(process_view(*p), r),
{
    proof {
        lemma_process_keys();
    }
    let mut m: Vec<(String, Json)> = Vec::new();
    put_str(&mut m, "id", &p.id);
    put_str(&mut m, "command", &p.command);
    if p.args.len() > 0 {
        let mut items: Vec<Json> = Vec::new();
        let mut i: usize = 0;
        while i < p.args.len()
            invariant
                i <= p.args.len(),
                items@.len() == i,
                forall|j: int| 0 <= j < i ==> #[trigger] is_str(Some(items@[j]), p.args@[j]@),
            decreases p.args.len() - i,
        {
            items.push(Json::Str(owned(p.args[i].as_str())));
            i += 1;
        }
        insert_entry(&mut m, "args", Json::Array(items));
    }
    put_str(&mut m, "protocol", &p.protocol);
    put_str(&mut m, "phase", &p.phase);
    assert forall|k: Seq<char>| #[trigger] entries_get(m@, k) is Some implies process_keys().contains(k) by {
        lemma_empty_entries(k);
    }
    Json::Object(m)
}

/// Reads a list of strings.
pub fn strings_from_value(v: Option<&Json>) -> (r: Vec<String>)
    ensures
        strings_view(r@) == strings_of_json(
            match v {
                Some(j) => Some(*j),
                None => None,
            },
        ),
{
    let ghost a = match v {
        Some(j) => Some(*j),
        None => None,
    };
    let mut r: Vec<String> = Vec::new();
    match v {
        Some(Json::Array(items)) => {
            let mut i: usize = 0;
            while i < items.len()
                invariant
                    i <= items.len(),
                    as_array(a) == Some(items@),
                    a == match v {
                        Some(j) => Some(*j),
                        None => None,
                    },
                    forall|j: int| 0 <= j < i ==> #[trigger] items@[j] is Str,
                    strings_view(r@) =~= items@.take(i as int).map_values(
                        |j: Json| str_or_empty(Some(j)),
                    ),
                decreases items.len() - i,
            {
                match &items[i] {
                    Json::Str(s) => {
                        let ghost before = r@;
                        r.push(owned(s.as_str()));
                        assert(strings_view(r@) =~= strings_view(before).push(s@));
                        assert(items@.take(i + 1) =~= items@.take(i as int).push(items@[i as int]));
                    },
                    _ => {
                        assert(!(items@[i as int] is Str));
                        assert(strings_of_json(a) =~= Seq::<Seq<char>>::empty());
                        let none: Vec<String> = Vec::new();
                        assert(strings_view(none@) =~= Seq::<Seq<char>>::empty());
                        return none;
                    },
                }
                i += 1;
            }
            assert(items@.take(items.len() as int) =~= items@);
        },
        _ => {},
    }
    assert(strings_view(r@) =~= strings_of_json(
        match v {
            Some(j) => Some(*j),
            None => None,
        },
    ));
    r
}

/// Reads a sandbox process.
pub fn sandbox_process_from_value(j: &Json) -> (r: SandboxProcessStatus)
    ensures
        process_view(r) == process_of_json(*j),
{
    SandboxProcessStatus {
        id: str_field(j, "id"),
        command: str_field(j, "command"),
        args: strings_from_value(get(j, "args")),
        protocol: str_field(j, "protocol"),
        phase: str_field(j, "phase"),
    }
}

/// The views of a list of sandbox processes.
pub open spec fn processes_view(ps: Seq<SandboxProcessStatus>) -> Seq<ProcessView> {
    ps.map_values(|p: SandboxProcessStatus| process_view(p))
}

/// The processes a JSON value is read as: those of an array, or none.
pub open spec fn processes_of_json(v: Option<Json>) -> Seq<ProcessView> {
    match as_array(v) {
        Some(items) => items.map_values(|j: Json| process_of_json(j)),
        None => Seq::empty(),
    }
}

/// Reads the processes of a sandbox status.
pub fn sandbox_processes_from_value(v: Option<&Json>) -> (r: Vec<SandboxProcessStatus>)
    ensures
        processes_view(r@) == processes_of_json(
            match v {
                Some(j) => Some(*j),
                None => None,
            },
        ),
{
    let mut r: Vec<SandboxProcessStatus> = Vec::new();
    match v {
        Some(Json::Array(items)) => {
            let mut i: usize = 0;
            while i < items.len()
                invariant
                    i <= items.len(),
                    processes_view(r@) =~= items@.take(i as int).map_values(
                        |j: Json| process_of_json(j),
                    ),
                decreases items.len() - i,
            {
                let p = sandbox_process_from_value(&items[i]);
                let ghost before = r@;
                r.push(p);
                assert(processes_view(r@) =~= processes_view(before).push(process_view(p)));
                assert(items@.take(i + 1) =~= items@.take(i as int).push(items@[i as int]));
                i += 1;
            }
            assert(items@.take(items.len() as int) =~= items@);
        },
        _ => {},
    }
    r
}

/// A Sandbox's status.
#[derive(Clone, Debug)]
pub struct SandboxStatus {
    pub observed_generation: u64,
    pub phase: String,
    pub conditions: Vec<ResourceCondition>,
    pub backend_id: String,
    pub lease: Option<SandboxLease>,
    pub processes: Vec<SandboxProcessStatus>,
}

/// A Sandbox's status as plain values.
#[verifier::ext_equal]
pub struct SandboxView {
    pub common: CommonView,
    pub backend_id: Seq<char>,
    pub lease: Option<LeaseView>,
    pub processes: Seq<ProcessView>,
}

/// The plain values of a Sandbox's status.
pub open spec fn sandbox_view(s: SandboxStatus) -> SandboxView {
    SandboxView {
        common: common_view(s.observed_generation, s.phase, s.conditions@),
        backend_id: s.backend_id@,
        lease: match s.lease {
            Some(l) => Some(lease_view(l)),
            None => None,
        },
        processes: processes_view(s.processes@),
    }
}

/// The fields a Sandbox's status is written with.
pub open spec fn sandbox_keys() -> Set<Seq<char>> {
    common_keys().union(set!["backendId"@, "lease"@, "processes"@])
}

/// `j` is the JSON form of a Sandbox's status.
pub open spec fn sandbox_json(s: SandboxView, j: Json) -> bool {
    let es = entries_of(j);
    &&& j is Object
    &&& within(es, sandbox_keys())
    &&& common_at(es, s.common)
    &&& str_at(es, "backendId"@, s.backend_id)
    &&& match s.lease {
        Some(l) => entries_get(es, "lease"@) matches Some(x) && lease_json(l, x),
        None => entries_get(es, "lease"@) is None,
    }
    &&& if s.processes.len() == 0 {
        entries_get(es, "processes"@) is None
    } else {
        entries_get(es, "processes"@) matches Some(Json::Array(items)) && items@.len()
            == s.processes.len() && forall|i: int|
            0 <= i < s.processes.len() ==> #[trigger] process_json(s.processes[i], items@[i])
    }
}

/// The Sandbox status a document is read as.
pub open spec fn sandbox_of_json(v: Json) -> SandboxView {
    SandboxView {
        common: common_of_json(v),
        backend_id: str_or_empty(field(v, "backendId"@)),
        lease: match field(v, "lease"@) {
            Some(x) => Some(lease_of_json(x)),
            None => None,
        },
        processes: processes_of_json(field(v, "processes"@)),
    }
}

/// The JSON form of a Sandbox's status.
pub fn sandbox_status_to_json(s: &SandboxStatus) -> (r: Json)
    ensures
        sandbox_json(sandbox_view(*s), r),
{
    proof {
        lemma_sandbox_keys();
    }
    let mut m = common_status_map(s.observed_generation, &s.phase, &s.conditions);
    put_str(&mut m, "backendId", &s.backend_id);
    match &s.lease {
        Some(l) => insert_entry(&mut m, "lease", sandbox_lease_to_json(l)),
        None => {},
    }
    if s.processes.len() > 0 {
        let mut items: Vec<Json> = Vec::new();
        let mut i: usize = 0;
        while i < s.processes.len()
            invariant
                i <= s.processes.len(),
                items@.len() == i,
                forall|j: int| 0 <= j < i ==> #[trigger] process_json(
                    process_view(s.processes@[j]),
                    items@[j],
                ),
            decreases s.processes.len() - i,
        {
            items.push(sandbox_process_status_to_json(&s.processes[i]));
            i += 1;
        }
        insert_entry(&mut m, "processes", Json::Array(items));
    }
    Json::Object(m)
}

/// Reads a Sandbox's status.
pub fn sandbox_status_from_value(v: &Json) -> (r: SandboxStatus)
    ensures
        sandbox_view(r) == sandbox_of_json(*v),
{
    SandboxStatus {
        observed_generation: u64_field(v, "observedGeneration"),
        phase: str_field(v, "phase"),
        conditions: conditions_from_value(v),
        backend_id: str_field(v, "backendId"),
        lease: sandbox_lease_from_value(get(v, "lease")),
        processes: sandbox_processes_from_value(get(v, "processes")),
    }
}

/// Writing a lease and reading it back gives the same lease.
pub proof fn lemma_lease_round_trip(l: LeaseView, j: Json)
    requires
        lease_json(l, j),
    ensures
        lease_of_json(j) == l,
{
}

/// Writing a sandbox process and reading it back gives the same process.
pub proof fn lemma_process_round_trip(p: ProcessView, j: Json)
    requires
        process_json(p, j),
    ensures
        process_of_json(j) == p,
{
    let a = field(j, "args"@);
    if p.args.len() > 0 {
        let items = as_array(a).unwrap();
        assert forall|i: int| 0 <= i < items.len() implies #[trigger] items[i] is Str
            && str_or_empty(Some(items[i])) == p.args[i] by {
            assert(is_str(Some(items[i]), p.args[i]));
        }
        assert(strings_of_json(a) =~= p.args);
    } else {
        assert(strings_of_json(a) =~= p.args);
    }
}

/// Writing a Sandbox's status and reading it back gives the same status.
pub proof fn lemma_sandbox_round_trip(s: SandboxView, j: Json)
    requires
        sandbox_json(s, j),
    ensures
        sandbox_of_json(j) == s,
{
    lemma_common_round_trip(s.common, j);
    match s.lease {
        Some(l) => {
            lemma_lease_round_trip(l, field(j, "lease"@).unwrap());
        },
        None => {},
    }
    let r = processes_of_json(field(j, "processes"@));
    if s.processes.len() > 0 {
        let items = as_array(field(j, "processes"@)).unwrap();
        assert forall|i: int| 0 <= i < s.processes.len() implies r[i] == s.processes[i] by {
            lemma_process_round_trip(s.processes[i], items[i]);
        }
    }
    assert(r =~= s.processes);
}

// ---------------------------------------------------------------------------
// Deployment

/// A reference to a resource.
#[derive(Clone, Debug)]
pub struct ResourceRef {
    pub namespace: String,
    pub name: String,
}

/// A resource reference as plain values.
#[verifier::ext_equal]
pub struct RefView {
    pub namespace: Seq<char>,
    pub name: Seq<char>,
}

/// The plain values of a resource reference.
pub open spec fn ref_view(r: ResourceRef) -> RefView {
    RefView { namespace: r.namespace@, name: r.name@ }
}

/// `j` is the JSON form of a reference: both fields, always.
pub open spec fn ref_json(r: RefView, j: Json) -> bool {
    let es = entries_of(j);
    &&& j is Object
    &&& within(es, set!["namespace"@, "name"@])
    &&& full_str_at(es, "namespace"@, r.namespace)
    &&& full_str_at(es, "name"@, r.name)
}

/// The reference a JSON value is read as.
pub open spec fn ref_of_json(j: Json) -> RefView {
    RefView { namespace: str_or_empty(field(j, "namespace"@)), name: str_or_empty(field(j, "name"@)) }
}

/// The JSON form of a resource reference.
pub fn resource_ref_json(r: &ResourceRef) -> (j: Json)
    ensures
        ref_json(ref_view(*r), j),
{
    proof {
        lemma_ref_keys();
    }
    let mut m: Vec<(String, Json)> = Vec::new();
    put_full_str(&mut m, "namespace", &r.namespace);
    put_full_str(&mut m, "name", &r.name);
    assert forall|k: Seq<char>| #[trigger] entries_get(m@, k) is Some implies set![
        "namespace"@,
        "name"@,
    ].contains(k) by {
        lemma_empty_entries(k);
    }
    Json::Object(m)
}

/// Reads a resource reference.
pub fn resource_ref_from_value(j: &Json) -> (r: ResourceRef)
    ensures
        ref_view(r) == ref_of_json(*j),
{
    ResourceRef { namespace: str_field(j, "namespace"), name: str_field(j, "name") }
}

/// How many replicas of a deployment are in each state.
#[derive(Clone, Copy, Debug)]
pub struct DeploymentReplicaCounts {
    pub desired: u64,
    pub updated: u64,
    pub ready: u64,
    pub pending: u64,
    pub degraded: u64,
}

/// `j` is the JSON form of replica counts: every count, always.
pub open spec fn counts_json(c: DeploymentReplicaCounts, j: Json) -> bool {
    let es = entries_of(j);
    &&& j is Object
    &&& within(es, set!["desired"@, "updated"@, "ready"@, "pending"@, "degraded"@])
    &&& entries_get(es, "desired"@) == Some(Json::PosInt(c.desired))
    &&& entries_get(es, "updated"@) == Some(Json::PosInt(c.updated))
    &&& entries_get(es, "ready"@) == Some(Json::PosInt(c.ready))
    &&& entries_get(es, "pending"@) == Some(Json::PosInt(c.pending))
    &&& entries_get(es, "degraded"@) == Some(Json::PosInt(c.degraded))
}

/// The replica counts a JSON value is read as.
pub open spec fn counts_of_json(j: Json) -> DeploymentReplicaCounts {
    DeploymentReplicaCounts {
        desired: u64_or_zero(field(j, "desired"@)),
        updated: u64_or_zero(field(j, "updated"@)),
        ready: u64_or_zero(field(j, "ready"@)),
        pending: u64_or_zero(field(j, "pending"@)),
        degraded: u64_or_zero(field(j, "degraded"@)),
    }
}

/// The JSON form of replica counts.
pub fn replica_counts_json(c: &DeploymentReplicaCounts) -> (r: Json)
    ensures
        counts_json(*c, r),
{
    proof {
        lemma_counts_keys();
    }
    let mut m: Vec<(String, Json)> = Vec::new();
    put_full_u64(&mut m, "desired", c.desired);
    put_full_u64(&mut m, "updated", c.updated);
    put_full_u64(&mut m, "ready", c.ready);
    put_full_u64(&mut m, "pending", c.pending);
    put_full_u64(&mut m, "degraded", c.degraded);
    assert forall|k: Seq<char>| #[trigger] entries_get(m@, k) is Some implies set![
        "desired"@,
        "updated"@,
        "ready"@,
        "pending"@,
        "degraded"@,
    ].contains(k) by {
        lemma_empty_entries(k);
    }
    Json::Object(m)
}

/// Reads replica counts.
pub fn deployment_replica_counts_from_value(j: &Json) -> (r: DeploymentReplicaCounts)
    ensures
        r == counts_of_json(*j),
{
    DeploymentReplicaCounts {
        desired: u64_field(j, "desired"),
        updated: u64_field(j, "updated"),
        ready: u64_field(j, "ready"),
        pending: u64_field(j, "pending"),
        degraded: u64_field(j, "degraded"),
    }
}

/// A Deployment's status.
#[derive(Clone, Debug)]
pub struct DeploymentStatus {
    pub observed_generation: u64,
    pub phase: String,
    pub conditions: Vec<ResourceCondition>,
    pub replicas: Vec<ResourceRef>,
    pub replica_counts: Option<DeploymentReplicaCounts>,
}

/// A Deployment's status as plain values.
#[verifier::ext_equal]
pub struct DeploymentView {
    pub common: CommonView,
    pub replicas: Seq<RefView>,
    pub replica_counts: Option<DeploymentReplicaCounts>,
}

/// The views of a list of references.
pub open spec fn refs_view(rs: Seq<ResourceRef>) -> Seq<RefView> {
    rs.map_values(|r: ResourceRef| ref_view(r))
}

/// The plain values of a Deployment's status.
pub open spec fn deployment_view(s: DeploymentStatus) -> DeploymentView {
    DeploymentView {
        common: common_view(s.observed_generation, s.phase, s.conditions@),
        replicas: refs_view(s.replicas@),
        replica_counts: s.replica_counts,
    }
}

/// The fields a Deployment's status is written with.
pub open spec fn deployment_keys() -> Set<Seq<char>> {
    common_keys().union(set!["replicas"@, "replicaCounts"@])
}

/// `j` is the JSON form of a Deployment's status.
pub open spec fn deployment_json(s: DeploymentView, j: Json) -> bool {
    let es = entries_of(j);
    &&& j is Object
    &&& within(es, deployment_keys())
    &&& common_at(es, s.common)
    &&& if s.replicas.len() == 0 {
        entries_get(es, "replicas"@) is None
    } else {
        entries_get(es, "replicas"@) matches Some(Json::Array(items)) && items@.len()
            == s.replicas.len() && forall|i: int|
            0 <= i < s.replicas.len() ==> #[trigger] ref_json(s.replicas[i], items@[i])
    }
    &&& match s.replica_counts {
        Some(c) => entries_get(es, "replicaCounts"@) matches Some(x) && counts_json(c, x),
        None => entries_get(es, "replicaCounts"@) is None,
    }
}

/// The Deployment status a document is read as.
pub open spec fn deployment_of_json(v: Json) -> DeploymentView {
    DeploymentView {
        common: common_of_json(v),
        replicas: match as_array(field(v, "replicas"@)) {
            Some(items) => items.map_values(|j: Json| ref_of_json(j)),
            None => Seq::empty(),
        },
        replica_counts: match field(v, "replicaCounts"@) {
            Some(x) => Some(counts_of_json(x)),
            None => None,
        },
    }
}

/// The JSON form of a Deployment's status.
pub fn deployment_status_to_json(s: &DeploymentStatus) -> (r: Json)
    ensures
        deployment_json(deployment_view(*s), r),
{
    proof {
        lemma_deployment_keys();
    }
    let mut m = common_status_map(s.observed_generation, &s.phase, &s.conditions);
    if s.replicas.len() > 0 {
        let mut items: Vec<Json> = Vec::new();
        let mut i: usize = 0;
        while i < s.replicas.len()
            invariant
                i <= s.replicas.len(),
                items@.len() == i,
                forall|j: int| 0 <= j < i ==> #[trigger] ref_json(ref_view(s.replicas@[j]), items@[j]),
            decreases s.replicas.len() - i,
        {
            items.push(resource_ref_json(&s.replicas[i]));
            i += 1;
        }
        insert_entry(&mut m, "replicas", Json::Array(items));
    }
    match &s.replica_counts {
        Some(c) => insert_entry(&mut m, "replicaCounts", replica_counts_json(c)),
        None => {},
    }
    Json::Object(m)
}

/// Reads a Deployment's status.
pub fn deployment_status_from_value(v: &Json) -> (r: DeploymentStatus)
    ensures
        deployment_view(r) == deployment_of_json(*v),
{
    let mut replicas: Vec<ResourceRef> = Vec::new();
    match get(v, "replicas") {
        Some(Json::Array(items)) => {
            let mut i: usize = 0;
            while i < items.len()
                invariant
                    i <= items.len(),
                    refs_view(replicas@) =~= items@.take(i as int).map_values(
                        |j: Json| ref_of_json(j),
                    ),
                decreases items.len() - i,
            {
                let r = resource_ref_from_value(&items[i]);
                let ghost before = replicas@;
                replicas.push(r);
                assert(refs_view(replicas@) =~= refs_view(before).push(ref_view(r)));
                assert(items@.take(i + 1) =~= items@.take(i as int).push(items@[i as int]));
                i += 1;
            }
            assert(items@.take(items.len() as int) =~= items@);
        },
        _ => {},
    }
    let replica_counts = match get(v, "replicaCounts") {
        Some(x) => Some(deployment_replica_counts_from_value(x)),
        None => None,
    };
    DeploymentStatus {
        observed_generation: u64_field(v, "observedGeneration"),
        phase: str_field(v, "phase"),
        conditions: conditions_from_value(v),
        replicas,
        replica_counts,
    }
}

/// Writing a Deployment's status and reading it back gives the same status.
pub proof fn lemma_deployment_round_trip(s: DeploymentView, j: Json)
    requires
        deployment_json(s, j),
    ensures
        deployment_of_json(j) == s,
{
    lemma_common_round_trip(s.common, j);
    let r = deployment_of_json(j);
    if s.replicas.len() > 0 {
        let items = as_array(field(j, "replicas"@)).unwrap();
        assert forall|i: int| 0 <= i < s.replicas.len() implies r.replicas[i] == s.replicas[i] by {
            assert(ref_json(s.replicas[i], items[i]));
        }
    }
    assert(r.replicas =~= s.replicas);
}

proof fn lemma_condition_keys()
    ensures
        "type"@ != "status"@,
        "type"@ != "reason"@,
        "type"@ != "message"@,
        "type"@ != "lastTransitionTime"@,
        "type"@ != "observedGeneration"@,
        "status"@ != "reason"@,
        "status"@ != "message"@,
        "status"@ != "lastTransitionTime"@,
        "status"@ != "observedGeneration"@,
        "reason"@ != "message"@,
        "reason"@ != "lastTransitionTime"@,
        "reason"@ != "observedGeneration"@,
        "message"@ != "lastTransitionTime"@,
        "message"@ != "observedGeneration"@,
        "lastTransitionTime"@ != "observedGeneration"@,
{
    reveal_strlit("type");
    reveal_strlit("status");
    reveal_strlit("reason");
    reveal_strlit("message");
    reveal_strlit("lastTransitionTime");
    reveal_strlit("observedGeneration");
    assert("type"@.len() == 4);
    assert("status"@.len() == 6);
    assert("reason"@.len() == 6);
    assert("message"@.len() == 7);
    assert("lastTransitionTime"@.len() == 18);
    assert("observedGeneration"@.len() == 18);
    assert("status"@[0] != "reason"@[0]);
    assert("lastTransitionTime"@[0] != "observedGeneration"@[0]);
}

proof fn lemma_agent_keys()
    ensures
        "observedGeneration"@ != "phase"@,
        "observedGeneration"@ != "conditions"@,
        "observedGeneration"@ != "lastSessionId"@,
        "phase"@ != "conditions"@,
        "phase"@ != "lastSessionId"@,
        "conditions"@ != "lastSessionId"@,
{
    reveal_strlit("observedGeneration");
    reveal_strlit("phase");
    reveal_strlit("conditions");
    reveal_strlit("lastSessionId");
    assert("observedGeneration"@.len() == 18);
    assert("phase"@.len() == 5);
    assert("conditions"@.len() == 10);
    assert("lastSessionId"@.len() == 13);
}

proof fn lemma_schedule_keys()
    ensures
        "observedGeneration"@ != "phase"@,
        "observedGeneration"@ != "conditions"@,
        "observedGeneration"@ != "revision"@,
        "observedGeneration"@ != "nextRunAt"@,
        "observedGeneration"@ != "backendHandle"@,
        "observedGeneration"@ != "backendArmed"@,
        "observedGeneration"@ != "lastRunAt"@,
        "observedGeneration"@ != "lastSessionId"@,
        "observedGeneration"@ != "lastError"@,
        "observedGeneration"@ != "claimedRunAt"@,
        "observedGeneration"@ != "claimExpiresAt"@,
        "phase"@ != "conditions"@,
        "phase"@ != "revision"@,
        "phase"@ != "nextRunAt"@,
        "phase"@ != "backendHandle"@,
        "phase"@ != "backendArmed"@,
        "phase"@ != "lastRunAt"@,
        "phase"@ != "lastSessionId"@,
        "phase"@ != "lastError"@,
        "phase"@ != "claimedRunAt"@,
        "phase"@ != "claimExpiresAt"@,
        "conditions"@ != "revision"@,
        "conditions"@ != "nextRunAt"@,
        "conditions"@ != "backendHandle"@,
        "conditions"@ != "backendArmed"@,
        "conditions"@ != "lastRunAt"@,
        "conditions"@ != "lastSessionId"@,
        "conditions"@ != "lastError"@,
        "conditions"@ != "claimedRunAt"@,
        "conditions"@ != "claimExpiresAt"@,
        "revision"@ != "nextRunAt"@,
        "revision"@ != "backendHandle"@,
        "revision"@ != "backendArmed"@,
        "revision"@ != "lastRunAt"@,
        "revision"@ != "lastSessionId"@,
        "revision"@ != "lastError"@,
        "revision"@ != "claimedRunAt"@,
        "revision"@ != "claimExpiresAt"@,
        "nextRunAt"@ != "backendHandle"@,
        "nextRunAt"@ != "backendArmed"@,
        "nextRunAt"@ != "lastRunAt"@,
        "nextRunAt"@ != "lastSessionId"@,
        "nextRunAt"@ != "lastError"@,
        "nextRunAt"@ != "claimedRunAt"@,
        "nextRunAt"@ != "claimExpiresAt"@,
        "backendHandle"@ != "backendArmed"@,
        "backendHandle"@ != "lastRunAt"@,
        "backendHandle"@ != "lastSessionId"@,
        "backendHandle"@ != "lastError"@,
        "backendHandle"@ != "claimedRunAt"@,
        "backendHandle"@ != "claimExpiresAt"@,
        "backendArmed"@ != "lastRunAt"@,
        "backendArmed"@ != "lastSessionId"@,
        "backendArmed"@ != "lastError"@,
        "backendArmed"@ != "claimedRunAt"@,
        "backendArmed"@ != "claimExpiresAt"@,
        "lastRunAt"@ != "lastSessionId"@,
        "lastRunAt"@ != "lastError"@,
        "lastRunAt"@ != "claimedRunAt"@,
        "lastRunAt"@ != "claimExpiresAt"@,
        "lastSessionId"@ != "lastError"@,
        "lastSessionId"@ != "claimedRunAt"@,
        "lastSessionId"@ != "claimExpiresAt"@,
        "lastError"@ != "claimedRunAt"@,
        "lastError"@ != "claimExpiresAt"@,
        "claimedRunAt"@ != "claimExpiresAt"@,
{
    reveal_strlit("observedGeneration");
    reveal_strlit("phase");
    reveal_strlit("conditions");
    reveal_strlit("revision");
    reveal_strlit("nextRunAt");
    reveal_strlit("backendHandle");
    reveal_strlit("backendArmed");
    reveal_strlit("lastRunAt");
    reveal_strlit("lastSessionId");
    reveal_strlit("lastError");
    reveal_strlit("claimedRunAt");
    reveal_strlit("claimExpiresAt");
    assert("observedGeneration"@.len() == 18);
    assert("phase"@.len() == 5);
    assert("conditions"@.len() == 10);
    assert("revision"@.len() == 8);
    assert("nextRunAt"@.len() == 9);
    assert("backendHandle"@.len() == 13);
    assert("backendArmed"@.len() == 12);
    assert("lastRunAt"@.len() == 9);
    assert("lastSessionId"@.len() == 13);
    assert("lastError"@.len() == 9);
    assert("claimedRunAt"@.len() == 12);
    assert("claimExpiresAt"@.len() == 14);
    assert("nextRunAt"@[0] != "lastRunAt"@[0]);
    assert("nextRunAt"@[0] != "lastError"@[0]);
    assert("backendHandle"@[0] != "lastSessionId"@[0]);
    assert("backendArmed"@[0] != "claimedRunAt"@[0]);
    assert("lastRunAt"@[4] != "lastError"@[4]);
}

proof fn lemma_worker_keys()
    ensures
        "observedGeneration"@ != "phase"@,
        "observedGeneration"@ != "conditions"@,
        "observedGeneration"@ != "startedAt"@,
        "observedGeneration"@ != "heartbeatAt"@,
        "observedGeneration"@ != "expiresAt"@,
        "observedGeneration"@ != "version"@,
        "phase"@ != "conditions"@,
        "phase"@ != "startedAt"@,
        "phase"@ != "heartbeatAt"@,
        "phase"@ != "expiresAt"@,
        "phase"@ != "version"@,
        "conditions"@ != "startedAt"@,
        "conditions"@ != "heartbeatAt"@,
        "conditions"@ != "expiresAt"@,
        "conditions"@ != "version"@,
        "startedAt"@ != "heartbeatAt"@,
        "startedAt"@ != "expiresAt"@,
        "startedAt"@ != "version"@,
        "heartbeatAt"@ != "expiresAt"@,
        "heartbeatAt"@ != "version"@,
        "expiresAt"@ != "version"@,
{
    reveal_strlit("observedGeneration");
    reveal_strlit("phase");
    reveal_strlit("conditions");
    reveal_strlit("startedAt");
    reveal_strlit("heartbeatAt");
    reveal_strlit("expiresAt");
    reveal_strlit("version");
    assert("observedGeneration"@.len() == 18);
    assert("phase"@.len() == 5);
    assert("conditions"@.len() == 10);
    assert("startedAt"@.len() == 9);
    assert("heartbeatAt"@.len() == 11);
    assert("expiresAt"@.len() == 9);
    assert("version"@.len() == 7);
    assert("startedAt"@[0] != "expiresAt"@[0]);
}

proof fn lemma_sandbox_keys()
    ensures
        "observedGeneration"@ != "phase"@,
        "observedGeneration"@ != "conditions"@,
        "observedGeneration"@ != "backendId"@,
        "observedGeneration"@ != "lease"@,
        "observedGeneration"@ != "processes"@,
        "phase"@ != "conditions"@,
        "phase"@ != "backendId"@,
        "phase"@ != "lease"@,
        "phase"@ != "processes"@,
        "conditions"@ != "backendId"@,
        "conditions"@ != "lease"@,
        "conditions"@ != "processes"@,
        "backendId"@ != "lease"@,
        "backendId"@ != "processes"@,
        "lease"@ != "processes"@,
{
    reveal_strlit("observedGeneration");
    reveal_strlit("phase");
    reveal_strlit("conditions");
    reveal_strlit("backendId");
    reveal_strlit("lease");
    reveal_strlit("processes");
    assert("observedGeneration"@.len() == 18);
    assert("phase"@.len() == 5);
    assert("conditions"@.len() == 10);
    assert("backendId"@.len() == 9);
    assert("lease"@.len() == 5);
    assert("processes"@.len() == 9);
    assert("phase"@[0] != "lease"@[0]);
    assert("backendId"@[0] != "processes"@[0]);
}

proof fn lemma_lease_keys()
    ensures
        "ownerKind"@ != "ownerAgent"@,
        "ownerKind"@ != "ownerSessionId"@,
        "ownerKind"@ != "token"@,
        "ownerKind"@ != "acquiredAt"@,
        "ownerKind"@ != "expiresAt"@,
        "ownerKind"@ != "heartbeatAt"@,
        "ownerAgent"@ != "ownerSessionId"@,
        "ownerAgent"@ != "token"@,
        "ownerAgent"@ != "acquiredAt"@,
        "ownerAgent"@ != "expiresAt"@,
        "ownerAgent"@ != "heartbeatAt"@,
        "ownerSessionId"@ != "token"@,
        "ownerSessionId"@ != "acquiredAt"@,
        "ownerSessionId"@ != "expiresAt"@,
        "ownerSessionId"@ != "heartbeatAt"@,
        "token"@ != "acquiredAt"@,
        "token"@ != "expiresAt"@,
        "token"@ != "heartbeatAt"@,
        "acquiredAt"@ != "expiresAt"@,
        "acquiredAt"@ != "heartbeatAt"@,
        "expiresAt"@ != "heartbeatAt"@,
{
    reveal_strlit("ownerKind");
    reveal_strlit("ownerAgent");
    reveal_strlit("ownerSessionId");
    reveal_strlit("token");
    reveal_strlit("acquiredAt");
    reveal_strlit("expiresAt");
    reveal_strlit("heartbeatAt");
    assert("ownerKind"@.len() == 9);
    assert("ownerAgent"@.len() == 10);
    assert("ownerSessionId"@.len() == 14);
    assert("token"@.len() == 5);
    assert("acquiredAt"@.len() == 10);
    assert("expiresAt"@.len() == 9);
    assert("heartbeatAt"@.len() == 11);
    assert("ownerKind"@[0] != "expiresAt"@[0]);
    assert("ownerAgent"@[0] != "acquiredAt"@[0]);
}

proof fn lemma_process_keys()
    ensures
        "id"@ != "command"@,
        "id"@ != "args"@,
        "id"@ != "protocol"@,
        "id"@ != "phase"@,
        "command"@ != "args"@,
        "command"@ != "protocol"@,
        "command"@ != "phase"@,
        "args"@ != "protocol"@,
        "args"@ != "phase"@,
        "protocol"@ != "phase"@,
{
    reveal_strlit("id");
    reveal_strlit("command");
    reveal_strlit("args");
    reveal_strlit("protocol");
    reveal_strlit("phase");
    assert("id"@.len() == 2);
    assert("command"@.len() == 7);
    assert("args"@.len() == 4);
    assert("protocol"@.len() == 8);
    assert("phase"@.len() == 5);
}

proof fn lemma_ref_keys()
    ensures
        "namespace"@ != "name"@,
{
    reveal_strlit("namespace");
    reveal_strlit("name");
    assert("namespace"@.len() == 9);
    assert("name"@.len() == 4);
}

proof fn lemma_counts_keys()
    ensures
        "desired"@ != "updated"@,
        "desired"@ != "ready"@,
        "desired"@ != "pending"@,
        "desired"@ != "degraded"@,
        "updated"@ != "ready"@,
        "updated"@ != "pending"@,
        "updated"@ != "degraded"@,
        "ready"@ != "pending"@,
        "ready"@ != "degraded"@,
        "pending"@ != "degraded"@,
{
    reveal_strlit("desired");
    reveal_strlit("updated");
    reveal_strlit("ready");
    reveal_strlit("pending");
    reveal_strlit("degraded");
    assert("desired"@.len() == 7);
    assert("updated"@.len() == 7);
    assert("ready"@.len() == 5);
    assert("pending"@.len() == 7);
    assert("degraded"@.len() == 8);
    assert("desired"@[0] != "updated"@[0]);
    assert("desired"@[0] != "pending"@[0]);
    assert("updated"@[0] != "pending"@[0]);
}

proof fn lemma_deployment_keys()
    ensures
        "observedGeneration"@ != "phase"@,
        "observedGeneration"@ != "conditions"@,
        "observedGeneration"@ != "replicas"@,
        "observedGeneration"@ != "replicaCounts"@,
        "phase"@ != "conditions"@,
        "phase"@ != "replicas"@,
        "phase"@ != "replicaCounts"@,
        "conditions"@ != "replicas"@,
        "conditions"@ != "replicaCounts"@,
        "replicas"@ != "replicaCounts"@,
{
    reveal_strlit("observedGeneration");
    reveal_strlit("phase");
    reveal_strlit("conditions");
    reveal_strlit("replicas");
    reveal_strlit("replicaCounts");
    assert("observedGeneration"@.len() == 18);
    assert("phase"@.len() == 5);
    assert("conditions"@.len() == 10);
    assert("replicas"@.len() == 8);
    assert("replicaCounts"@.len() == 13);
}

proof fn lemma_permission_request_keys()
    ensures
        "observedGeneration"@ != "phase"@,
        "observedGeneration"@ != "conditions"@,
        "observedGeneration"@ != "decision"@,
        "observedGeneration"@ != "decidedBy"@,
        "observedGeneration"@ != "decidedAt"@,
        "phase"@ != "conditions"@,
        "phase"@ != "decision"@,
        "phase"@ != "decidedBy"@,
        "phase"@ != "decidedAt"@,
        "conditions"@ != "decision"@,
        "conditions"@ != "decidedBy"@,
        "conditions"@ != "decidedAt"@,
        "decision"@ != "decidedBy"@,
        "decision"@ != "decidedAt"@,
        "decidedBy"@ != "decidedAt"@,
{
    reveal_strlit("observedGeneration");
    reveal_strlit("phase");
    reveal_strlit("conditions");
    reveal_strlit("decision");
    reveal_strlit("decidedBy");
    reveal_strlit("decidedAt");
    assert("observedGeneration"@.len() == 18);
    assert("phase"@.len() == 5);
    assert("conditions"@.len() == 10);
    assert("decision"@.len() == 8);
    assert("decidedBy"@.len() == 9);
    assert("decidedAt"@.len() == 9);
    assert("decidedBy"@[7] != "decidedAt"@[7]);
}

} // verus!
