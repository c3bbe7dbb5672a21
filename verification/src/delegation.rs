//! Tasks delegated from one agent to another: their labels, the message the
//! delegate receives, and how a Task's status moves as the delegate works.

use vstd::prelude::*;
use crate::fields::{fields_distinct, meta_lookup, meta_map, meta_pairs, metadata_get, metadata_insert};
use crate::text::{
    chars_of, join_on, owned, push_str, str_eq, string_of, string_of_range, trim_ws_chars,
    trim_ws_text,
};

verus! {

/// Marks a Task as created through agent delegation.
pub const LABEL_DELEGATION: &'static str = "talon.impalasys.com/delegation";

/// Namespace of the agent that owns the delegated Task.
pub const LABEL_OWNER_NAMESPACE: &'static str = "talon.impalasys.com/owner-namespace";

/// Name of the agent that owns the delegated Task.
pub const LABEL_OWNER_NAME: &'static str = "talon.impalasys.com/owner-name";

/// Owner session that receives review and failure wakeups.
pub const LABEL_OWNER_SESSION_ID: &'static str = "talon.impalasys.com/owner-session-id";

/// Namespace of the agent assigned to execute the Task.
pub const LABEL_DELEGATE_NAMESPACE: &'static str = "talon.impalasys.com/delegate-namespace";

/// Name of the agent assigned to execute the Task.
pub const LABEL_DELEGATE_NAME: &'static str = "talon.impalasys.com/delegate-name";

/// Declared A2A connection used to resolve the delegate.
pub const LABEL_A2A_CONNECTION: &'static str = "talon.impalasys.com/a2a-connection";

/// Namespace of the Task a delegate session works on.
pub const LABEL_TASK_NAMESPACE: &'static str = "talon.impalasys.com/task-namespace";

/// Name of the Task a delegate session works on.
pub const LABEL_TASK_NAME: &'static str = "talon.impalasys.com/task-name";

/// Role of a session or message in the delegation flow.
pub const LABEL_TASK_ROLE: &'static str = "talon.impalasys.com/task-role";

/// Task condition tracking whether delegated execution runs, completed or
/// failed.
pub const CONDITION_DELEGATED_EXECUTION: &'static str = "DelegatedExecution";

/// A Task to create and hand to a delegate agent.
#[derive(Clone, Debug)]
pub struct TaskDelegationRequest {
    pub namespace: String,
    pub name: String,
    pub title: String,
    pub description: String,
    pub task_type: String,
    pub owner_namespace: String,
    pub owner_name: String,
    pub owner_session_id: String,
    pub connection_name: String,
    pub delegate_namespace: String,
    pub delegate_name: String,
}

/// How a delegate session ended.
#[derive(Clone, Copy, Debug, PartialEq, Eq, Structural)]
pub enum DelegatedSessionCompletion {
    Completed,
    Failed,
}

/// The labels of a delegated Task.
pub open spec fn task_resource_label_map(req: TaskDelegationRequest) -> Map<Seq<char>, Seq<char>> {
    map![
        LABEL_DELEGATION@ => "true"@,
        LABEL_OWNER_NAMESPACE@ => req.owner_namespace@,
        LABEL_OWNER_NAME@ => req.owner_name@,
        LABEL_OWNER_SESSION_ID@ => req.owner_session_id@,
        LABEL_DELEGATE_NAMESPACE@ => req.delegate_namespace@,
        LABEL_DELEGATE_NAME@ => req.delegate_name@,
        LABEL_A2A_CONNECTION@ => req.connection_name@,
    ]
}

/// The labels of a delegate session and its messages: the Task's labels and
/// those naming the Task and the delegate role.
pub open spec fn task_execution_label_map(req: TaskDelegationRequest) -> Map<Seq<char>, Seq<char>> {
    task_resource_label_map(req).insert(LABEL_TASK_NAMESPACE@, req.namespace@).insert(
        LABEL_TASK_NAME@,
        req.name@,
    ).insert(LABEL_TASK_ROLE@, "delegate"@).insert(LABEL_OWNER_SESSION_ID@, req.owner_session_id@)
}

/// The labels of a delegated Task.
pub fn task_resource_labels(req: &TaskDelegationRequest) -> (r: Vec<(String, String)>)
    ensures
        meta_map(r@) == task_resource_label_map(*req),
        fields_distinct(r@),
{
    let mut r: Vec<(String, String)> = Vec::new();
    metadata_insert(&mut r, LABEL_DELEGATION, "true");
    metadata_insert(&mut r, LABEL_OWNER_NAMESPACE, req.owner_namespace.as_str());
    metadata_insert(&mut r, LABEL_OWNER_NAME, req.owner_name.as_str());
    metadata_insert(&mut r, LABEL_OWNER_SESSION_ID, req.owner_session_id.as_str());
    metadata_insert(&mut r, LABEL_DELEGATE_NAMESPACE, req.delegate_namespace.as_str());
    metadata_insert(&mut r, LABEL_DELEGATE_NAME, req.delegate_name.as_str());
    metadata_insert(&mut r, LABEL_A2A_CONNECTION, req.connection_name.as_str());
    proof {
        assert(meta_map(Seq::<(String, String)>::empty()) =~= Map::<Seq<char>, Seq<char>>::empty());
        assert(meta_map(r@) =~= task_resource_label_map(*req));
    }
    r
}

/// The labels of a delegate session and its messages.
pub fn task_execution_labels(req: &TaskDelegationRequest) -> (r: Vec<(String, String)>)
    ensures
        meta_map(r@) == task_execution_label_map(*req),
        fields_distinct(r@),
{
    let mut r = task_resource_labels(req);
    metadata_insert(&mut r, LABEL_TASK_NAMESPACE, req.namespace.as_str());
    metadata_insert(&mut r, LABEL_TASK_NAME, req.name.as_str());
    metadata_insert(&mut r, LABEL_TASK_ROLE, "delegate");
    metadata_insert(&mut r, LABEL_OWNER_SESSION_ID, req.owner_session_id.as_str());
    r
}

/// The instructions of the delegated-task message after its header.
pub open spec fn delegation_instructions() -> Seq<char> {
    "\n\nThis Task is your durable work context. Do not rely on a final assistant response to deliver results. When the work is ready for owner review, call update_task with the Task name above, set phase to NEEDS_REVIEW, include a concise progress_summary, and attach any output artifact URI with output_artifact_uri or output_artifact_uris. Task output artifact URIs automatically grant access to the owner session. Then finish the assignment by calling agent_send with target \"owner\" and a short review-ready notification. Use the Task name above for update_task.name; the full Task ID is only for display.\n\nInstructions:\n"@
}

/// The message that assigns a delegated Task to the delegate.
pub open spec fn delegated_task_message_text(req: TaskDelegationRequest) -> Seq<char> {
    "You have been assigned a Talon Task.\n\nTask: "@ + req.title@ + "\nTask name: "@ + req.name@
        + "\nTask ID: "@ + req.namespace@ + "/"@ + req.name@ + "\nOwner: "@ + req.owner_namespace@
        + "/"@ + req.owner_name@ + delegation_instructions() + req.description@
}

/// The message that assigns a delegated Task to the delegate.
pub fn delegated_task_message(req: &TaskDelegationRequest) -> (r: String)
    ensures
        r@ == delegated_task_message_text(*req),
{
    let mut r = String::new();
    push_str(&mut r, "You have been assigned a Talon Task.\n\nTask: ");
    push_str(&mut r, req.title.as_str());
    push_str(&mut r, "\nTask name: ");
    push_str(&mut r, req.name.as_str());
    push_str(&mut r, "\nTask ID: ");
    push_str(&mut r, req.namespace.as_str());
    push_str(&mut r, "/");
    push_str(&mut r, req.name.as_str());
    push_str(&mut r, "\nOwner: ");
    push_str(&mut r, req.owner_namespace.as_str());
    push_str(&mut r, "/");
    push_str(&mut r, req.owner_name.as_str());
    push_str(
        &mut r,
        "\n\nThis Task is your durable work context. Do not rely on a final assistant response to deliver results. When the work is ready for owner review, call update_task with the Task name above, set phase to NEEDS_REVIEW, include a concise progress_summary, and attach any output artifact URI with output_artifact_uri or output_artifact_uris. Task output artifact URIs automatically grant access to the owner session. Then finish the assignment by calling agent_send with target \"owner\" and a short review-ready notification. Use the Task name above for update_task.name; the full Task ID is only for display.\n\nInstructions:\n",
    );
    push_str(&mut r, req.description.as_str());
    r
}

/// The first `max_chars` characters of `text`, with `...` when some were
/// left out.
pub open spec fn text_preview_text(text: Seq<char>, max_chars: nat) -> Seq<char> {
    if text.len() > max_chars {
        text.take(max_chars as int) + "..."@
    } else {
        text
    }
}

/// The first `max_chars` characters of `text`, with `...` when some were
/// left out.
pub fn text_preview(text: &str, max_chars: usize) -> (r: String)
    ensures
        r@ == text_preview_text(text@, max_chars as nat),
{
    let v = chars_of(text);
    if v.len() > max_chars {
        let mut r = string_of_range(&v, 0, max_chars);
        push_str(&mut r, "...");
        r
    } else {
        let r = string_of_range(&v, 0, v.len());
        assert(r@ =~= text@);
        r
    }
}

/// The phase of a Task.
#[derive(Clone, Copy, Debug, PartialEq, Eq, Structural)]
pub enum TaskPhase {
    Unspecified,
    Queued,
    Running,
    Blocked,
    NeedsReview,
    Succeeded,
    Failed,
    Canceled,
    Expired,
}

/// Whether a Task in `phase` is finished for good.
pub open spec fn is_terminal(phase: TaskPhase) -> bool {
    phase == TaskPhase::Succeeded || phase == TaskPhase::Failed || phase == TaskPhase::Canceled
        || phase == TaskPhase::Expired
}

/// Whether a Task in `phase` is finished for good.
pub fn task_phase_is_terminal(phase: TaskPhase) -> (r: bool)
    ensures
        r == is_terminal(phase),
{
    match phase {
        TaskPhase::Succeeded | TaskPhase::Failed | TaskPhase::Canceled | TaskPhase::Expired => true,
        _ => false,
    }
}

/// What executes a Task.
#[derive(Clone, Debug)]
pub struct TaskExecutionRef {
    pub kind: String,
    pub namespace: String,
    pub name: String,
    pub session_id: String,
    pub run_id: String,
}

/// A condition of a resource's status.
#[derive(Clone, Debug)]
pub struct ResourceCondition {
    pub condition_type: String,
    pub status: String,
    pub reason: String,
    pub message: String,
    pub last_transition_time: i64,
    pub observed_generation: u64,
}

/// The status of a Task, as far as delegation reads and writes it.
#[derive(Clone, Debug)]
pub struct TaskStatus {
    pub phase: TaskPhase,
    pub progress_summary: String,
    pub created_at: i64,
    pub updated_at: i64,
    pub completed_at: i64,
    pub conditions: Vec<ResourceCondition>,
    pub execution_ref: Option<TaskExecutionRef>,
}

/// The position of the first condition of type `t`, or the number of
/// conditions when there is none.
pub open spec fn condition_index(conds: Seq<ResourceCondition>, t: Seq<char>) -> nat
    decreases conds.len(),
{
    if conds.len() == 0 {
        0
    } else if conds[0].condition_type@ == t {
        0
    } else {
        1 + condition_index(conds.drop_first(), t)
    }
}

proof fn lemma_condition_index(conds: Seq<ResourceCondition>, t: Seq<char>)
    ensures
        condition_index(conds, t) <= conds.len(),
        condition_index(conds, t) < conds.len() ==> conds[condition_index(conds, t) as int].condition_type@
            == t,
        forall|j: int| 0 <= j < condition_index(conds, t) ==> #[trigger] conds[j].condition_type@ != t,
    decreases conds.len(),
{
    if conds.len() > 0 && conds[0].condition_type@ != t {
        lemma_condition_index(conds.drop_first(), t);
        assert forall|j: int| 0 <= j < condition_index(conds, t) implies #[trigger] conds[j].condition_type@
            != t by {
            if j > 0 {
                assert(conds[j] == conds.drop_first()[j - 1]);
            }
        }
    }
}

/// `conds` with `c` in place of the first condition of its type, or added
/// at the end when there is none.
pub open spec fn with_condition(conds: Seq<ResourceCondition>, c: ResourceCondition) -> Seq<
    ResourceCondition,
> {
    let i = condition_index(conds, c.condition_type@);
    if i < conds.len() {
        conds.update(i as int, c)
    } else {
        conds.push(c)
    }
}

/// No two conditions share a type.
pub open spec fn condition_types_unique(conds: Seq<ResourceCondition>) -> bool {
    forall|i: int, j: int|
        0 <= i < j < conds.len() ==> #[trigger] conds[i].condition_type@ != #[trigger] conds[j].condition_type@
}

/// Sets `condition`: it replaces the first condition of its type, or is
/// added when there is none.
pub fn set_condition(conditions: &mut Vec<ResourceCondition>, condition: ResourceCondition)
    ensures
        final(conditions)@ == with_condition(old(conditions)@, condition),
{
    let ghost t = condition.condition_type@;
    let mut i: usize = 0;
    proof {
        lemma_condition_index(conditions@, t);
    }
    while i < conditions.len()
        invariant
            i <= conditions.len(),
            conditions@ == old(conditions)@,
            t == condition.condition_type@,
            i <= condition_index(conditions@, t),
            condition_index(conditions@, t) <= conditions.len(),
            condition_index(conditions@, t) < conditions.len() ==> conditions@[condition_index(
                conditions@,
                t,
            ) as int].condition_type@ == t,
            forall|j: int| 0 <= j < condition_index(conditions@, t) ==> #[trigger] conditions@[j].condition_type@ != t,
        decreases conditions.len() - i,
    {
        if str_eq(conditions[i].condition_type.as_str(), condition.condition_type.as_str()) {
            conditions.set(i, condition);
            return;
        }
        i += 1;
    }
    conditions.push(condition);
}

/// Setting a condition keeps condition types unique.
pub proof fn lemma_with_condition_unique(conds: Seq<ResourceCondition>, c: ResourceCondition)
    requires
        condition_types_unique(conds),
    ensures
        condition_types_unique(with_condition(conds, c)),
        with_condition(conds, c).contains(c),
{
    lemma_condition_index(conds, c.condition_type@);
    let i = condition_index(conds, c.condition_type@);
    let r = with_condition(conds, c);
    if i < conds.len() {
        assert(r[i as int] == c);
    } else {
        assert(r[conds.len() as int] == c);
        assert forall|a: int, b: int| 0 <= a < b < r.len() implies #[trigger] r[a].condition_type@
            != #[trigger] r[b].condition_type@ by {
            if b == conds.len() {
                assert(conds[a].condition_type@ != c.condition_type@);
            }
        }
    }
}

/// The session a Task's execution runs in, or the empty text.
pub open spec fn current_session_id(status: TaskStatus) -> Seq<char> {
    match status.execution_ref {
        Some(e) => e.session_id@,
        None => Seq::<char>::empty(),
    }
}

/// What a delegate session's completion does to a Task.
#[derive(Clone, Copy, Debug, PartialEq, Eq, Structural)]
pub enum CompletionOutcome {
    /// The Task runs in another session; the completion is ignored.
    Stale,
    /// The Task awaits review of a completed run, or is finished for good;
    /// the completion is ignored.
    Settled,
    /// The completion is recorded.
    Applied,
}

/// What the completion `completion` of session `session_id` does to a Task
/// with `status`.
pub open spec fn completion_outcome(
    status: TaskStatus,
    session_id: Seq<char>,
    completion: DelegatedSessionCompletion,
) -> CompletionOutcome {
    if current_session_id(status) != session_id {
        CompletionOutcome::Stale
    } else if (status.phase == TaskPhase::NeedsReview && completion
        == DelegatedSessionCompletion::Completed) || is_terminal(status.phase) {
        CompletionOutcome::Settled
    } else {
        CompletionOutcome::Applied
    }
}

/// What a Task with `status` and this completion is ignored for, or that it
/// is recorded.
pub fn check_session_completion(
    status: &TaskStatus,
    session_id: &str,
    completion: DelegatedSessionCompletion,
) -> (r: CompletionOutcome)
    ensures
        r == completion_outcome(*status, session_id@, completion),
{
    let current = match &status.execution_ref {
        Some(e) => e.session_id.as_str(),
        None => "",
    };
    proof {
        reveal_strlit("");
        assert(""@ =~= Seq::<char>::empty());
    }
    if !str_eq(current, session_id) {
        return CompletionOutcome::Stale;
    }
    if (status.phase == TaskPhase::NeedsReview && completion == DelegatedSessionCompletion::Completed)
        || task_phase_is_terminal(status.phase) {
        return CompletionOutcome::Settled;
    }
    CompletionOutcome::Applied
}

/// The condition a completion records.
pub open spec fn completion_condition_is(
    c: ResourceCondition,
    completion: DelegatedSessionCompletion,
    now: i64,
    generation: u64,
) -> bool {
    &&& c.condition_type@ == CONDITION_DELEGATED_EXECUTION@
    &&& c.status@ == (if completion == DelegatedSessionCompletion::Completed {
        "True"@
    } else {
        "False"@
    })
    &&& c.reason@ == (if completion == DelegatedSessionCompletion::Completed {
        "SessionCompleted"@
    } else {
        "SessionFailed"@
    })
    &&& c.message@ == (if completion == DelegatedSessionCompletion::Completed {
        "Delegated session completed."@
    } else {
        "Delegated session failed."@
    })
    &&& c.last_transition_time == now
    &&& c.observed_generation == generation
}

/// Records the completion of session `session_id` in a Task's status when
/// it applies: a completed run awaits review, a failed one fails the Task;
/// either way with the progress summary and the execution condition.  A
/// stale or settled completion leaves the status as it is.
pub fn apply_session_completion(
    status: &mut TaskStatus,
    session_id: &str,
    completion: DelegatedSessionCompletion,
    progress_summary: &str,
    now: i64,
    generation: u64,
) -> (r: CompletionOutcome)
    ensures
        r == completion_outcome(*old(status), session_id@, completion),
        r != CompletionOutcome::Applied ==> *final(status) == *old(status),
        r == CompletionOutcome::Applied ==> {
            &&& final(status).phase == (if completion == DelegatedSessionCompletion::Completed {
                TaskPhase::NeedsReview
            } else {
                TaskPhase::Failed
            })
            &&& final(status).progress_summary@ == progress_summary@
            &&& final(status).updated_at == now
            &&& final(status).completed_at == (if completion == DelegatedSessionCompletion::Completed {
                old(status).completed_at
            } else {
                now
            })
            &&& final(status).created_at == old(status).created_at
            &&& final(status).execution_ref == old(status).execution_ref
            &&& exists|c: ResourceCondition|
                completion_condition_is(c, completion, now, generation)
                    && #[trigger] final(status).conditions@ == with_condition(old(status).conditions@, c)
        },
{
    let outcome = check_session_completion(status, session_id, completion);
    if outcome != CompletionOutcome::Applied {
        return outcome;
    }
    status.updated_at = now;
    let condition = match completion {
        DelegatedSessionCompletion::Completed => {
            status.phase = TaskPhase::NeedsReview;
            ResourceCondition {
                condition_type: owned(CONDITION_DELEGATED_EXECUTION),
                status: owned("True"),
                reason: owned("SessionCompleted"),
                message: owned("Delegated session completed."),
                last_transition_time: now,
                observed_generation: generation,
            }
        },
        DelegatedSessionCompletion::Failed => {
            status.phase = TaskPhase::Failed;
            status.completed_at = now;
            ResourceCondition {
                condition_type: owned(CONDITION_DELEGATED_EXECUTION),
                status: owned("False"),
                reason: owned("SessionFailed"),
                message: owned("Delegated session failed."),
                last_transition_time: now,
                observed_generation: generation,
            }
        },
    };
    status.progress_summary = owned(progress_summary);
    let ghost c = condition;
    set_condition(&mut status.conditions, condition);
    assert(completion_condition_is(c, completion, now, generation));
    outcome
}

/// The progress summary a completion records: for a completed run, a
/// preview of the delegate's latest assistant text or a note that there was
/// none; for a failed one, a note of the failure.
pub open spec fn completion_summary_text(
    completion: DelegatedSessionCompletion,
    latest_text: Option<Seq<char>>,
) -> Seq<char> {
    match completion {
        DelegatedSessionCompletion::Completed => match latest_text {
            Some(t) => text_preview_text(t, 1200),
            None => "Delegated execution completed; no assistant text was produced."@,
        },
        DelegatedSessionCompletion::Failed => "Delegated session failed before completing the Task."@,
    }
}

/// The progress summary a completion records.
pub fn completion_progress_summary(completion: DelegatedSessionCompletion, latest_text: Option<&str>) -> (r:
    String)
    ensures
        r@ == completion_summary_text(
            completion,
            match latest_text {
                Some(t) => Some(t@),
                None => None,
            },
        ),
{
    match completion {
        DelegatedSessionCompletion::Completed => match latest_text {
            Some(text) => text_preview(text, 1200),
            None => owned("Delegated execution completed; no assistant text was produced."),
        },
        DelegatedSessionCompletion::Failed => owned("Delegated session failed before completing the Task."),
    }
}

/// The status of a newly delegated Task: queued, to be executed in a
/// session of the delegate that is not started yet.
pub fn initial_task_status(req: &TaskDelegationRequest, now: i64) -> (r: TaskStatus)
    ensures
        r.phase == TaskPhase::Queued,
        r.progress_summary@ == "Task created; waiting for delegated execution."@,
        r.created_at == now,
        r.updated_at == now,
        r.completed_at == 0,
        r.conditions@.len() == 0,
        r.execution_ref matches Some(e) && e.kind@ == "AGENT_SESSION"@ && e.namespace@
            == req.delegate_namespace@ && e.name@ == req.delegate_name@ && e.session_id@.len() == 0
            && e.run_id@.len() == 0,
{
    TaskStatus {
        phase: TaskPhase::Queued,
        progress_summary: owned("Task created; waiting for delegated execution."),
        created_at: now,
        updated_at: now,
        completed_at: 0,
        conditions: Vec::new(),
        execution_ref: Some(
            TaskExecutionRef {
                kind: owned("AGENT_SESSION"),
                namespace: req.delegate_namespace.clone(),
                name: req.delegate_name.clone(),
                session_id: String::new(),
                run_id: String::new(),
            },
        ),
    }
}

/// Records that the delegate started executing the Task in `session_id`
/// (and `submission_id`, if any).
pub fn start_task_execution(
    status: &mut TaskStatus,
    req: &TaskDelegationRequest,
    session_id: &str,
    submission_id: Option<&str>,
    now: i64,
    generation: u64,
)
    ensures
        final(status).phase == TaskPhase::Running,
        final(status).progress_summary@ == "Delegated execution started."@,
        final(status).updated_at == now,
        final(status).created_at == old(status).created_at,
        final(status).completed_at == old(status).completed_at,
        final(status).execution_ref matches Some(e) && e.kind@ == "AGENT_SESSION"@ && e.namespace@
            == req.delegate_namespace@ && e.name@ == req.delegate_name@ && e.session_id@ == session_id@
            && e.run_id@ == match submission_id {
            Some(s) => s@,
            None => Seq::<char>::empty(),
        },
        exists|c: ResourceCondition|
            c.condition_type@ == CONDITION_DELEGATED_EXECUTION@ && c.status@ == "Unknown"@ && c.reason@
                == "SessionRunning"@ && c.message@ == "Delegated session is running."@
                && c.last_transition_time == now && c.observed_generation == generation
                && #[trigger] final(status).conditions@ == with_condition(old(status).conditions@, c),
{
    status.phase = TaskPhase::Running;
    status.progress_summary = owned("Delegated execution started.");
    status.updated_at = now;
    status.execution_ref = Some(
        TaskExecutionRef {
            kind: owned("AGENT_SESSION"),
            namespace: req.delegate_namespace.clone(),
            name: req.delegate_name.clone(),
            session_id: owned(session_id),
            run_id: match submission_id {
                Some(s) => owned(s),
                None => String::new(),
            },
        },
    );
    let condition = ResourceCondition {
        condition_type: owned(CONDITION_DELEGATED_EXECUTION),
        status: owned("Unknown"),
        reason: owned("SessionRunning"),
        message: owned("Delegated session is running."),
        last_transition_time: now,
        observed_generation: generation,
    };
    let ghost c = condition;
    set_condition(&mut status.conditions, condition);
    assert(final(status).conditions@ == with_condition(old(status).conditions@, c));
}

/// Records that dispatching the Task failed with `message`.
pub fn fail_task_dispatch(status: &mut TaskStatus, message: &str, now: i64, generation: u64)
    ensures
        final(status).phase == TaskPhase::Failed,
        final(status).progress_summary@ == message@,
        final(status).updated_at == now,
        final(status).completed_at == now,
        final(status).created_at == old(status).created_at,
        final(status).execution_ref == old(status).execution_ref,
        exists|c: ResourceCondition|
            c.condition_type@ == CONDITION_DELEGATED_EXECUTION@ && c.status@ == "False"@ && c.reason@
                == "DispatchFailed"@ && c.message@ == message@ && c.last_transition_time == now
                && c.observed_generation == generation && #[trigger] final(status).conditions@
                == with_condition(old(status).conditions@, c),
{
    status.phase = TaskPhase::Failed;
    status.progress_summary = owned(message);
    status.updated_at = now;
    status.completed_at = now;
    let condition = ResourceCondition {
        condition_type: owned(CONDITION_DELEGATED_EXECUTION),
        status: owned("False"),
        reason: owned("DispatchFailed"),
        message: owned(message),
        last_transition_time: now,
        observed_generation: generation,
    };
    let ghost c = condition;
    set_condition(&mut status.conditions, condition);
    assert(final(status).conditions@ == with_condition(old(status).conditions@, c));
}

/// A delegate session's labels keep every label of its Task, with the same
/// value, and add the Task's namespace, name and the delegate role.
pub proof fn lemma_execution_labels_extend_task_labels(req: TaskDelegationRequest)
    ensures
        forall|k: Seq<char>|
            #[trigger] task_resource_label_map(req).dom().contains(k) ==> task_execution_label_map(
                req,
            ).dom().contains(k) && task_execution_label_map(req)[k] == task_resource_label_map(req)[k],
        task_execution_label_map(req)[LABEL_TASK_ROLE@] == "delegate"@,
        task_execution_label_map(req)[LABEL_TASK_NAMESPACE@] == req.namespace@,
        task_execution_label_map(req)[LABEL_TASK_NAME@] == req.name@,
{
    reveal_strlit("talon.impalasys.com/delegation");
    reveal_strlit("talon.impalasys.com/owner-namespace");
    reveal_strlit("talon.impalasys.com/owner-name");
    reveal_strlit("talon.impalasys.com/owner-session-id");
    reveal_strlit("talon.impalasys.com/delegate-namespace");
    reveal_strlit("talon.impalasys.com/delegate-name");
    reveal_strlit("talon.impalasys.com/a2a-connection");
    reveal_strlit("talon.impalasys.com/task-namespace");
    reveal_strlit("talon.impalasys.com/task-name");
    reveal_strlit("talon.impalasys.com/task-role");
    let t = LABEL_TASK_NAMESPACE@;
    let n = LABEL_TASK_NAME@;
    let r = LABEL_TASK_ROLE@;
    assert(t.len() == 34 && n.len() == 29 && r.len() == 29);
    assert(n[20] == 't' && r[20] == 't' && n[25] == 'n' && r[25] == 'r');
    assert(LABEL_DELEGATION@.len() == 30);
    assert(LABEL_OWNER_NAMESPACE@.len() == 35);
    assert(LABEL_OWNER_NAME@.len() == 30);
    assert(LABEL_OWNER_SESSION_ID@.len() == 36);
    assert(LABEL_DELEGATE_NAMESPACE@.len() == 38);
    assert(LABEL_DELEGATE_NAME@.len() == 33);
    assert(LABEL_A2A_CONNECTION@.len() == 34);
    assert(LABEL_A2A_CONNECTION@[20] == 'a');
    assert(task_resource_label_map(req)[LABEL_OWNER_SESSION_ID@] == req.owner_session_id@);
    assert forall|k: Seq<char>| #[trigger] task_resource_label_map(req).dom().contains(k) implies task_execution_label_map(
        req,
    ).dom().contains(k) && task_execution_label_map(req)[k] == task_resource_label_map(req)[k] by {
        assert(k != t && k != n && k != r);
        if k == LABEL_OWNER_SESSION_ID@ {
        } else {
            assert(task_execution_label_map(req)[k] == task_resource_label_map(req)[k]);
        }
    }
}

/// Once a completion is recorded, the same completion again is ignored.
pub proof fn lemma_completion_settles(
    before: TaskStatus,
    after: TaskStatus,
    session_id: Seq<char>,
    completion: DelegatedSessionCompletion,
)
    requires
        completion_outcome(before, session_id, completion) == CompletionOutcome::Applied,
        after.phase == (if completion == DelegatedSessionCompletion::Completed {
            TaskPhase::NeedsReview
        } else {
            TaskPhase::Failed
        }),
        after.execution_ref == before.execution_ref,
    ensures
        completion_outcome(after, session_id, completion) == CompletionOutcome::Settled,
{
}

/// A Task that is finished for good is not changed by any completion of
/// its current session.
pub proof fn lemma_terminal_task_settled(
    status: TaskStatus,
    session_id: Seq<char>,
    completion: DelegatedSessionCompletion,
)
    requires
        is_terminal(status.phase),
        current_session_id(status) == session_id,
    ensures
        completion_outcome(status, session_id, completion) == CompletionOutcome::Settled,
{
}

/// The texts of the text parts among `parts` (`(is_text, content)` pairs).
pub open spec fn text_part_contents(parts: Seq<(bool, String)>) -> Seq<Seq<char>>
    decreases parts.len(),
{
    if parts.len() == 0 {
        seq![]
    } else if parts.last().0 {
        text_part_contents(parts.drop_last()).push(parts.last().1@)
    } else {
        text_part_contents(parts.drop_last())
    }
}

/// The text of a message: its text parts joined by line breaks, trimmed.
pub open spec fn message_text(parts: Seq<(bool, String)>) -> Seq<char> {
    trim_ws_text(join_on(text_part_contents(parts), '\n'))
}

/// The text an assistant message contributes to a completion summary, when
/// the message is the assistant's and its text is not empty.
pub open spec fn assistant_text_of(is_assistant: bool, parts: Seq<(bool, String)>) -> Option<Seq<char>> {
    if is_assistant && message_text(parts).len() > 0 {
        Some(message_text(parts))
    } else {
        None
    }
}

/// The text of an assistant message with `parts` (`(is_text, content)`
/// pairs), when it is the assistant's and not empty.
pub fn assistant_message_text(is_assistant: bool, parts: &Vec<(bool, String)>) -> (r: Option<String>)
    ensures
        match r {
            Some(t) => assistant_text_of(is_assistant, parts@) == Some(t@),
            None => assistant_text_of(is_assistant, parts@) is None,
        },
{
    if !is_assistant {
        return None;
    }
    let mut joined: Vec<char> = Vec::new();
    let mut count: usize = 0;
    let mut i: usize = 0;
    while i < parts.len()
        invariant
            i <= parts.len(),
            count <= i,
            count == text_part_contents(parts@.take(i as int)).len(),
            joined@ == join_on(text_part_contents(parts@.take(i as int)), '\n'),
        decreases parts.len() - i,
    {
        let ghost before = text_part_contents(parts@.take(i as int));
        proof {
            assert(parts@.take(i + 1).drop_last() =~= parts@.take(i as int));
        }
        if parts[i].0 {
            if count > 0 {
                joined.push('\n');
            }
            let mut piece = chars_of(parts[i].1.as_str());
            joined.append(&mut piece);
            proof {
                let after = text_part_contents(parts@.take(i + 1));
                assert(after == before.push(parts@[i as int].1@));
                if before.len() > 0 {
                    assert(after.drop_last() =~= before);
                } else {
                    assert(after.len() == 1);
                }
            }
            count = count + 1;
        }
        i += 1;
    }
    assert(parts@.take(parts.len() as int) =~= parts@);
    let trimmed = trim_ws_chars(&joined);
    if trimmed.len() == 0 {
        None
    } else {
        Some(string_of(&trimmed))
    }
}

/// The Task a session with `labels` works on as delegate: its namespace and
/// name, when the session's role is `delegate` and both are labelled.
pub open spec fn delegated_task_of(labels: Seq<(String, String)>) -> Option<(Seq<char>, Seq<char>)> {
    let pairs = meta_pairs(labels);
    if meta_lookup(pairs, LABEL_TASK_ROLE@) != Some("delegate"@) {
        None
    } else {
        match (meta_lookup(pairs, LABEL_TASK_NAMESPACE@), meta_lookup(pairs, LABEL_TASK_NAME@)) {
            (Some(ns), Some(name)) => Some((ns, name)),
            _ => None,
        }
    }
}

/// The Task a session with `labels` works on as delegate, if any.
pub fn delegated_task_of_session(labels: &Vec<(String, String)>) -> (r: Option<(String, String)>)
    ensures
        match r {
            Some((ns, name)) => delegated_task_of(labels@) == Some((ns@, name@)),
            None => delegated_task_of(labels@) is None,
        },
{
    let is_delegate = match metadata_get(labels, LABEL_TASK_ROLE) {
        Some(role) => str_eq(role.as_str(), "delegate"),
        None => false,
    };
    if !is_delegate {
        return None;
    }
    match (metadata_get(labels, LABEL_TASK_NAMESPACE), metadata_get(labels, LABEL_TASK_NAME)) {
        (Some(ns), Some(name)) => Some((ns.clone(), name.clone())),
        _ => None,
    }
}

} // verus!
