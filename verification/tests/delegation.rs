use talon_control::delegation::{
    apply_session_completion, assistant_message_text, check_session_completion,
    completion_progress_summary, delegated_task_message, delegated_task_of_session,
    fail_task_dispatch, initial_task_status, set_condition, start_task_execution,
    task_execution_labels, task_phase_is_terminal, task_resource_labels, text_preview,
    CompletionOutcome, DelegatedSessionCompletion, ResourceCondition, TaskDelegationRequest,
    TaskPhase, LABEL_DELEGATION, LABEL_OWNER_SESSION_ID, LABEL_TASK_NAME, LABEL_TASK_NAMESPACE,
    LABEL_TASK_ROLE,
};
use talon_control::fields::metadata_get;

fn request() -> TaskDelegationRequest {
    TaskDelegationRequest {
        namespace: "acme".to_string(),
        name: "task-1".to_string(),
        title: "Write the report".to_string(),
        description: "Summarize Q3.".to_string(),
        task_type: "report".to_string(),
        owner_namespace: "acme".to_string(),
        owner_name: "lead".to_string(),
        owner_session_id: "owner-session".to_string(),
        connection_name: "a2a".to_string(),
        delegate_namespace: "acme:team".to_string(),
        delegate_name: "writer".to_string(),
    }
}

fn label<'a>(labels: &'a Vec<(String, String)>, name: &str) -> Option<&'a str> {
    metadata_get(labels, name).map(|v| v.as_str())
}

fn condition(kind: &str, status: &str) -> ResourceCondition {
    ResourceCondition {
        condition_type: kind.to_string(),
        status: status.to_string(),
        reason: String::new(),
        message: String::new(),
        last_transition_time: 0,
        observed_generation: 0,
    }
}

#[test]
fn task_labels_name_owner_and_delegate() {
    let labels = task_resource_labels(&request());
    assert_eq!(labels.len(), 7);
    assert_eq!(label(&labels, LABEL_DELEGATION), Some("true"));
    assert_eq!(label(&labels, LABEL_OWNER_SESSION_ID), Some("owner-session"));
    assert_eq!(label(&labels, "talon.impalasys.com/delegate-name"), Some("writer"));
    assert_eq!(label(&labels, "talon.impalasys.com/a2a-connection"), Some("a2a"));
}

#[test]
fn execution_labels_extend_task_labels() {
    let labels = task_execution_labels(&request());
    assert_eq!(labels.len(), 10);
    assert_eq!(label(&labels, LABEL_TASK_NAMESPACE), Some("acme"));
    assert_eq!(label(&labels, LABEL_TASK_NAME), Some("task-1"));
    assert_eq!(label(&labels, LABEL_TASK_ROLE), Some("delegate"));
    assert_eq!(label(&labels, LABEL_OWNER_SESSION_ID), Some("owner-session"));
    assert_eq!(label(&labels, LABEL_DELEGATION), Some("true"));
}

#[test]
fn delegated_task_message_names_the_task_and_owner() {
    let message = delegated_task_message(&request());
    assert!(message.starts_with(
        "You have been assigned a Talon Task.\n\nTask: Write the report\nTask name: task-1\nTask ID: acme/task-1\nOwner: acme/lead\n\n"
    ));
    assert!(message.contains("agent_send with target \"owner\""));
    assert!(message.ends_with("\n\nInstructions:\nSummarize Q3."));
}

#[test]
fn text_preview_cuts_long_text() {
    assert_eq!(text_preview("hello", 10), "hello");
    assert_eq!(text_preview("hello", 5), "hello");
    assert_eq!(text_preview("héllo world", 4), "héll...");
    assert_eq!(text_preview("abc", 0), "...");
}

#[test]
fn terminal_phases_are_final() {
    assert!(task_phase_is_terminal(TaskPhase::Succeeded));
    assert!(task_phase_is_terminal(TaskPhase::Failed));
    assert!(task_phase_is_terminal(TaskPhase::Canceled));
    assert!(task_phase_is_terminal(TaskPhase::Expired));
    assert!(!task_phase_is_terminal(TaskPhase::Running));
    assert!(!task_phase_is_terminal(TaskPhase::NeedsReview));
    assert!(!task_phase_is_terminal(TaskPhase::Queued));
}

#[test]
fn set_condition_replaces_by_type_or_appends() {
    let mut conditions = vec![condition("A", "True"), condition("B", "True")];
    set_condition(&mut conditions, condition("B", "False"));
    assert_eq!(conditions.len(), 2);
    assert_eq!(conditions[1].status, "False");
    set_condition(&mut conditions, condition("C", "Unknown"));
    assert_eq!(conditions.len(), 3);
    assert_eq!(conditions[2].condition_type, "C");
}

#[test]
fn completion_moves_running_task_to_review_once() {
    let req = request();
    let mut status = initial_task_status(&req, 10);
    assert_eq!(status.phase, TaskPhase::Queued);
    assert_eq!(
        check_session_completion(&status, "s1", DelegatedSessionCompletion::Completed),
        CompletionOutcome::Stale
    );
    start_task_execution(&mut status, &req, "s1", Some("sub-1"), 20, 3);
    assert_eq!(status.phase, TaskPhase::Running);
    assert_eq!(status.execution_ref.as_ref().unwrap().run_id, "sub-1");
    assert_eq!(status.conditions.len(), 1);
    assert_eq!(status.conditions[0].status, "Unknown");

    let summary = completion_progress_summary(DelegatedSessionCompletion::Completed, Some("done"));
    let outcome = apply_session_completion(
        &mut status,
        "s1",
        DelegatedSessionCompletion::Completed,
        &summary,
        30,
        4,
    );
    assert_eq!(outcome, CompletionOutcome::Applied);
    assert_eq!(status.phase, TaskPhase::NeedsReview);
    assert_eq!(status.progress_summary, "done");
    assert_eq!(status.updated_at, 30);
    assert_eq!(status.completed_at, 0);
    assert_eq!(status.conditions.len(), 1);
    assert_eq!(status.conditions[0].reason, "SessionCompleted");

    let again = apply_session_completion(
        &mut status,
        "s1",
        DelegatedSessionCompletion::Completed,
        "other",
        40,
        5,
    );
    assert_eq!(again, CompletionOutcome::Settled);
    assert_eq!(status.updated_at, 30);

    let stale = apply_session_completion(
        &mut status,
        "s0",
        DelegatedSessionCompletion::Failed,
        "x",
        50,
        6,
    );
    assert_eq!(stale, CompletionOutcome::Stale);

    let failed = apply_session_completion(
        &mut status,
        "s1",
        DelegatedSessionCompletion::Failed,
        "Delegated session failed before completing the Task.",
        60,
        7,
    );
    assert_eq!(failed, CompletionOutcome::Applied);
    assert_eq!(status.phase, TaskPhase::Failed);
    assert_eq!(status.completed_at, 60);
    assert_eq!(
        check_session_completion(&status, "s1", DelegatedSessionCompletion::Completed),
        CompletionOutcome::Settled
    );
}

#[test]
fn dispatch_failure_fails_the_task() {
    let req = request();
    let mut status = initial_task_status(&req, 1);
    fail_task_dispatch(&mut status, "no route", 2, 1);
    assert_eq!(status.phase, TaskPhase::Failed);
    assert_eq!(status.progress_summary, "no route");
    assert_eq!(status.completed_at, 2);
    assert_eq!(status.conditions[0].reason, "DispatchFailed");
    assert_eq!(status.conditions[0].message, "no route");
}

#[test]
fn completion_summaries() {
    assert_eq!(
        completion_progress_summary(DelegatedSessionCompletion::Completed, None),
        "Delegated execution completed; no assistant text was produced."
    );
    assert_eq!(
        completion_progress_summary(DelegatedSessionCompletion::Failed, Some("ignored")),
        "Delegated session failed before completing the Task."
    );
    let long = "a".repeat(1300);
    let summary = completion_progress_summary(DelegatedSessionCompletion::Completed, Some(&long));
    assert_eq!(summary.len(), 1203);
}

#[test]
fn assistant_text_joins_text_parts() {
    let parts = vec![
        (true, "  first".to_string()),
        (false, "tool output".to_string()),
        (true, "second  ".to_string()),
    ];
    assert_eq!(assistant_message_text(true, &parts), Some("first\nsecond".to_string()));
    assert_eq!(assistant_message_text(false, &parts), None);
    assert_eq!(assistant_message_text(true, &vec![(true, "  ".to_string())]), None);
}

#[test]
fn delegate_sessions_name_their_task() {
    let labels = task_execution_labels(&request());
    assert_eq!(
        delegated_task_of_session(&labels),
        Some(("acme".to_string(), "task-1".to_string()))
    );
    assert_eq!(delegated_task_of_session(&task_resource_labels(&request())), None);
}
