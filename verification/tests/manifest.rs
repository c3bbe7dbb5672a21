use talon_control::delegation::{ResourceCondition, TaskPhase};
use talon_control::enum_names::{
    file_index_policy_name, file_purpose_name, file_retention_name, normalize_enum_name,
    parse_file_index_policy, parse_file_purpose, parse_file_retention, parse_task_phase,
    task_phase_name, FileIndexPolicy, FilePurpose, FileRetention,
};
use talon_control::json::{get, Json};
use talon_control::manifest_checks::{
    default_workflow_retry, non_empty_json_object, validate_acp_permission_policy,
    validate_mcp_server_namespace, validate_sandbox_mount_path, ManifestError,
};
use talon_control::status_json::{
    agent_status_from_value, agent_status_to_json, common_status_from_value,
    condition_from_json, condition_to_json, deployment_status_from_value,
    deployment_status_to_json, sandbox_status_from_value, sandbox_status_to_json,
    schedule_status_from_value, schedule_status_to_json, worker_status_from_value,
    worker_status_to_json, AgentStatus, DeploymentReplicaCounts, DeploymentStatus, ResourceRef,
    SandboxLease, SandboxProcessStatus, SandboxStatus, ScheduleStatus, WorkerStatus,
};

fn pairs(items: &[(&str, &str)]) -> Vec<(String, String)> {
    items.iter().map(|(k, v)| (k.to_string(), v.to_string())).collect()
}

fn str_at<'a>(v: &'a Json, key: &str) -> Option<&'a str> {
    match get(v, key) {
        Some(Json::Str(s)) => Some(s.as_str()),
        _ => None,
    }
}

fn u64_at(v: &Json, key: &str) -> Option<u64> {
    match get(v, key) {
        Some(Json::PosInt(n)) => Some(*n),
        _ => None,
    }
}

fn condition(t: &str) -> ResourceCondition {
    ResourceCondition {
        condition_type: t.to_string(),
        status: "True".to_string(),
        reason: "RuntimeReady".to_string(),
        message: "agent runtime is ready".to_string(),
        last_transition_time: 42,
        observed_generation: 3,
    }
}

#[test]
fn mcp_server_manifest_requires_namespace_and_parses_policy() {
    let missing = validate_mcp_server_namespace("McpServer", "").expect_err("McpServer without namespace should fail");
    assert!(missing.message().contains("McpServer metadata.namespace is required"));
    assert!(validate_mcp_server_namespace("McpServer", "conic").is_ok());
}

#[test]
fn mcp_server_binding_manifest_is_unsupported() {
    let error = validate_mcp_server_namespace("McpServerBinding", "conic").expect_err("McpServerBinding should be unsupported");
    assert!(error.message().contains("McpServerBinding manifests are unsupported"));
}

#[test]
fn tests_sandbox_policy_manifest_rejects_system_mount_path() {
    let error = validate_sandbox_mount_path("/etc").expect_err("system mount path should fail");
    assert!(error.message().contains("mountPath"));
}

#[test]
fn tests_agent_manifest_rejects_invalid_acp_permission_policy() {
    let error = validate_acp_permission_policy(&pairs(&[("filesystemwrite", "alllow")]))
        .expect_err("invalid permission policy should fail");
    assert!(error.message().contains("permissionPolicy"));
}

#[test]
fn mount_paths_must_be_absolute_and_outside_system_directories() {
    assert!(validate_sandbox_mount_path("").is_ok());
    assert!(validate_sandbox_mount_path("/workspace").is_ok());
    assert!(validate_sandbox_mount_path("/usr/local/work").is_ok());
    assert!(matches!(validate_sandbox_mount_path("workspace"), Err(ManifestError::MountPathNotAbsolute)));
    for path in ["/", "//", "/etc/", "/var", "/lib64//", "/proc"] {
        match validate_sandbox_mount_path(path) {
            Err(ManifestError::MountPathForbidden { path: p }) => assert_eq!(p, path),
            other => panic!("{path}: {other:?}"),
        }
    }
    assert_eq!(
        validate_sandbox_mount_path("/etc").unwrap_err().message(),
        "SandboxPolicy template.workspace.mountPath '/etc' is not allowed"
    );
    assert_eq!(
        validate_sandbox_mount_path("relative").unwrap_err().message(),
        "SandboxPolicy template.workspace.mountPath must be absolute"
    );
}

#[test]
fn permission_policies_name_known_keys_and_values() {
    assert!(validate_acp_permission_policy(&pairs(&[])).is_ok());
    assert!(validate_acp_permission_policy(&pairs(&[
        ("default", "ask"),
        ("filesystemRead", "allow"),
        ("filesystemWrite", "deny"),
        ("terminal", "ask"),
    ]))
    .is_ok());
    let error = validate_acp_permission_policy(&pairs(&[("terminal", "sometimes")])).unwrap_err();
    assert_eq!(
        error.message(),
        "Agent spec.runtime.acp.permissionPolicy.terminal has unsupported value 'sometimes'"
    );
    let error = validate_acp_permission_policy(&pairs(&[("default", "allow"), ("network", "deny")])).unwrap_err();
    assert_eq!(
        error.message(),
        "Agent spec.runtime.acp.permissionPolicy contains unsupported key 'network'"
    );
}

#[test]
fn other_kinds_need_no_namespace() {
    assert!(validate_mcp_server_namespace("Agent", "").is_ok());
    assert!(matches!(
        validate_mcp_server_namespace("McpServer", "  \t"),
        Err(ManifestError::McpServerNamespaceRequired)
    ));
}

#[test]
fn blank_json_becomes_an_empty_object() {
    assert_eq!(non_empty_json_object("  \n".to_string()), "{}");
    assert_eq!(non_empty_json_object(String::new()), "{}");
    assert_eq!(non_empty_json_object("{\"a\":1}".to_string()), "{\"a\":1}");
}

#[test]
fn workflow_retry_defaults() {
    assert_eq!(default_workflow_retry(), (3, 1, 30));
}

#[test]
fn enum_names_are_trimmed_dashed_and_upper_cased() {
    assert_eq!(normalize_enum_name("  needs-review "), "NEEDS_REVIEW");
    assert_eq!(normalize_enum_name("Task_Phase_Queued"), "TASK_PHASE_QUEUED");
    assert_eq!(normalize_enum_name("ünïcode-x"), "üNïCODE_X");
}

#[test]
fn file_manifest_accepts_and_renders_symbolic_enums() {
    assert_eq!(parse_file_purpose("MEMORY"), Ok(FilePurpose::Memory));
    assert_eq!(parse_file_index_policy("RETRIEVAL"), Ok(FileIndexPolicy::Retrieval));
    assert_eq!(parse_file_retention("RETAINED"), Ok(FileRetention::Retained));
    assert_eq!(file_purpose_name(FilePurpose::Memory), "MEMORY");
    assert_eq!(file_index_policy_name(FileIndexPolicy::Retrieval), "RETRIEVAL");
    assert_eq!(file_retention_name(FileRetention::Retained), "RETAINED");

    let text = |t: &str| Json::Str(t.to_string());
    let doc = Json::Object(vec![
        ("path".to_string(), text("/memory/brand-guidelines.md")),
        ("mediaType".to_string(), text("text/markdown")),
        ("purpose".to_string(), text("MEMORY")),
        ("indexPolicy".to_string(), text("RETRIEVAL")),
        ("retention".to_string(), text("RETAINED")),
    ]);
    let spec = match talon_control::resource_json::resource_spec_from_json("File", "", doc) {
        Ok(talon_control::resource_json::ResourceSpecBody::File(spec)) => spec,
        other => panic!("expected File spec: {other:?}"),
    };
    assert_eq!(spec.purpose, FilePurpose::Memory);
    assert_eq!(spec.index_policy, FileIndexPolicy::Retrieval);
    assert_eq!(spec.retention, FileRetention::Retained);
    let rendered = talon_control::spec_json::file_spec_to_json(&spec);
    let name_at = |key: &str| match get(&rendered, key) {
        Some(Json::Str(t)) => t.clone(),
        other => panic!("{key}: {other:?}"),
    };
    assert_eq!(name_at("purpose"), "MEMORY");
    assert_eq!(name_at("indexPolicy"), "RETRIEVAL");
    assert_eq!(name_at("retention"), "RETAINED");
    assert_eq!(name_at("path"), "/memory/brand-guidelines.md");
}

#[test]
fn task_manifest_accepts_string_type_and_renders_symbolic_phase() {
    assert_eq!(task_phase_name(TaskPhase::NeedsReview), "NEEDS_REVIEW");
    assert_eq!(parse_task_phase("NEEDS_REVIEW"), Ok(TaskPhase::NeedsReview));
}

#[test]
fn enum_values_accept_prefixes_aliases_and_blank() {
    assert_eq!(parse_file_purpose("file-purpose-artifact"), Ok(FilePurpose::Artifact));
    assert_eq!(parse_file_purpose(""), Ok(FilePurpose::Unspecified));
    assert_eq!(parse_file_purpose("FILE_PURPOSE_FILE_PURPOSE_MEMORY"), Ok(FilePurpose::Memory));
    assert_eq!(parse_file_index_policy("none"), Ok(FileIndexPolicy::NotIndexed));
    assert_eq!(parse_file_index_policy(" search "), Ok(FileIndexPolicy::Search));
    assert_eq!(parse_file_retention("file_retention_unspecified"), Ok(FileRetention::Unspecified));
    assert_eq!(parse_task_phase("success"), Ok(TaskPhase::Succeeded));
    assert_eq!(parse_task_phase("Completed"), Ok(TaskPhase::Succeeded));
    assert_eq!(parse_task_phase("cancelled"), Ok(TaskPhase::Canceled));
    assert_eq!(parse_task_phase("task-phase-blocked"), Ok(TaskPhase::Blocked));
    assert_eq!(parse_task_phase("TASK_PHASE_"), Ok(TaskPhase::Unspecified));
    assert_eq!(parse_task_phase("paused"), Err("PAUSED".to_string()));
    assert_eq!(parse_file_purpose("file_purpose_scratch"), Err("SCRATCH".to_string()));
}

#[test]
fn enum_names_read_back_as_the_same_value() {
    for p in [
        TaskPhase::Unspecified,
        TaskPhase::Queued,
        TaskPhase::Running,
        TaskPhase::Blocked,
        TaskPhase::NeedsReview,
        TaskPhase::Succeeded,
        TaskPhase::Failed,
        TaskPhase::Canceled,
        TaskPhase::Expired,
    ] {
        assert_eq!(parse_task_phase(task_phase_name(p)), Ok(p));
    }
    for p in [FilePurpose::Unspecified, FilePurpose::Memory, FilePurpose::Artifact] {
        assert_eq!(parse_file_purpose(file_purpose_name(p)), Ok(p));
    }
}

#[test]
fn tests_resource_yaml_renders_common_status_conditions_when_present() {
    let status = AgentStatus {
        observed_generation: 3,
        phase: "Ready".to_string(),
        conditions: vec![condition("Available")],
        last_session_id: None,
    };
    let json = agent_status_to_json(&status);
    assert_eq!(u64_at(&json, "observedGeneration"), Some(3));
    assert_eq!(str_at(&json, "phase"), Some("Ready"));
    match get(&json, "conditions") {
        Some(Json::Array(items)) => {
            assert_eq!(items.len(), 1);
            assert_eq!(str_at(&items[0], "type"), Some("Available"));
            assert_eq!(u64_at(&items[0], "observedGeneration"), Some(3));
        }
        other => panic!("conditions: {other:?}"),
    }
    assert!(get(&json, "lastSessionId").is_none());
}

#[test]
fn deployment_status_replica_counts_round_trip_yaml() {
    let status = DeploymentStatus {
        observed_generation: 4,
        phase: "Ready".to_string(),
        conditions: Vec::new(),
        replicas: Vec::new(),
        replica_counts: Some(DeploymentReplicaCounts {
            desired: 1200,
            updated: 1200,
            ready: 1198,
            pending: 0,
            degraded: 2,
        }),
    };
    let json = deployment_status_to_json(&status);
    assert!(get(&json, "replicas").is_none());
    let counts = get(&json, "replicaCounts").expect("replica counts");
    assert_eq!(u64_at(counts, "desired"), Some(1200));
    assert_eq!(u64_at(counts, "ready"), Some(1198));
    let parsed = deployment_status_from_value(&json);
    let counts = parsed.replica_counts.expect("replica counts");
    assert_eq!(counts.updated, 1200);
    assert_eq!(counts.degraded, 2);

    let spec = talon_control::spec_json::deployment_spec_to_json(talon_control::spec_json::DeploymentSpec {
        namespace_selector: None,
        templates: Vec::new(),
    });
    let placement = get(&spec, "placement").expect("placement");
    assert!(matches!(get(placement, "namespaceSelector"), Some(Json::Null)));
    assert!(matches!(get(&spec, "templates"), Some(Json::Array(items)) if items.is_empty()));
}

#[test]
fn conditions_write_only_set_fields_and_read_back() {
    let mut c = condition("Available");
    c.reason = String::new();
    c.last_transition_time = -5;
    let json = condition_to_json(&c);
    assert!(get(&json, "reason").is_none());
    assert!(matches!(get(&json, "lastTransitionTime"), Some(Json::NegInt(-5))));
    let back = condition_from_json(&json);
    assert_eq!(back.condition_type, "Available");
    assert_eq!(back.reason, "");
    assert_eq!(back.last_transition_time, -5);
    assert_eq!(back.observed_generation, 3);
}

#[test]
fn missing_or_mistyped_status_fields_read_as_defaults() {
    let doc = Json::Object(vec![
        ("observedGeneration".to_string(), Json::NegInt(-1)),
        ("phase".to_string(), Json::Bool(true)),
        ("conditions".to_string(), Json::Str("none".to_string())),
    ]);
    let s = common_status_from_value(&doc);
    assert_eq!(s.observed_generation, 0);
    assert_eq!(s.phase, "");
    assert!(s.conditions.is_empty());
    let s = common_status_from_value(&Json::Null);
    assert_eq!(s.observed_generation, 0);
}

#[test]
fn agent_status_keeps_a_named_last_session() {
    let status = AgentStatus {
        observed_generation: 0,
        phase: String::new(),
        conditions: Vec::new(),
        last_session_id: Some("s-1".to_string()),
    };
    let json = agent_status_to_json(&status);
    assert_eq!(str_at(&json, "lastSessionId"), Some("s-1"));
    assert!(get(&json, "observedGeneration").is_none());
    let back = agent_status_from_value(&json);
    assert_eq!(back.last_session_id.as_deref(), Some("s-1"));
    let empty = AgentStatus { last_session_id: Some(String::new()), ..status };
    assert!(agent_status_from_value(&agent_status_to_json(&empty)).last_session_id.is_none());
}

#[test]
fn schedule_status_round_trips() {
    let status = ScheduleStatus {
        observed_generation: 2,
        phase: "Armed".to_string(),
        conditions: vec![condition("Scheduled")],
        revision: 7,
        next_run_at: Some(0),
        backend_handle: Some("h-1".to_string()),
        backend_armed: true,
        last_run_at: Some(-10),
        last_session_id: None,
        last_error: Some("boom".to_string()),
        claimed_run_at: None,
        claim_expires_at: Some(99),
    };
    let json = schedule_status_to_json(&status);
    assert!(matches!(get(&json, "backendArmed"), Some(Json::Bool(true))));
    assert!(matches!(get(&json, "nextRunAt"), Some(Json::PosInt(0))));
    let back = schedule_status_from_value(&json);
    assert_eq!(back.revision, 7);
    assert_eq!(back.next_run_at, Some(0));
    assert_eq!(back.backend_handle.as_deref(), Some("h-1"));
    assert!(back.backend_armed);
    assert_eq!(back.last_run_at, Some(-10));
    assert_eq!(back.last_session_id, None);
    assert_eq!(back.last_error.as_deref(), Some("boom"));
    assert_eq!(back.claimed_run_at, None);
    assert_eq!(back.claim_expires_at, Some(99));
    assert_eq!(back.conditions.len(), 1);
    assert_eq!(back.conditions[0].condition_type, "Scheduled");
}

#[test]
fn worker_status_always_writes_times() {
    let status = WorkerStatus {
        observed_generation: 1,
        phase: "Running".to_string(),
        conditions: Vec::new(),
        started_at: 0,
        heartbeat_at: 5,
        expires_at: 10,
        version: String::new(),
    };
    let json = worker_status_to_json(&status);
    assert!(matches!(get(&json, "startedAt"), Some(Json::PosInt(0))));
    assert!(get(&json, "version").is_none());
    let back = worker_status_from_value(&json);
    assert_eq!((back.started_at, back.heartbeat_at, back.expires_at), (0, 5, 10));
}

#[test]
fn sandbox_status_round_trips() {
    let status = SandboxStatus {
        observed_generation: 1,
        phase: "Ready".to_string(),
        conditions: Vec::new(),
        backend_id: "b-9".to_string(),
        lease: Some(SandboxLease {
            owner_kind: "Agent".to_string(),
            owner_agent: "coding".to_string(),
            owner_session_id: String::new(),
            token: "t".to_string(),
            acquired_at: 1,
            expires_at: 0,
            heartbeat_at: 3,
        }),
        processes: vec![SandboxProcessStatus {
            id: "p1".to_string(),
            command: "codex-acp".to_string(),
            args: vec!["--stdio".to_string(), "-v".to_string()],
            protocol: "acp".to_string(),
            phase: "Running".to_string(),
        }],
    };
    let json = sandbox_status_to_json(&status);
    let lease = get(&json, "lease").expect("lease");
    assert!(get(lease, "ownerSessionId").is_none());
    assert!(get(lease, "expiresAt").is_none());
    let back = sandbox_status_from_value(&json);
    assert_eq!(back.backend_id, "b-9");
    let lease = back.lease.expect("lease");
    assert_eq!(lease.owner_agent, "coding");
    assert_eq!(lease.heartbeat_at, 3);
    assert_eq!(back.processes.len(), 1);
    assert_eq!(back.processes[0].args, vec!["--stdio".to_string(), "-v".to_string()]);
}

#[test]
fn process_args_need_every_item_to_be_a_string() {
    let doc = Json::Object(vec![(
        "processes".to_string(),
        Json::Array(vec![Json::Object(vec![(
            "args".to_string(),
            Json::Array(vec![Json::Str("a".to_string()), Json::PosInt(1)]),
        )])]),
    )]);
    let back = sandbox_status_from_value(&doc);
    assert_eq!(back.processes.len(), 1);
    assert!(back.processes[0].args.is_empty());
    let doc = Json::Object(vec![("lease".to_string(), Json::Null)]);
    assert!(sandbox_status_from_value(&doc).lease.is_some());
}

#[test]
fn deployment_replicas_are_written_as_references() {
    let status = DeploymentStatus {
        observed_generation: 0,
        phase: String::new(),
        conditions: Vec::new(),
        replicas: vec![ResourceRef { namespace: "customers:acme".to_string(), name: String::new() }],
        replica_counts: None,
    };
    let json = deployment_status_to_json(&status);
    match get(&json, "replicas") {
        Some(Json::Array(items)) => {
            assert_eq!(str_at(&items[0], "namespace"), Some("customers:acme"));
            assert_eq!(str_at(&items[0], "name"), Some(""));
        }
        other => panic!("replicas: {other:?}"),
    }
    assert!(get(&json, "replicaCounts").is_none());
    let back = deployment_status_from_value(&json);
    assert_eq!(back.replicas.len(), 1);
    assert!(back.replica_counts.is_none());
}
