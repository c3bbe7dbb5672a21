//! A resource's spec and status documents routed by the resource's kind to
//! the codec of that kind.

use vstd::prelude::*;
use crate::json::{field, json_document, json_text, json_to_text, read_json_document, Json};
use crate::status_json::{
    agent_json, agent_of_json, agent_status_from_value, agent_status_to_json, agent_view,
    common_at, common_keys, common_of_json, common_status_from_value, common_status_to_json,
    common_view, deployment_json, deployment_of_json, deployment_status_from_value,
    deployment_status_to_json, deployment_view, entries_of, sandbox_json, sandbox_of_json,
    sandbox_status_from_value, sandbox_status_to_json, sandbox_view, schedule_json,
    schedule_of_json, schedule_status_from_value, schedule_status_to_json, schedule_view, within,
    worker_json, worker_of_json, worker_status_from_value, worker_status_to_json, worker_view,
    AgentStatus, CommonStatus, DeploymentStatus, SandboxStatus, ScheduleStatus, WorkerStatus,
};
use crate::manifest_checks::ManifestError;
use crate::spec_json::{
    deployment_replica_spec_json, deployment_replica_spec_to_json, sandbox_class_spec_json,
    sandbox_class_spec_to_json, sandbox_policy_spec_json, sandbox_policy_spec_to_json,
    sandbox_spec_json, sandbox_spec_to_json, schedule_spec_json, schedule_spec_to_json,
    deployment_replica_spec_from_value, deployment_replica_spec_read, sandbox_class_spec_decoded,
    sandbox_class_spec_from_value, sandbox_policy_spec_decoded, sandbox_policy_spec_from_value,
    sandbox_spec_decoded, sandbox_spec_from_value, schedule_spec_decoded, schedule_spec_from_value,
    deployment_spec_from_value, deployment_spec_json, deployment_spec_read, deployment_spec_to_json,
    skill_spec_decoded, skill_spec_from_value, skill_spec_json, skill_spec_to_json, DeploymentSpec,
    file_spec_decoded, file_spec_from_value, file_spec_is_named, file_spec_json, file_spec_named,
    file_spec_to_json, FileSpec,
    SkillSpec, DeploymentReplicaSpec, SandboxClassSpec, SandboxPolicySpec, SandboxSpec, ScheduleSpec,
};
use crate::template_json::{
    template_spec_decoded, template_spec_from_value, template_spec_json, template_spec_to_json,
    TemplateSpec,
};
use crate::text::{blank, is_blank, owned, str_eq};

verus! {

// ---------------------------------------------------------------------------
// Routing by kind

/// The codec that a resource kind's spec is read with.
#[derive(Clone, Copy, Debug, PartialEq, Eq, Structural)]
pub enum SpecCodec {
    Agent,
    Schedule,
    Template,
    Workflow,
    Deployment,
    DeploymentReplica,
    SandboxClass,
    SandboxPolicy,
    Sandbox,
    UsagePolicy,
    ConnectorClass,
    Connector,
    File,
    Task,
    Skill,
    Worker,
    McpServer,
    /// Any other kind: the spec is kept as its JSON text.
    Raw,
}

/// The codec that a resource kind's status is read with.
#[derive(Clone, Copy, Debug, PartialEq, Eq, Structural)]
pub enum StatusCodec {
    Agent,
    Schedule,
    Workflow,
    Deployment,
    DeploymentReplica,
    Sandbox,
    Template,
    SandboxClass,
    SandboxPolicy,
    Skill,
    UsagePolicy,
    ConnectorClass,
    Connector,
    File,
    Task,
    Worker,
    McpServer,
    /// Any other kind: the status is kept as its JSON text.
    Raw,
}

/// The spec codec of each kind name.
pub open spec fn spec_codec_of(kind: Seq<char>) -> SpecCodec {
    if kind == "Agent"@ {
        SpecCodec::Agent
    } else if kind == "Schedule"@ {
        SpecCodec::Schedule
    } else if kind == "Template"@ {
        SpecCodec::Template
    } else if kind == "Workflow"@ {
        SpecCodec::Workflow
    } else if kind == "Deployment"@ {
        SpecCodec::Deployment
    } else if kind == "DeploymentReplica"@ {
        SpecCodec::DeploymentReplica
    } else if kind == "SandboxClass"@ {
        SpecCodec::SandboxClass
    } else if kind == "SandboxPolicy"@ {
        SpecCodec::SandboxPolicy
    } else if kind == "Sandbox"@ {
        SpecCodec::Sandbox
    } else if kind == "UsagePolicy"@ {
        SpecCodec::UsagePolicy
    } else if kind == "ConnectorClass"@ {
        SpecCodec::ConnectorClass
    } else if kind == "Connector"@ {
        SpecCodec::Connector
    } else if kind == "File"@ {
        SpecCodec::File
    } else if kind == "Task"@ {
        SpecCodec::Task
    } else if kind == "Skill"@ {
        SpecCodec::Skill
    } else if kind == "Worker"@ {
        SpecCodec::Worker
    } else if kind == "McpServer"@ {
        SpecCodec::McpServer
    } else {
        SpecCodec::Raw
    }
}

/// The status codec of each kind name.
pub open spec fn status_codec_of(kind: Seq<char>) -> StatusCodec {
    if kind == "Agent"@ {
        StatusCodec::Agent
    } else if kind == "Schedule"@ {
        StatusCodec::Schedule
    } else if kind == "Workflow"@ {
        StatusCodec::Workflow
    } else if kind == "Deployment"@ {
        StatusCodec::Deployment
    } else if kind == "DeploymentReplica"@ {
        StatusCodec::DeploymentReplica
    } else if kind == "Sandbox"@ {
        StatusCodec::Sandbox
    } else if kind == "Template"@ {
        StatusCodec::Template
    } else if kind == "SandboxClass"@ {
        StatusCodec::SandboxClass
    } else if kind == "SandboxPolicy"@ {
        StatusCodec::SandboxPolicy
    } else if kind == "Skill"@ {
        StatusCodec::Skill
    } else if kind == "UsagePolicy"@ {
        StatusCodec::UsagePolicy
    } else if kind == "ConnectorClass"@ {
        StatusCodec::ConnectorClass
    } else if kind == "Connector"@ {
        StatusCodec::Connector
    } else if kind == "File"@ {
        StatusCodec::File
    } else if kind == "Task"@ {
        StatusCodec::Task
    } else if kind == "Worker"@ {
        StatusCodec::Worker
    } else if kind == "McpServer"@ {
        StatusCodec::McpServer
    } else {
        StatusCodec::Raw
    }
}

/// The codec that `kind`'s spec is read with.
pub fn spec_codec(kind: &str) -> (r: SpecCodec)
    ensures
        r == spec_codec_of(kind@),
{
    if str_eq(kind, "Agent") {
        SpecCodec::Agent
    } else if str_eq(kind, "Schedule") {
        SpecCodec::Schedule
    } else if str_eq(kind, "Template") {
        SpecCodec::Template
    } else if str_eq(kind, "Workflow") {
        SpecCodec::Workflow
    } else if str_eq(kind, "Deployment") {
        SpecCodec::Deployment
    } else if str_eq(kind, "DeploymentReplica") {
        SpecCodec::DeploymentReplica
    } else if str_eq(kind, "SandboxClass") {
        SpecCodec::SandboxClass
    } else if str_eq(kind, "SandboxPolicy") {
        SpecCodec::SandboxPolicy
    } else if str_eq(kind, "Sandbox") {
        SpecCodec::Sandbox
    } else if str_eq(kind, "UsagePolicy") {
        SpecCodec::UsagePolicy
    } else if str_eq(kind, "ConnectorClass") {
        SpecCodec::ConnectorClass
    } else if str_eq(kind, "Connector") {
        SpecCodec::Connector
    } else if str_eq(kind, "File") {
        SpecCodec::File
    } else if str_eq(kind, "Task") {
        SpecCodec::Task
    } else if str_eq(kind, "Skill") {
        SpecCodec::Skill
    } else if str_eq(kind, "Worker") {
        SpecCodec::Worker
    } else if str_eq(kind, "McpServer") {
        SpecCodec::McpServer
    } else {
        SpecCodec::Raw
    }
}

/// The codec that `kind`'s status is read with.
pub fn status_codec(kind: &str) -> (r: StatusCodec)
    ensures
        r == status_codec_of(kind@),
{
    if str_eq(kind, "Agent") {
        StatusCodec::Agent
    } else if str_eq(kind, "Schedule") {
        StatusCodec::Schedule
    } else if str_eq(kind, "Workflow") {
        StatusCodec::Workflow
    } else if str_eq(kind, "Deployment") {
        StatusCodec::Deployment
    } else if str_eq(kind, "DeploymentReplica") {
        StatusCodec::DeploymentReplica
    } else if str_eq(kind, "Sandbox") {
        StatusCodec::Sandbox
    } else if str_eq(kind, "Template") {
        StatusCodec::Template
    } else if str_eq(kind, "SandboxClass") {
        StatusCodec::SandboxClass
    } else if str_eq(kind, "SandboxPolicy") {
        StatusCodec::SandboxPolicy
    } else if str_eq(kind, "Skill") {
        StatusCodec::Skill
    } else if str_eq(kind, "UsagePolicy") {
        StatusCodec::UsagePolicy
    } else if str_eq(kind, "ConnectorClass") {
        StatusCodec::ConnectorClass
    } else if str_eq(kind, "Connector") {
        StatusCodec::Connector
    } else if str_eq(kind, "File") {
        StatusCodec::File
    } else if str_eq(kind, "Task") {
        StatusCodec::Task
    } else if str_eq(kind, "Worker") {
        StatusCodec::Worker
    } else if str_eq(kind, "McpServer") {
        StatusCodec::McpServer
    } else {
        StatusCodec::Raw
    }
}

// ---------------------------------------------------------------------------
// Statuses

/// A resource's status as its kind's codec reads it.
#[derive(Debug)]
pub enum ResourceStatusBody {
    Agent(AgentStatus),
    Schedule(ScheduleStatus),
    Workflow(CommonStatus),
    Deployment(DeploymentStatus),
    Sandbox(SandboxStatus),
    Template(CommonStatus),
    SandboxClass(CommonStatus),
    SandboxPolicy(CommonStatus),
    Skill(CommonStatus),
    McpServer(CommonStatus),
    Worker(WorkerStatus),
    /// A status that the resource schema's own message type reads (the
    /// codecs `DeploymentReplica`, `UsagePolicy`, `ConnectorClass`,
    /// `Connector`, `File` and `Task`): the codec and the document as given.
    Schema(StatusCodec, Json),
    /// The status of a kind without a codec: its JSON text.
    Raw(String),
}

/// Whether `s` holds the common fields that `v` is read as.
pub open spec fn common_read(v: Json, s: CommonStatus) -> bool {
    common_view(s.observed_generation, s.phase, s.conditions@) == common_of_json(v)
}

/// Whether `j` is the document of the common fields `s`.
pub open spec fn common_json(s: CommonStatus, j: Json) -> bool {
    &&& j is Object
    &&& common_at(entries_of(j), common_view(s.observed_generation, s.phase, s.conditions@))
    &&& within(entries_of(j), common_keys())
}

/// Whether `r` is what the status document `v`, whose text is `text`, of a
/// resource of kind `kind` is read as.
pub open spec fn status_read(kind: Seq<char>, text: Seq<char>, v: Json, r: ResourceStatusBody) -> bool {
    match status_codec_of(kind) {
        StatusCodec::Agent => r matches ResourceStatusBody::Agent(s) && agent_view(s) == agent_of_json(v),
        StatusCodec::Schedule => r matches ResourceStatusBody::Schedule(s) && schedule_view(s)
            == schedule_of_json(v),
        StatusCodec::Workflow => r matches ResourceStatusBody::Workflow(s) && common_read(v, s),
        StatusCodec::Deployment => r matches ResourceStatusBody::Deployment(s) && deployment_view(s)
            == deployment_of_json(v),
        StatusCodec::Sandbox => r matches ResourceStatusBody::Sandbox(s) && sandbox_view(s)
            == sandbox_of_json(v),
        StatusCodec::Template => r matches ResourceStatusBody::Template(s) && common_read(v, s),
        StatusCodec::SandboxClass => r matches ResourceStatusBody::SandboxClass(s) && common_read(v, s),
        StatusCodec::SandboxPolicy => r matches ResourceStatusBody::SandboxPolicy(s) && common_read(
            v,
            s,
        ),
        StatusCodec::Skill => r matches ResourceStatusBody::Skill(s) && common_read(v, s),
        StatusCodec::McpServer => r matches ResourceStatusBody::McpServer(s) && common_read(v, s),
        StatusCodec::Worker => r matches ResourceStatusBody::Worker(s) && worker_view(s) == worker_of_json(v),
        StatusCodec::Raw => r matches ResourceStatusBody::Raw(t) && t@ == text,
        c => r == ResourceStatusBody::Schema(c, v),
    }
}

/// Reads the status of a resource of kind `kind`: `value` is the document
/// and `text` its JSON text, which a kind without a codec keeps.
pub fn resource_status_from_json(kind: &str, text: &str, value: Json) -> (r: ResourceStatusBody)
    ensures
        status_read(kind@, text@, value, r),
{
    let c = status_codec(kind);
    match c {
        StatusCodec::Agent => ResourceStatusBody::Agent(agent_status_from_value(&value)),
        StatusCodec::Schedule => ResourceStatusBody::Schedule(schedule_status_from_value(&value)),
        StatusCodec::Workflow => ResourceStatusBody::Workflow(common_status_from_value(&value)),
        StatusCodec::Deployment => ResourceStatusBody::Deployment(deployment_status_from_value(&value)),
        StatusCodec::Sandbox => ResourceStatusBody::Sandbox(sandbox_status_from_value(&value)),
        StatusCodec::Template => ResourceStatusBody::Template(common_status_from_value(&value)),
        StatusCodec::SandboxClass => ResourceStatusBody::SandboxClass(common_status_from_value(&value)),
        StatusCodec::SandboxPolicy => ResourceStatusBody::SandboxPolicy(common_status_from_value(&value)),
        StatusCodec::Skill => ResourceStatusBody::Skill(common_status_from_value(&value)),
        StatusCodec::McpServer => ResourceStatusBody::McpServer(common_status_from_value(&value)),
        StatusCodec::Worker => ResourceStatusBody::Worker(worker_status_from_value(&value)),
        StatusCodec::Raw => ResourceStatusBody::Raw(owned(text)),
        _ => ResourceStatusBody::Schema(c, value),
    }
}

/// Whether `r` is what a stored JSON text is written as: `null` for blank
/// text, else its document (an error when it is not JSON).
pub open spec fn stored_written(text: Seq<char>, r: Result<Json, ManifestError>) -> bool {
    if is_blank(text) {
        r matches Ok(j) && j is Null
    } else {
        match json_document(text) {
            Some(d) => r matches Ok(j) && j == d,
            None => r matches Err(e) && e is StoredJson,
        }
    }
}

/// Writes a stored JSON text as its document (see [`stored_written`]).
pub fn stored_json_value(text: &str) -> (r: Result<Json, ManifestError>)
    ensures
        stored_written(text@, r),
{
    if blank(text) {
        return Ok(Json::Null);
    }
    match read_json_document(text) {
        Ok(j) => Ok(j),
        Err(detail) => Err(ManifestError::StoredJson { detail }),
    }
}

/// Whether `r` is what the status `body` is written as: its document for a
/// status that a codec of this library reads, the document it was read
/// from for one the schema's message type reads, and a raw status's text
/// as a stored JSON text.
pub open spec fn status_written(body: ResourceStatusBody, r: Result<Json, ManifestError>) -> bool {
    match body {
        ResourceStatusBody::Agent(s) => r matches Ok(j) && agent_json(agent_view(s), j),
        ResourceStatusBody::Schedule(s) => r matches Ok(j) && schedule_json(schedule_view(s), j),
        ResourceStatusBody::Workflow(s) => r matches Ok(j) && common_json(s, j),
        ResourceStatusBody::Deployment(s) => r matches Ok(j) && deployment_json(deployment_view(s), j),
        ResourceStatusBody::Sandbox(s) => r matches Ok(j) && sandbox_json(sandbox_view(s), j),
        ResourceStatusBody::Template(s) => r matches Ok(j) && common_json(s, j),
        ResourceStatusBody::SandboxClass(s) => r matches Ok(j) && common_json(s, j),
        ResourceStatusBody::SandboxPolicy(s) => r matches Ok(j) && common_json(s, j),
        ResourceStatusBody::Skill(s) => r matches Ok(j) && common_json(s, j),
        ResourceStatusBody::McpServer(s) => r matches Ok(j) && common_json(s, j),
        ResourceStatusBody::Worker(s) => r matches Ok(j) && worker_json(worker_view(s), j),
        ResourceStatusBody::Schema(_, d) => r matches Ok(j) && j == d,
        ResourceStatusBody::Raw(t) => stored_written(t@, r),
    }
}

/// Writes a status with the codec of its kind (see [`status_written`]).
pub fn resource_status_to_json(body: ResourceStatusBody) -> (r: Result<Json, ManifestError>)
    ensures
        status_written(body, r),
{
    match body {
        ResourceStatusBody::Agent(s) => Ok(agent_status_to_json(&s)),
        ResourceStatusBody::Schedule(s) => Ok(schedule_status_to_json(&s)),
        ResourceStatusBody::Workflow(s) => Ok(common_status_to_json(&s)),
        ResourceStatusBody::Deployment(s) => Ok(deployment_status_to_json(&s)),
        ResourceStatusBody::Sandbox(s) => Ok(sandbox_status_to_json(&s)),
        ResourceStatusBody::Template(s) => Ok(common_status_to_json(&s)),
        ResourceStatusBody::SandboxClass(s) => Ok(common_status_to_json(&s)),
        ResourceStatusBody::SandboxPolicy(s) => Ok(common_status_to_json(&s)),
        ResourceStatusBody::Skill(s) => Ok(common_status_to_json(&s)),
        ResourceStatusBody::McpServer(s) => Ok(common_status_to_json(&s)),
        ResourceStatusBody::Worker(s) => Ok(worker_status_to_json(&s)),
        ResourceStatusBody::Schema(_, d) => Ok(d),
        ResourceStatusBody::Raw(t) => stored_json_value(t.as_str()),
    }
}

// ---------------------------------------------------------------------------
// Specs

/// A resource's spec as its kind's codec reads it.
#[derive(Debug)]
pub enum ResourceSpecBody {
    Schedule(ScheduleSpec),
    Template(TemplateSpec),
    DeploymentReplica(DeploymentReplicaSpec),
    SandboxClass(SandboxClassSpec),
    SandboxPolicy(SandboxPolicySpec),
    Sandbox(SandboxSpec),
    Deployment(DeploymentSpec),
    Skill(SkillSpec),
    File(FileSpec),
    /// A spec that the resource schema's own message type reads (the codecs
    /// `Agent`, `Workflow`, `UsagePolicy`, `ConnectorClass`, `Connector`,
    /// `Task`, `Worker` and `McpServer`, and `File` when one of its enum
    /// fields is given by number): the codec and the document as given.
    Schema(SpecCodec, Json),
    /// The spec of a kind without a codec: its JSON text.
    Raw(String),
}

/// Whether `r` is what the spec document `v`, whose text is `text`, of a
/// resource of kind `kind` is read as; a codec's error is the error.
pub open spec fn spec_read(kind: Seq<char>, text: Seq<char>, v: Json, r: Result<ResourceSpecBody, ManifestError>) -> bool {
    match spec_codec_of(kind) {
        SpecCodec::Schedule => match r {
            Ok(b) => b matches ResourceSpecBody::Schedule(s) && schedule_spec_decoded(v, Ok(s)),
            Err(e) => schedule_spec_decoded(v, Err(e)),
        },
        SpecCodec::Template => match r {
            Ok(b) => b matches ResourceSpecBody::Template(s) && template_spec_decoded(v, Ok(s)),
            Err(e) => template_spec_decoded(v, Err(e)),
        },
        SpecCodec::DeploymentReplica => r matches Ok(b) && b matches ResourceSpecBody::DeploymentReplica(s)
            && deployment_replica_spec_read(v, s),
        SpecCodec::SandboxClass => match r {
            Ok(b) => b matches ResourceSpecBody::SandboxClass(s) && sandbox_class_spec_decoded(v, Ok(s)),
            Err(e) => sandbox_class_spec_decoded(v, Err(e)),
        },
        SpecCodec::SandboxPolicy => match r {
            Ok(b) => b matches ResourceSpecBody::SandboxPolicy(s) && sandbox_policy_spec_decoded(
                v,
                Ok(s),
            ),
            Err(e) => sandbox_policy_spec_decoded(v, Err(e)),
        },
        SpecCodec::Sandbox => match r {
            Ok(b) => b matches ResourceSpecBody::Sandbox(s) && sandbox_spec_decoded(v, Ok(s)),
            Err(e) => sandbox_spec_decoded(v, Err(e)),
        },
        SpecCodec::Deployment => r matches Ok(b) && b matches ResourceSpecBody::Deployment(s)
            && deployment_spec_read(v, s),
        SpecCodec::Skill => match r {
            Ok(b) => b matches ResourceSpecBody::Skill(s) && skill_spec_decoded(v, Ok(s)),
            Err(e) => skill_spec_decoded(v, Err(e)),
        },
        SpecCodec::File => if file_spec_named(v) {
            match r {
                Ok(b) => b matches ResourceSpecBody::File(s) && file_spec_decoded(v, Ok(s)),
                Err(e) => file_spec_decoded(v, Err(e)),
            }
        } else {
            r matches Ok(b) && b == ResourceSpecBody::Schema(SpecCodec::File, v)
        },
        SpecCodec::Raw => r matches Ok(b) && b matches ResourceSpecBody::Raw(t) && t@ == text,
        c => r matches Ok(b) && b == ResourceSpecBody::Schema(c, v),
    }
}

/// Reads the spec of a resource of kind `kind`: `value` is the document
/// and `text` its JSON text, which a kind without a codec keeps.
pub fn resource_spec_from_json(kind: &str, text: &str, value: Json) -> (r: Result<ResourceSpecBody, ManifestError>)
    ensures
        spec_read(kind@, text@, value, r),
{
    let c = spec_codec(kind);
    match c {
        SpecCodec::Schedule => match schedule_spec_from_value(&value) {
            Ok(s) => Ok(ResourceSpecBody::Schedule(s)),
            Err(e) => Err(e),
        },
        SpecCodec::Template => match template_spec_from_value(&value) {
            Ok(s) => Ok(ResourceSpecBody::Template(s)),
            Err(e) => Err(e),
        },
        SpecCodec::DeploymentReplica => Ok(
            ResourceSpecBody::DeploymentReplica(deployment_replica_spec_from_value(&value)),
        ),
        SpecCodec::SandboxClass => match sandbox_class_spec_from_value(&value) {
            Ok(s) => Ok(ResourceSpecBody::SandboxClass(s)),
            Err(e) => Err(e),
        },
        SpecCodec::SandboxPolicy => match sandbox_policy_spec_from_value(&value) {
            Ok(s) => Ok(ResourceSpecBody::SandboxPolicy(s)),
            Err(e) => Err(e),
        },
        SpecCodec::Sandbox => match sandbox_spec_from_value(&value) {
            Ok(s) => Ok(ResourceSpecBody::Sandbox(s)),
            Err(e) => Err(e),
        },
        SpecCodec::Skill => match skill_spec_from_value(&value) {
            Ok(s) => Ok(ResourceSpecBody::Skill(s)),
            Err(e) => Err(e),
        },
        SpecCodec::Deployment => Ok(ResourceSpecBody::Deployment(deployment_spec_from_value(value))),
        SpecCodec::File => {
            if file_spec_is_named(&value) {
                match file_spec_from_value(&value) {
                    Ok(s) => Ok(ResourceSpecBody::File(s)),
                    Err(e) => Err(e),
                }
            } else {
                Ok(ResourceSpecBody::Schema(c, value))
            }
        },
        SpecCodec::Raw => Ok(ResourceSpecBody::Raw(owned(text))),
        _ => Ok(ResourceSpecBody::Schema(c, value)),
    }
}

/// Reads a resource's spec and status texts by its kind: each text must be
/// JSON, the spec's first; then the spec's codec reads it, its error being
/// the error, and the status's codec reads the status.
pub fn resource_spec_status_from_json(kind: &str, spec_json: &str, status_json: &str) -> (r: Result<
    (ResourceSpecBody, ResourceStatusBody),
    ManifestError,
>)
    ensures
        match (json_document(spec_json@), json_document(status_json@)) {
            (Some(sv), Some(tv)) => match r {
                Ok((spec, status)) => spec_read(kind@, spec_json@, sv, Ok(spec)) && status_read(
                    kind@,
                    status_json@,
                    tv,
                    status,
                ),
                Err(e) => spec_read(kind@, spec_json@, sv, Err(e)),
            },
            _ => r matches Err(ManifestError::InvalidJson { .. }),
        },
{
    let spec_value = match read_json_document(spec_json) {
        Ok(v) => v,
        Err(detail) => {
            return Err(ManifestError::InvalidJson { detail });
        },
    };
    let status_value = match read_json_document(status_json) {
        Ok(v) => v,
        Err(detail) => {
            return Err(ManifestError::InvalidJson { detail });
        },
    };
    let spec = resource_spec_from_json(kind, spec_json, spec_value)?;
    let status = resource_status_from_json(kind, status_json, status_value);
    Ok((spec, status))
}

// ---------------------------------------------------------------------------
// Writing specs

/// Whether an embedded JSON text reads: blank text, or JSON.
pub open spec fn embedded_ok(text: Seq<char>) -> bool {
    is_blank(text) || json_document(text) is Some
}

/// Whether `j` is what an embedded JSON text reads as: an empty object for
/// blank text, else the JSON document.
pub open spec fn embedded_json(text: Seq<char>, j: Json) -> bool {
    if is_blank(text) {
        j matches Json::Object(es) && es@.len() == 0
    } else {
        json_document(text) == Some(j)
    }
}

/// Reads an embedded JSON text: an empty object when it is blank.
pub fn embedded_json_value(text: &str) -> (r: Result<Json, ManifestError>)
    ensures
        r is Ok <==> embedded_ok(text@),
        r matches Ok(j) ==> embedded_json(text@, j),
        r matches Err(e) ==> e is EmbeddedJson,
{
    if blank(text) {
        return Ok(Json::Object(Vec::new()));
    }
    match read_json_document(text) {
        Ok(j) => Ok(j),
        Err(detail) => Err(ManifestError::EmbeddedJson { detail }),
    }
}

/// Whether `r` is what the spec `body` is written as: the document its
/// kind's writer gives, embedded JSON texts read (an error when one does not
/// read); a raw spec's text as a stored JSON text; an empty object for a
/// Worker; the document it was read from for a spec that the resource
/// schema's message type writes.
pub open spec fn spec_written(body: ResourceSpecBody, r: Result<Json, ManifestError>) -> bool {
    match body {
        ResourceSpecBody::Schedule(s) => r matches Ok(j) && schedule_spec_json(
            s,
            json_document(s.input_json@),
            j,
        ),
        ResourceSpecBody::Template(t) => if embedded_ok(t.spec_json@) {
            r matches Ok(j) && field(j, "spec"@) matches Some(p) && embedded_json(t.spec_json@, p)
                && template_spec_json(t, p, j)
        } else {
            r matches Err(e) && e is EmbeddedJson
        },
        ResourceSpecBody::DeploymentReplica(s) => r matches Ok(j) && deployment_replica_spec_json(s, j),
        ResourceSpecBody::SandboxClass(s) => if embedded_ok(s.provider_config_json@) && embedded_ok(
            s.credentials_json@,
        ) {
            r matches Ok(j) && field(j, "providerConfig"@) matches Some(c) && field(
                j,
                "credentials"@,
            ) matches Some(k) && embedded_json(s.provider_config_json@, c) && embedded_json(
                s.credentials_json@,
                k,
            ) && sandbox_class_spec_json(s, c, k, j)
        } else {
            r matches Err(e) && e is EmbeddedJson
        },
        ResourceSpecBody::SandboxPolicy(s) => r matches Ok(j) && sandbox_policy_spec_json(s, j),
        ResourceSpecBody::Sandbox(s) => r matches Ok(j) && sandbox_spec_json(s, j),
        ResourceSpecBody::Deployment(s) => r matches Ok(j) && deployment_spec_json(s, j),
        ResourceSpecBody::Skill(s) => r matches Ok(j) && skill_spec_json(s, j),
        ResourceSpecBody::File(s) => r matches Ok(j) && file_spec_json(s, j),
        ResourceSpecBody::Schema(c, d) => if c == SpecCodec::Worker {
            r matches Ok(j) && j matches Json::Object(es) && es@.len() == 0
        } else {
            r matches Ok(j) && j == d
        },
        ResourceSpecBody::Raw(t) => stored_written(t@, r),
    }
}

/// Writes a spec with the writer of its kind (see [`spec_written`]).
pub fn resource_spec_to_json(body: ResourceSpecBody) -> (r: Result<Json, ManifestError>)
    ensures
        spec_written(body, r),
{
    match body {
        ResourceSpecBody::Schedule(s) => {
            let parsed = match read_json_document(s.input_json.as_str()) {
                Ok(j) => Some(j),
                Err(_) => None,
            };
            Ok(schedule_spec_to_json(&s, parsed))
        },
        ResourceSpecBody::Template(t) => {
            let parsed = embedded_json_value(t.spec_json.as_str())?;
            Ok(template_spec_to_json(&t, parsed))
        },
        ResourceSpecBody::DeploymentReplica(s) => Ok(deployment_replica_spec_to_json(&s)),
        ResourceSpecBody::SandboxClass(s) => {
            let config = embedded_json_value(s.provider_config_json.as_str())?;
            let credentials = embedded_json_value(s.credentials_json.as_str())?;
            Ok(sandbox_class_spec_to_json(&s, config, credentials))
        },
        ResourceSpecBody::SandboxPolicy(s) => Ok(sandbox_policy_spec_to_json(&s)),
        ResourceSpecBody::Sandbox(s) => Ok(sandbox_spec_to_json(&s)),
        ResourceSpecBody::Deployment(s) => Ok(deployment_spec_to_json(s)),
        ResourceSpecBody::Skill(s) => Ok(skill_spec_to_json(&s)),
        ResourceSpecBody::File(s) => Ok(file_spec_to_json(&s)),
        ResourceSpecBody::Schema(c, d) => {
            if c == SpecCodec::Worker {
                Ok(Json::Object(Vec::new()))
            } else {
                Ok(d)
            }
        },
        ResourceSpecBody::Raw(t) => stored_json_value(t.as_str()),
    }
}


// ---------------------------------------------------------------------------
// The registry of codecs

/// The codecs of every resource kind, read and written by kind.
#[derive(Clone, Copy, Debug)]
pub struct ResourceCodecRegistry;

impl ResourceCodecRegistry {
    /// The registry.
    pub fn new() -> (r: Self) {
        ResourceCodecRegistry
    }

    /// Reads a resource's spec and status documents by its kind; a kind
    /// without a codec keeps each document as its compact JSON text.
    pub fn decode_flat(&self, kind: &str, spec: Json, status: Json) -> (r: Result<
        (ResourceSpecBody, ResourceStatusBody),
        ManifestError,
    >)
        ensures
            match r {
                Ok((sp, st)) => spec_read(kind@, json_text(spec), spec, Ok(sp)) && status_read(
                    kind@,
                    json_text(status),
                    status,
                    st,
                ),
                Err(e) => spec_read(kind@, json_text(spec), spec, Err(e)),
            },
    {
        let spec_text = json_to_text(&spec);
        let status_text = json_to_text(&status);
        let sp = resource_spec_from_json(kind, spec_text.as_str(), spec)?;
        let st = resource_status_from_json(kind, status_text.as_str(), status);
        Ok((sp, st))
    }

    /// The document a resource's spec is written as.
    pub fn canonical_spec_json(&self, spec: ResourceSpecBody) -> (r: Result<Json, ManifestError>)
        ensures
            spec_written(spec, r),
    {
        resource_spec_to_json(spec)
    }

    /// The document a resource's status is written as.
    pub fn canonical_status_json(&self, status: ResourceStatusBody) -> (r: Result<Json, ManifestError>)
        ensures
            status_written(status, r),
    {
        resource_status_to_json(status)
    }
}

} // verus!
