use talon_control::templating::{
    contains_template_syntax, literalize_passthrough_variables, render_cli_manifest_template,
    render_resource_template, render_runtime_post_history_prompt_template,
    render_runtime_post_history_prompt_template_at, render_runtime_system_prompt_template,
    render_runtime_system_prompt_template_at, variable_namespace, TemplateStage,
};

fn vars(pairs: &[(&str, &str)]) -> Vec<(String, String)> {
    pairs.iter().map(|(k, v)| (k.to_string(), v.to_string())).collect()
}

#[test]
fn cli_renders_vars_and_preserves_later_phase_variables() {
    let rendered = render_cli_manifest_template(
        "name: {{ vars.name }}\nagent: {{ namespace.name }}\nnow: {{ talon.now }}",
        &vars(&[("name", "coding")]),
    )
    .unwrap();

    assert!(rendered.contains("name: coding"));
    assert!(rendered.contains("agent: {{ namespace.name }}"));
    assert!(rendered.contains("now: {{ talon.now }}"));
}

#[test]
fn cli_fails_on_missing_owned_variable() {
    let err = render_cli_manifest_template("name: {{ vars.missing }}", &Vec::new())
        .expect_err("missing vars should fail");

    assert!(err.message().contains("Failed to render manifest template"));
}

#[test]
fn cli_fails_on_unknown_namespace() {
    let err = render_cli_manifest_template("name: {{ nope.value }}", &Vec::new())
        .expect_err("unknown namespaces should fail");

    assert!(err.message().contains("Failed to render manifest template"));
}

#[test]
fn cli_preserves_trimmed_filtered_repeated_and_adjacent_later_phase_variables() {
    let rendered = render_cli_manifest_template(
        "{{ vars.name }}:{{- namespace.name -}}{{ talon.now | upper }}{{ ctx.agent.name }}:{{ talon.now }}",
        &vars(&[("name", "coding")]),
    )
    .unwrap();

    assert_eq!(
        rendered,
        "coding:{{- namespace.name -}}{{ talon.now | upper }}{{ ctx.agent.name }}:{{ talon.now }}"
    );
}

#[test]
fn cli_fails_on_later_phase_control_blocks() {
    let err = render_cli_manifest_template("{% if talon.now %}now{% endif %}", &Vec::new())
        .expect_err("control blocks are not preserved for later phases");

    assert!(err.message().contains("Failed to render manifest template"));
}

#[test]
fn cli_fails_on_malformed_variable_tags() {
    let err = render_cli_manifest_template("now: {{ talon.now", &Vec::new())
        .expect_err("malformed variables should fail");

    assert!(err.message().contains("Failed to render manifest template"));
}

#[test]
fn resource_renders_owned_context_and_preserves_runtime_variables() {
    let rendered = render_resource_template(
        "name: {{ namespace.customerName }}\nnow: {{ talon.now }}",
        r#"{"namespace":{"customerName":"Acme"}}"#,
    )
    .unwrap();

    assert!(rendered.contains("name: Acme"));
    assert!(rendered.contains("now: {{ talon.now }}"));
}

#[test]
fn resource_fails_on_missing_owned_field() {
    let err = render_resource_template("name: {{ namespace.customerName }}", r#"{"namespace":{}}"#)
        .expect_err("missing namespace field should fail");

    assert!(err.message().contains("Failed to render resource template"));
}

#[test]
fn resource_preserves_adjacent_trimmed_and_filtered_runtime_variables() {
    let rendered = render_resource_template(
        "{{ namespace.customerName }}:{{- talon.now -}}{{ ctx.agent.name }}{{ talon.now | upper }}",
        r#"{"namespace":{"customerName":"Acme"}}"#,
    )
    .unwrap();

    assert_eq!(
        rendered,
        "Acme:{{- talon.now -}}{{ ctx.agent.name }}{{ talon.now | upper }}"
    );
}

#[test]
fn resource_fails_on_unknown_namespace_and_runtime_control_blocks() {
    for source in ["{{ random.value }}", "{% if talon.now %}now{% endif %}"] {
        render_resource_template(source, r#"{"namespace":{}}"#)
            .expect_err("resource templates should reject unsupported expressions");
    }
}

#[test]
fn passthrough_literalization_does_not_replace_user_sentinel_text() {
    let rendered = render_cli_manifest_template(
        "__TALON_TEMPLATE_PASSTHROUGH_0__ {{ talon.now }} {{ vars.name }}",
        &vars(&[("name", "coding")]),
    )
    .unwrap();

    assert_eq!(rendered, "__TALON_TEMPLATE_PASSTHROUGH_0__ {{ talon.now }} coding");
}

#[test]
fn passthrough_literalization_does_not_rewrite_owned_value_matching_old_sentinel() {
    let source = "{{ talon.now }} {{ vars.name }}";
    let old_deterministic_sentinel = format!("__TALON_TEMPLATE_PASSTHROUGH_{}0_0__", source.len());
    let rendered =
        render_cli_manifest_template(source, &vars(&[("name", &old_deterministic_sentinel)])).unwrap();

    assert_eq!(rendered, format!("{{{{ talon.now }}}} {old_deterministic_sentinel}"));
}

#[test]
fn runtime_renders_talon_now_as_utc_rfc3339_seconds() {
    let rendered = render_runtime_system_prompt_template("Now: {{ talon.now }}").unwrap();
    let timestamp = rendered.strip_prefix("Now: ").unwrap();

    assert!(timestamp.ends_with('Z'));
    assert_eq!(timestamp.len(), "2026-07-03T21:37:12Z".len());
    chrono::DateTime::parse_from_rfc3339(timestamp).unwrap();
}

#[test]
fn runtime_renders_post_history_prompt_talon_now() {
    let rendered = render_runtime_post_history_prompt_template("Post: {{ talon.now }}").unwrap();
    let timestamp = rendered.strip_prefix("Post: ").unwrap();

    assert!(timestamp.ends_with('Z'));
    assert_eq!(timestamp.len(), "2026-07-03T21:37:12Z".len());
    chrono::DateTime::parse_from_rfc3339(timestamp).unwrap();
}

#[test]
fn runtime_leaves_static_prompt_unchanged() {
    let prompt = "Answer like the configured agent.";

    assert_eq!(render_runtime_system_prompt_template(prompt).unwrap(), prompt);
}

#[test]
fn runtime_supports_trimmed_and_filtered_talon_now() {
    let rendered = render_runtime_system_prompt_template("{{- talon.now | upper -}}").unwrap();

    assert!(rendered.ends_with('Z'));
    chrono::DateTime::parse_from_rfc3339(&rendered).unwrap();
}

#[test]
fn runtime_fails_on_non_runtime_namespaces_and_unknown_talon_fields() {
    for prompt in ["{{ namespace.name }}", "{{ ctx.agent.name }}", "{{ talon.nope }}"] {
        render_runtime_system_prompt_template(prompt)
            .expect_err("runtime prompt should reject unsupported variables");
    }
}

#[test]
fn runtime_post_history_prompt_fails_on_unknown_variables() {
    let err = render_runtime_post_history_prompt_template("{{ talon.nope }}")
        .expect_err("unknown post-history prompt variables should fail");

    assert!(err.message().contains("Failed to render post-history prompt template"));
}

#[test]
fn runtime_supports_minijinja_literal_escaping() {
    let rendered =
        render_runtime_system_prompt_template(r#"Literal: {{ "{{ talon.now }}" }}"#).unwrap();

    assert_eq!(rendered, "Literal: {{ talon.now }}");
}

#[test]
fn runtime_prompts_render_at_a_given_time() {
    assert_eq!(
        render_runtime_system_prompt_template_at("At {{ talon.now }}", "2026-01-02T03:04:05Z").unwrap(),
        "At 2026-01-02T03:04:05Z"
    );
    assert_eq!(
        render_runtime_post_history_prompt_template_at("{{talon.now}}!", "T\"Z").unwrap(),
        "T\"Z!"
    );
    let err = render_runtime_system_prompt_template_at("{{ talon.nope }}", "x").unwrap_err();
    assert_eq!(err.failure.stage, TemplateStage::Render);
    let err = render_runtime_system_prompt_template_at("{{ talon.now", "x").unwrap_err();
    assert_eq!(err.failure.stage, TemplateStage::Compile);
}

#[test]
fn template_syntax_and_namespaces_are_detected() {
    assert!(contains_template_syntax("a {{ b }}"));
    assert!(contains_template_syntax("{% if %}"));
    assert!(contains_template_syntax("{# note #}"));
    assert!(!contains_template_syntax("{ plain } text"));
    assert_eq!(variable_namespace("{{ talon.now }}"), Some("talon".to_string()));
    assert_eq!(variable_namespace("{{- ctx.agent -}}"), Some("ctx".to_string()));
    assert_eq!(variable_namespace("{{ _x1 | upper }}"), Some("_x1".to_string()));
    assert_eq!(variable_namespace("{{ \"lit\" }}"), None);
    assert_eq!(variable_namespace("{{ 1 }}"), None);
    assert_eq!(variable_namespace("talon.now"), None);
}

#[test]
fn literalization_quotes_passthrough_tags_only() {
    assert_eq!(
        literalize_passthrough_variables("{{ talon.now }} {{ vars.x }}", &["talon"]),
        "{{ \"{{ talon.now }}\" }} {{ vars.x }}"
    );
    assert_eq!(
        literalize_passthrough_variables("a {{ talon.now", &["talon"]),
        "a {{ talon.now"
    );
    assert_eq!(
        literalize_passthrough_variables("{{ talon.now }}", &[]),
        "{{ talon.now }}"
    );
}
