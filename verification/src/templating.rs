//! Phase-owned `{{ ... }}` templates: each rendering phase resolves its own
//! variables and leaves the tags of later phases in place, as text.

use vstd::prelude::*;
use crate::digest::hex_digit_lower;
use crate::text::{
    chars_of, find_chars, first_occurrence, occurs_at, owned, push_char, push_str,
    str_eq, string_of, strip_prefix_text, strip_suffix_text, sub_chars, trim_ws_chars, trim_ws_text,
};

verus! {

/// Variable namespaces that manifest rendering leaves to later phases.
pub open spec fn cli_passthrough_namespaces() -> Seq<Seq<char>> {
    seq!["namespace"@, "deployment"@, "template"@, "talon"@, "ctx"@]
}

/// Variable namespaces that resource-template rendering leaves to runtime.
pub open spec fn resource_passthrough_namespaces() -> Seq<Seq<char>> {
    seq!["talon"@, "ctx"@]
}

/// `pat` occurs somewhere in `s`.
pub open spec fn contains_text(s: Seq<char>, pat: Seq<char>) -> bool {
    exists|i: int| occurs_at(s, pat, i)
}

/// `source` holds template syntax: a `{{`, `{%` or `{#`.
pub open spec fn has_template_syntax(source: Seq<char>) -> bool {
    contains_text(source, "{{"@) || contains_text(source, "{%"@) || contains_text(source, "{#"@)
}

fn contains_str(v: &Vec<char>, pat: &str) -> (r: bool)
    ensures
        r == contains_text(v@, pat@),
{
    let p = chars_of(pat);
    match find_chars(v, &p) {
        Some(_) => true,
        None => false,
    }
}

/// Whether `source` holds template syntax.
pub fn contains_template_syntax(source: &str) -> (r: bool)
    ensures
        r == has_template_syntax(source@),
{
    let v = chars_of(source);
    contains_str(&v, "{{") || contains_str(&v, "{%") || contains_str(&v, "{#")
}

/// A character that continues a variable name.
pub open spec fn is_name_char(c: char) -> bool {
    c == '_' || crate::text::is_ascii_alphanumeric(c)
}

/// The longest prefix of `s` made of name characters.
pub open spec fn name_prefix(s: Seq<char>) -> Seq<char>
    decreases s.len(),
{
    if s.len() > 0 && is_name_char(s[0]) {
        seq![s[0]] + name_prefix(s.drop_first())
    } else {
        seq![]
    }
}

/// The expression of a `{{ ... }}` tag: its inside, trimmed, without one
/// leading and one trailing `-` whitespace-control mark.
pub open spec fn tag_expression(inner: Seq<char>) -> Seq<char> {
    let t = trim_ws_text(inner);
    let a = trim_ws_text(
        match strip_prefix_text(t, "-"@) {
            Some(x) => x,
            None => t,
        },
    );
    trim_ws_text(
        match strip_suffix_text(a, "-"@) {
            Some(y) => y,
            None => a,
        },
    )
}

/// The namespace a `{{ ... }}` tag's expression starts with: the name it
/// begins with, when it begins with `_` or an ASCII letter.
pub open spec fn variable_namespace_text(tag: Seq<char>) -> Option<Seq<char>> {
    match strip_prefix_text(tag, "{{"@) {
        None => None,
        Some(after) => match strip_suffix_text(after, "}}"@) {
            None => None,
            Some(inner) => {
                let e = tag_expression(inner);
                if e.len() > 0 && (e[0] == '_' || crate::text::is_ascii_alphabetic(e[0])) {
                    Some(name_prefix(e))
                } else {
                    None
                }
            },
        },
    }
}

fn name_prefix_chars(v: &Vec<char>) -> (r: Vec<char>)
    ensures
        r@ == name_prefix(v@),
{
    let mut i: usize = 0;
    proof {
        assert(v@.skip(0) =~= v@);
        assert(v@.take(0) =~= Seq::<char>::empty());
    }
    while i < v.len() && (v[i] == '_' || crate::text::ascii_alphanumeric(v[i]))
        invariant
            i <= v.len(),
            forall|j: int| 0 <= j < i ==> is_name_char(#[trigger] v@[j]),
            name_prefix(v@) == v@.take(i as int) + name_prefix(v@.skip(i as int)),
        decreases v.len() - i,
    {
        proof {
            assert(v@.skip(i as int).drop_first() =~= v@.skip(i + 1));
            assert(v@.take(i + 1) =~= v@.take(i as int) + seq![v@[i as int]]);
        }
        i += 1;
    }
    proof {
        assert(name_prefix(v@.skip(i as int)) =~= Seq::<char>::empty());
    }
    sub_chars(v, 0, i)
}

/// The namespace a `{{ ... }}` tag's expression starts with, if any.
pub fn variable_namespace(tag: &str) -> (r: Option<String>)
    ensures
        match r {
            Some(n) => variable_namespace_text(tag@) == Some(n@),
            None => variable_namespace_text(tag@) is None,
        },
{
    let v = chars_of(tag);
    let after = match crate::text::strip_prefix_chars(&v, "{{") {
        Some(a) => a,
        None => {
            return None;
        },
    };
    let inner = match crate::text::strip_suffix_chars(&after, "}}") {
        Some(i) => i,
        None => {
            return None;
        },
    };
    let t = trim_ws_chars(&inner);
    let a = match crate::text::strip_prefix_chars(&t, "-") {
        Some(x) => trim_ws_chars(&x),
        None => trim_ws_chars(&t),
    };
    let e = match crate::text::strip_suffix_chars(&a, "-") {
        Some(y) => trim_ws_chars(&y),
        None => trim_ws_chars(&a),
    };
    if e.len() == 0 {
        return None;
    }
    if !(e[0] == '_' || crate::text::ascii_alphabetic(e[0])) {
        return None;
    }
    Some(string_of(&name_prefix_chars(&e)))
}

/// How `serde_json` writes the character `c` inside a JSON string: `"` and
/// `\\` escaped with a backslash, the control characters with a short escape
/// where JSON has one and as `\\u00XX` (lower-case hex) otherwise, every other
/// character as it is.
pub open spec fn json_escape(c: char) -> Seq<char> {
    if c == '"' {
        seq!['\\', '"']
    } else if c == '\\' {
        seq!['\\', '\\']
    } else if c == '\u{8}' {
        seq!['\\', 'b']
    } else if c == '\t' {
        seq!['\\', 't']
    } else if c == '\n' {
        seq!['\\', 'n']
    } else if c == '\u{c}' {
        seq!['\\', 'f']
    } else if c == '\r' {
        seq!['\\', 'r']
    } else if (c as int) < 0x20 {
        seq![
            '\\',
            'u',
            '0',
            '0',
            hex_digit_lower(((c as int) / 16) as u8),
            hex_digit_lower(((c as int) % 16) as u8),
        ]
    } else {
        seq![c]
    }
}

/// The characters of `s` escaped for a JSON string.
pub open spec fn json_escaped(s: Seq<char>) -> Seq<char>
    decreases s.len(),
{
    if s.len() == 0 {
        seq![]
    } else {
        json_escaped(s.drop_last()) + json_escape(s.last())
    }
}

/// `s` as a JSON string literal.
pub open spec fn json_quote(s: Seq<char>) -> Seq<char> {
    seq!['"'] + json_escaped(s) + seq!['"']
}

/// `serde_json::to_string` of a string: the JSON string literal of the
/// input, as `serde_json`'s string escaping writes it.  Serializing a `str`
/// does not fail.
#[verifier::external_body]
pub(crate) fn json_string(s: &str) -> (r: String)
    ensures
        r@ == json_quote(s@),
{
    serde_json::to_string(s).expect("string serialization cannot fail")
}

/// Whether `tag` names a variable of one of the namespaces `passthrough`.
pub open spec fn is_passthrough_tag(tag: Seq<char>, passthrough: Seq<Seq<char>>) -> bool {
    match variable_namespace_text(tag) {
        Some(n) => passthrough.contains(n),
        None => false,
    }
}

/// `rest` with every complete `{{ ... }}` tag of a passthrough namespace
/// replaced by a template expression whose value is the tag's text.
pub open spec fn literalize_text(rest: Seq<char>, passthrough: Seq<Seq<char>>) -> Seq<char>
    decreases rest.len(),
{
    match first_occurrence(rest, "{{"@) {
        Some(start) => if 0 <= start && start + 2 <= rest.len() {
            let tag_start = rest.subrange(start, rest.len() as int);
            match first_occurrence(tag_start, "}}"@) {
                Some(end) => if 0 <= end && end + 2 <= tag_start.len() {
                    let tag_end = start + end + 2;
                    let tag = rest.subrange(start, tag_end);
                    let replaced = if is_passthrough_tag(tag, passthrough) {
                        "{{ "@ + json_quote(tag) + " }}"@
                    } else {
                        tag
                    };
                    rest.subrange(0, start) + replaced + literalize_text(
                        rest.subrange(tag_end, rest.len() as int),
                        passthrough,
                    )
                } else {
                    rest
                },
                None => rest,
            }
        } else {
            rest
        },
        None => rest,
    }
}

/// The template a phase hands to the renderer: `source` with the tags of
/// later phases made literal; without passthrough namespaces, `source`.
pub open spec fn literalized(source: Seq<char>, passthrough: Seq<Seq<char>>) -> Seq<char> {
    if passthrough.len() == 0 {
        source
    } else {
        literalize_text(source, passthrough)
    }
}

/// The views of a list of names.
pub open spec fn names_view(names: Seq<&str>) -> Seq<Seq<char>> {
    names.map_values(|n: &str| n@)
}

fn is_passthrough(tag: &str, passthrough: &[&str]) -> (r: bool)
    ensures
        r == is_passthrough_tag(tag@, names_view(passthrough@)),
{
    let namespace = match variable_namespace(tag) {
        Some(n) => n,
        None => {
            return false;
        },
    };
    let mut i: usize = 0;
    while i < passthrough.len()
        invariant
            i <= passthrough.len(),
            variable_namespace_text(tag@) == Some(namespace@),
            forall|j: int| 0 <= j < i ==> names_view(passthrough@)[j] != namespace@,
        decreases passthrough.len() - i,
    {
        if str_eq(passthrough[i], namespace.as_str()) {
            assert(names_view(passthrough@)[i as int] == namespace@);
            assert(names_view(passthrough@).contains(namespace@));
            return true;
        }
        i += 1;
    }
    false
}

/// `source` with the `{{ ... }}` tags of the namespaces `passthrough` made
/// literal, so that rendering gives them back as text.
pub fn literalize_passthrough_variables(source: &str, passthrough: &[&str]) -> (r: String)
    ensures
        r@ == literalized(source@, names_view(passthrough@)),
{
    if passthrough.len() == 0 {
        return owned(source);
    }
    let ghost ns = names_view(passthrough@);
    let open_pat = chars_of("{{");
    let close_pat = chars_of("}}");
    proof {
        reveal_strlit("{{");
        reveal_strlit("}}");
    }
    let mut output = String::new();
    let mut rest = chars_of(source);
    loop
        invariant_except_break
            open_pat@ == "{{"@,
            close_pat@ == "}}"@,
            "{{"@.len() == 2,
            "}}"@.len() == 2,
            ns == names_view(passthrough@),
            literalize_text(source@, ns) == output@ + literalize_text(rest@, ns),
        ensures
            literalize_text(source@, ns) == output@ + rest@,
        decreases rest.len(),
    {
        let start = match find_chars(&rest, &open_pat) {
            Some(start) => start,
            None => {
                break;
            },
        };
        let tag_start = sub_chars(&rest, start, rest.len());
        let end = match find_chars(&tag_start, &close_pat) {
            Some(end) => end,
            None => {
                break;
            },
        };
        let tag_end = start + end + 2;
        let tag = string_of(&sub_chars(&rest, start, tag_end));
        let before = string_of(&sub_chars(&rest, 0, start));
        let ghost out0 = output@;
        push_str(&mut output, before.as_str());
        let passes = is_passthrough(tag.as_str(), passthrough);
        if passes {
            push_str(&mut output, "{{ ");
            push_str(&mut output, json_string(tag.as_str()).as_str());
            push_str(&mut output, " }}");
        } else {
            push_str(&mut output, tag.as_str());
        }
        let next = sub_chars(&rest, tag_end, rest.len());
        proof {
            assert(rest@.subrange(start as int, rest.len() as int) =~= tag_start@);
            assert(tag_start@.subrange(0, end + 2) =~= rest@.subrange(start as int, tag_end as int));
            let replaced = if passes {
                "{{ "@ + json_quote(tag@) + " }}"@
            } else {
                tag@
            };
            assert(literalize_text(rest@, ns) == rest@.subrange(0, start as int) + replaced
                + literalize_text(next@, ns));
            assert(output@ =~= out0 + rest@.subrange(0, start as int) + replaced);
        }
        rest = next;
    }
    push_str(&mut output, string_of(&rest).as_str());
    output
}

/// Which step of rendering failed.
#[derive(Clone, Copy, Debug, PartialEq, Eq, Structural)]
pub enum TemplateStage {
    /// The context was not a JSON value.
    Context,
    /// The template did not compile.
    Compile,
    /// The template could not be looked up.
    Missing,
    /// Rendering failed, for one because a variable is undefined.
    Render,
    /// The current time could not be read: the clock is before 1970.
    Clock,
}

/// A failed rendering step and what the renderer said.
#[derive(Clone, Debug)]
pub struct RenderFailure {
    pub stage: TemplateStage,
    pub detail: String,
}

/// What rendering the template `source` named `name` with the JSON context
/// `context_json` gives in `minijinja` with undefined variables an error,
/// or `None` when a step fails.
pub uninterp spec fn jinja_render(name: Seq<char>, source: Seq<char>, context_json: Seq<char>) -> Option<
    Seq<char>,
>;

/// Renders `source` as the template `name` in a `minijinja::Environment`
/// with `UndefinedBehavior::Strict`, over the context parsed from JSON by
/// `serde_json`: `Ok` exactly when [`jinja_render`] is defined, with its
/// text.  Which step failed, and the renderer's words, are handed on.
#[verifier::external_body]
fn render_strict(name: &str, source: &str, context_json: &str) -> (r: Result<String, RenderFailure>)
    ensures
        r is Ok <==> jinja_render(name@, source@, context_json@) is Some,
        r matches Ok(t) ==> jinja_render(name@, source@, context_json@) == Some(t@),
{
    let context: serde_json::Value = match serde_json::from_str(context_json) {
        Ok(value) => value,
        Err(e) => return Err(RenderFailure { stage: TemplateStage::Context, detail: e.to_string() }),
    };
    let mut env = minijinja::Environment::new();
    env.set_undefined_behavior(minijinja::UndefinedBehavior::Strict);
    if let Err(e) = env.add_template(name, source) {
        return Err(RenderFailure { stage: TemplateStage::Compile, detail: e.to_string() });
    }
    match env.get_template(name) {
        Ok(t) => t.render(context).map_err(|e| RenderFailure { stage: TemplateStage::Render, detail: e.to_string() }),
        Err(e) => Err(RenderFailure { stage: TemplateStage::Missing, detail: e.to_string() }),
    }
}

/// Whether `c` is one of `0`-`9`.
pub open spec fn is_digit_char(c: char) -> bool {
    '0' <= c && c <= '9'
}

/// Whether `t` is a UTC time in RFC 3339 with whole seconds and `Z`: a
/// year of digits (a `+` before years past 9999), then
/// `-MM-DDTHH:MM:SSZ`.
pub open spec fn rfc3339_utc_shape(t: Seq<char>) -> bool {
    let n = t.len() as int;
    &&& n >= 20
    &&& forall|i: int| 0 <= i < n - 16 ==> is_digit_char(#[trigger] t[i]) || (i == 0 && t[i] == '+')
    &&& t[n - 16] == '-' && is_digit_char(t[n - 15]) && is_digit_char(t[n - 14])
    &&& t[n - 13] == '-' && is_digit_char(t[n - 12]) && is_digit_char(t[n - 11])
    &&& t[n - 10] == 'T' && is_digit_char(t[n - 9]) && is_digit_char(t[n - 8])
    &&& t[n - 7] == ':' && is_digit_char(t[n - 6]) && is_digit_char(t[n - 5])
    &&& t[n - 4] == ':' && is_digit_char(t[n - 3]) && is_digit_char(t[n - 2])
    &&& t[n - 1] == 'Z'
}

/// The current time in UTC as RFC 3339 with whole seconds and `Z`, as
/// `chrono::Utc::now().to_rfc3339_opts(SecondsFormat::Secs, true)` writes
/// it; nothing when the system clock reads before the Unix epoch or past
/// what `chrono::DateTime::from_timestamp` takes (where `Utc::now` would
/// panic). It depends on the clock: all that is stated of the text is its
/// shape.
#[verifier::external_body]
fn utc_now_rfc3339() -> (r: Option<String>)
    ensures
        r matches Some(t) ==> rfc3339_utc_shape(t@),
{
    let since = std::time::SystemTime::now().duration_since(std::time::UNIX_EPOCH).ok()?;
    let secs = i64::try_from(since.as_secs()).ok()?;
    let now = chrono::DateTime::from_timestamp(secs, since.subsec_nanos())?;
    Some(now.to_rfc3339_opts(chrono::SecondsFormat::Secs, true))
}

/// The failure of a runtime rendering whose clock could not be read.
fn clock_failure(context: &str) -> (r: TemplateError)
    ensures
        r.context@ == context@,
        r.failure.stage == TemplateStage::Clock,
{
    TemplateError {
        context: owned(context),
        failure: RenderFailure {
            stage: TemplateStage::Clock,
            detail: owned("system clock is before the Unix epoch"),
        },
    }
}

/// A template that could not be rendered.
#[derive(Clone, Debug)]
pub struct TemplateError {
    /// What was being rendered, as the error describes it.
    pub context: String,
    pub failure: RenderFailure,
}

impl TemplateError {
    /// A description of the error: what was being rendered.
    pub fn message(&self) -> (m: String)
        ensures
            m@ == self.context@,
    {
        self.context.clone()
    }
}

/// `r` is the outcome of a rendering that gave `rendered`, failing with the
/// description `context`.
pub open spec fn render_outcome_is(
    r: Result<String, TemplateError>,
    rendered: Option<Seq<char>>,
    context: Seq<char>,
) -> bool {
    match (r, rendered) {
        (Ok(s), Some(t)) => s@ == t,
        (Err(e), None) => e.context@ == context,
        _ => false,
    }
}

/// Gives a failed rendering its description.
pub fn with_template_context(rendered: Result<String, RenderFailure>, context: &str) -> (r: Result<
    String,
    TemplateError,
>)
    ensures
        render_outcome_is(
            r,
            match rendered {
                Ok(t) => Some(t@),
                Err(_) => None,
            },
            context@,
        ),
        rendered matches Err(f) ==> r matches Err(e) && e.failure.stage == f.stage,
{
    match rendered {
        Ok(t) => Ok(t),
        Err(failure) => Err(TemplateError { context: owned(context), failure }),
    }
}

/// The JSON context of runtime templates: `talon.now` is `now`.
pub open spec fn talon_now_context(now: Seq<char>) -> Seq<char> {
    "{"@ + json_quote("talon"@) + ":{"@ + json_quote("now"@) + ":"@ + json_quote(now) + "}}"@
}

fn talon_now_context_json(now: &str) -> (r: String)
    ensures
        r@ == talon_now_context(now@),
{
    let mut r = String::new();
    push_str(&mut r, "{");
    push_str(&mut r, json_string("talon").as_str());
    push_str(&mut r, ":{");
    push_str(&mut r, json_string("now").as_str());
    push_str(&mut r, ":");
    push_str(&mut r, json_string(now).as_str());
    push_str(&mut r, "}}");
    r
}

/// What rendering a runtime prompt `prompt`, as the template `name`, at the
/// time `now`, gives: the prompt itself when it has no template syntax.
pub open spec fn runtime_render(name: Seq<char>, prompt: Seq<char>, now: Seq<char>) -> Option<Seq<char>> {
    if !has_template_syntax(prompt) {
        Some(prompt)
    } else {
        jinja_render(name, prompt, talon_now_context(now))
    }
}

/// Renders the system prompt at the time `now` (RFC 3339 text).
pub fn render_runtime_system_prompt_template_at(system_prompt: &str, now: &str) -> (r: Result<
    String,
    TemplateError,
>)
    ensures
        render_outcome_is(
            r,
            runtime_render("system_prompt"@, system_prompt@, now@),
            "Failed to render system prompt template"@,
        ),
{
    if !contains_template_syntax(system_prompt) {
        return Ok(owned(system_prompt));
    }
    let context = talon_now_context_json(now);
    with_template_context(
        render_strict("system_prompt", system_prompt, context.as_str()),
        "Failed to render system prompt template",
    )
}

/// Renders the system prompt, with `talon.now` the current time: the prompt
/// itself when it has no template syntax.
pub fn render_runtime_system_prompt_template(system_prompt: &str) -> (r: Result<String, TemplateError>)
    ensures
        !has_template_syntax(system_prompt@) ==> (r matches Ok(s) && s@ == system_prompt@),
        (r matches Err(e) && e.failure.stage == TemplateStage::Clock && e.context@ == "Failed to render system prompt template"@)
            || exists|now: Seq<char>|
            rfc3339_utc_shape(now) && render_outcome_is(
                r,
                #[trigger] runtime_render("system_prompt"@, system_prompt@, now),
                "Failed to render system prompt template"@,
            ),
{
    if !contains_template_syntax(system_prompt) {
        let r = Ok(owned(system_prompt));
        proof {
            let now = seq!['1', '9', '7', '0', '-', '0', '1', '-', '0', '1', 'T', '0', '0', ':', '0', '0', ':', '0', '0', 'Z'];
            assert(rfc3339_utc_shape(now));
            assert(render_outcome_is(r, runtime_render("system_prompt"@, system_prompt@, now), "Failed to render system prompt template"@));
        }
        return r;
    }
    let now = match utc_now_rfc3339() {
        Some(t) => t,
        None => {
            return Err(clock_failure("Failed to render system prompt template"));
        },
    };
    render_runtime_system_prompt_template_at(system_prompt, now.as_str())
}

/// Renders the post-history prompt at the time `now` (RFC 3339 text).
pub fn render_runtime_post_history_prompt_template_at(post_history_prompt: &str, now: &str) -> (r:
    Result<String, TemplateError>)
    ensures
        render_outcome_is(
            r,
            runtime_render("post_history_prompt"@, post_history_prompt@, now@),
            "Failed to render post-history prompt template"@,
        ),
{
    if !contains_template_syntax(post_history_prompt) {
        return Ok(owned(post_history_prompt));
    }
    let context = talon_now_context_json(now);
    with_template_context(
        render_strict("post_history_prompt", post_history_prompt, context.as_str()),
        "Failed to render post-history prompt template",
    )
}

/// Renders the post-history prompt, with `talon.now` the current time: the
/// prompt itself when it has no template syntax.
pub fn render_runtime_post_history_prompt_template(post_history_prompt: &str) -> (r: Result<
    String,
    TemplateError,
>)
    ensures
        !has_template_syntax(post_history_prompt@) ==> (r matches Ok(s) && s@ == post_history_prompt@),
        (r matches Err(e) && e.failure.stage == TemplateStage::Clock && e.context@ == "Failed to render post-history prompt template"@)
            || exists|now: Seq<char>|
            rfc3339_utc_shape(now) && render_outcome_is(
                r,
                #[trigger] runtime_render("post_history_prompt"@, post_history_prompt@, now),
                "Failed to render post-history prompt template"@,
            ),
{
    if !contains_template_syntax(post_history_prompt) {
        let r = Ok(owned(post_history_prompt));
        proof {
            let now = seq!['1', '9', '7', '0', '-', '0', '1', '-', '0', '1', 'T', '0', '0', ':', '0', '0', ':', '0', '0', 'Z'];
            assert(rfc3339_utc_shape(now));
            assert(render_outcome_is(r, runtime_render("post_history_prompt"@, post_history_prompt@, now), "Failed to render post-history prompt template"@));
        }
        return r;
    }
    let now = match utc_now_rfc3339() {
        Some(t) => t,
        None => {
            return Err(clock_failure("Failed to render post-history prompt template"));
        },
    };
    render_runtime_post_history_prompt_template_at(post_history_prompt, now.as_str())
}

/// What a rendering phase gives for `source`: `source` itself when it has
/// no template syntax, else the rendering of `source` with the tags of the
/// namespaces `passthrough` made literal.
pub open spec fn phase_render(
    name: Seq<char>,
    source: Seq<char>,
    context_json: Seq<char>,
    passthrough: Seq<Seq<char>>,
) -> Option<Seq<char>> {
    if !has_template_syntax(source) {
        Some(source)
    } else {
        jinja_render(name, literalized(source, passthrough), context_json)
    }
}

fn render_phase_template(template_name: &str, source: &str, context_json: &str, passthrough: &[&str]) -> (r:
    Result<String, RenderFailure>)
    ensures
        match (r, phase_render(template_name@, source@, context_json@, names_view(passthrough@))) {
            (Ok(s), Some(t)) => s@ == t,
            (Err(_), None) => true,
            _ => false,
        },
{
    if !contains_template_syntax(source) {
        return Ok(owned(source));
    }
    let masked = literalize_passthrough_variables(source, passthrough);
    render_strict(template_name, masked.as_str(), context_json)
}

/// The JSON context of manifest templates: `vars` holds the variables.
pub open spec fn vars_context(vars: Seq<(String, String)>) -> Seq<char> {
    "{"@ + json_quote("vars"@) + ":{"@ + crate::text::join_on(
        vars.map_values(|e: (String, String)| json_quote(e.0@) + ":"@ + json_quote(e.1@)),
        ',',
    ) + "}}"@
}

fn vars_context_json(vars: &Vec<(String, String)>) -> (r: String)
    ensures
        r@ == vars_context(vars@),
{
    let ghost entries = vars@.map_values(|e: (String, String)| json_quote(e.0@) + ":"@ + json_quote(e.1@));
    let mut body = String::new();
    let mut i: usize = 0;
    while i < vars.len()
        invariant
            i <= vars.len(),
            entries == vars@.map_values(|e: (String, String)| json_quote(e.0@) + ":"@ + json_quote(e.1@)),
            body@ == crate::text::join_on(entries.take(i as int), ','),
        decreases vars.len() - i,
    {
        let ghost before = body@;
        if i > 0 {
            push_char(&mut body, ',');
        }
        push_str(&mut body, json_string(vars[i].0.as_str()).as_str());
        push_str(&mut body, ":");
        push_str(&mut body, json_string(vars[i].1.as_str()).as_str());
        proof {
            let t = entries.take(i + 1);
            assert(t.drop_last() =~= entries.take(i as int));
            assert(t.last() == entries[i as int]);
            if i == 0 {
                assert(t.len() == 1);
                assert(body@ =~= entries[0]);
            } else {
                assert(body@ =~= before + seq![','] + entries[i as int]);
            }
        }
        i += 1;
    }
    assert(entries.take(vars.len() as int) =~= entries);
    let mut r = String::new();
    push_str(&mut r, "{");
    push_str(&mut r, json_string("vars").as_str());
    push_str(&mut r, ":{");
    push_str(&mut r, body.as_str());
    push_str(&mut r, "}}");
    r
}

/// Renders a manifest template: `vars.*` resolve to `vars`; the tags of the
/// `namespace`, `deployment`, `template`, `talon` and `ctx` namespaces are
/// left in place for later phases.
pub fn render_cli_manifest_template(source: &str, vars: &Vec<(String, String)>) -> (r: Result<
    String,
    TemplateError,
>)
    ensures
        render_outcome_is(
            r,
            phase_render("manifest"@, source@, vars_context(vars@), cli_passthrough_namespaces()),
            "Failed to render manifest template"@,
        ),
{
    let passthrough: [&str; 5] = ["namespace", "deployment", "template", "talon", "ctx"];
    assert(names_view(passthrough@) =~= cli_passthrough_namespaces());
    let context = vars_context_json(vars);
    let rendered = render_phase_template("manifest", source, context.as_str(), &passthrough);
    with_template_context(rendered, "Failed to render manifest template")
}

/// Renders a resource template over the JSON context `context_json`; the
/// tags of the `talon` and `ctx` namespaces are left in place for runtime.
pub fn render_resource_template(source: &str, context_json: &str) -> (r: Result<String, TemplateError>)
    ensures
        render_outcome_is(
            r,
            phase_render("resource_template"@, source@, context_json@, resource_passthrough_namespaces()),
            "Failed to render resource template"@,
        ),
{
    let passthrough: [&str; 2] = ["talon", "ctx"];
    assert(names_view(passthrough@) =~= resource_passthrough_namespaces());
    let rendered = render_phase_template("resource_template", source, context_json, &passthrough);
    with_template_context(rendered, "Failed to render resource template")
}

} // verus!
