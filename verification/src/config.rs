//! Checks on configuration documents: OIDC trust entries and their grants,
//! model provider settings, and `${VAR}` placeholders.

use vstd::prelude::*;
use crate::fields::{meta_lookup, meta_pairs, metadata_get};
use crate::text::{
    blank, chars_of, find_char, first_index, first_occurrence, find_chars, is_blank, owned, push_str, str_eq, sub_chars, trim_ws_chars, trim_ws_text,
};

verus! {

/// What an OIDC trust grant allows.
#[derive(Clone, Copy, Debug, PartialEq, Eq, Structural)]
pub enum OidcGrantKind {
    Read,
    Readwrite,
}

/// A grant of an OIDC trust entry: what it allows and the resources it is
/// narrowed to (blank for any).
#[derive(Clone, Debug)]
pub struct OidcTrustGrant {
    pub kind: OidcGrantKind,
    pub namespace: String,
    pub agent: String,
    pub session: String,
    pub channel: String,
}

/// An OIDC issuer trusted to call in, as the configuration gives it.
#[derive(Clone, Debug)]
pub struct OidcTrustEntry {
    pub name: String,
    pub issuer: String,
    pub audience: Option<String>,
    pub audiences: Vec<String>,
    pub allowed_domains: Vec<String>,
    pub allowed_emails: Vec<String>,
    pub jwks_url: Option<String>,
    pub clock_skew_seconds: Option<u32>,
    pub grants: Vec<OidcTrustGrant>,
}

/// The trusted OIDC issuers of a configuration.
#[derive(Clone, Debug)]
pub struct TrustConfig {
    pub oidc: Vec<OidcTrustEntry>,
}

/// What is wrong with a trust configuration.
#[derive(Clone, Copy, Debug, PartialEq, Eq, Structural)]
pub enum TrustProblem {
    EmptyName,
    EmptyIssuer,
    NoAudience,
    NoGrant,
    AgentWithoutNamespace,
    SessionWithoutNamespaceAndAgent,
    ChannelWithoutNamespace,
    ChannelWithAgentOrSession,
}

/// A problem of the trust entry named `entry`.
#[derive(Clone, Debug)]
pub struct TrustConfigError {
    pub entry: String,
    pub problem: TrustProblem,
}

/// What follows the entry's name in the description of a trust problem.
pub open spec fn trust_problem_text(p: TrustProblem) -> Seq<char> {
    match p {
        TrustProblem::EmptyName => "'"@,
        TrustProblem::EmptyIssuer => "' issuer cannot be empty"@,
        TrustProblem::NoAudience => "' must declare at least one audience"@,
        TrustProblem::NoGrant => "' must declare at least one grant"@,
        TrustProblem::AgentWithoutNamespace => "' grant with agent selector must include namespace"@,
        TrustProblem::SessionWithoutNamespaceAndAgent => "' grant with session selector must include namespace and agent"@,
        TrustProblem::ChannelWithoutNamespace => "' grant with channel selector must include namespace"@,
        TrustProblem::ChannelWithAgentOrSession => "' grant cannot combine channel with agent or session selectors"@,
    }
}

/// The description of a trust configuration error: an entry without a name
/// is described without one.
pub open spec fn trust_error_text(e: TrustConfigError) -> Seq<char> {
    if e.problem == TrustProblem::EmptyName {
        "trust.oidc entry name cannot be empty"@
    } else {
        "trust.oidc entry '"@ + e.entry@ + trust_problem_text(e.problem)
    }
}

impl TrustConfigError {
    /// A description of the error.
    pub fn message(&self) -> (r: String)
        ensures
            r@ == trust_error_text(*self),
    {
        let mut m = String::new();
        match self.problem {
            TrustProblem::EmptyName => {
                push_str(&mut m, "trust.oidc entry name cannot be empty");
                return m;
            },
            _ => {},
        }
        push_str(&mut m, "trust.oidc entry '");
        push_str(&mut m, self.entry.as_str());
        push_str(
            &mut m,
            match self.problem {
                TrustProblem::EmptyName => "'",
                TrustProblem::EmptyIssuer => "' issuer cannot be empty",
                TrustProblem::NoAudience => "' must declare at least one audience",
                TrustProblem::NoGrant => "' must declare at least one grant",
                TrustProblem::AgentWithoutNamespace => "' grant with agent selector must include namespace",
                TrustProblem::SessionWithoutNamespaceAndAgent => "' grant with session selector must include namespace and agent",
                TrustProblem::ChannelWithoutNamespace => "' grant with channel selector must include namespace",
                TrustProblem::ChannelWithAgentOrSession => "' grant cannot combine channel with agent or session selectors",
            },
        );
        m
    }
}

/// What is wrong with a grant, if anything: an agent needs a namespace, a
/// session a namespace and an agent, a channel a namespace and neither agent
/// nor session (all read trimmed).
pub open spec fn grant_problem(g: OidcTrustGrant) -> Option<TrustProblem> {
    let namespace = trim_ws_text(g.namespace@);
    let agent = trim_ws_text(g.agent@);
    let session = trim_ws_text(g.session@);
    let channel = trim_ws_text(g.channel@);
    if agent.len() > 0 && namespace.len() == 0 {
        Some(TrustProblem::AgentWithoutNamespace)
    } else if session.len() > 0 && (namespace.len() == 0 || agent.len() == 0) {
        Some(TrustProblem::SessionWithoutNamespaceAndAgent)
    } else if channel.len() > 0 && namespace.len() == 0 {
        Some(TrustProblem::ChannelWithoutNamespace)
    } else if channel.len() > 0 && (agent.len() > 0 || session.len() > 0) {
        Some(TrustProblem::ChannelWithAgentOrSession)
    } else {
        None
    }
}

/// Checks a grant of the trust entry `entry_name`.
pub fn validate_oidc_trust_grant(entry_name: &str, grant: &OidcTrustGrant) -> (r: Result<(), TrustConfigError>)
    ensures
        match grant_problem(*grant) {
            Some(p) => r matches Err(e) && e.problem == p && e.entry@ == entry_name@,
            None => r is Ok,
        },
{
    let namespace = trim_ws_chars(&chars_of(grant.namespace.as_str()));
    let agent = trim_ws_chars(&chars_of(grant.agent.as_str()));
    let session = trim_ws_chars(&chars_of(grant.session.as_str()));
    let channel = trim_ws_chars(&chars_of(grant.channel.as_str()));
    let problem = if agent.len() > 0 && namespace.len() == 0 {
        Some(TrustProblem::AgentWithoutNamespace)
    } else if session.len() > 0 && (namespace.len() == 0 || agent.len() == 0) {
        Some(TrustProblem::SessionWithoutNamespaceAndAgent)
    } else if channel.len() > 0 && namespace.len() == 0 {
        Some(TrustProblem::ChannelWithoutNamespace)
    } else if channel.len() > 0 && (agent.len() > 0 || session.len() > 0) {
        Some(TrustProblem::ChannelWithAgentOrSession)
    } else {
        None
    };
    match problem {
        Some(p) => Err(TrustConfigError { entry: owned(entry_name), problem: p }),
        None => Ok(()),
    }
}

/// The first problem among `grants`, if any.
pub open spec fn grants_problem(grants: Seq<OidcTrustGrant>) -> Option<TrustProblem>
    decreases grants.len(),
{
    if grants.len() == 0 {
        None
    } else {
        match grant_problem(grants[0]) {
            Some(p) => Some(p),
            None => grants_problem(grants.drop_first()),
        }
    }
}

/// The entry declares no audience: its audience and all its audiences are
/// blank.
pub open spec fn lacks_audience(e: OidcTrustEntry) -> bool {
    (match e.audience {
        Some(a) => is_blank(a@),
        None => true,
    }) && forall|i: int| 0 <= i < e.audiences@.len() ==> is_blank(#[trigger] e.audiences@[i]@)
}

/// What is wrong with a trust entry, if anything.
pub open spec fn entry_problem(e: OidcTrustEntry) -> Option<TrustProblem> {
    if is_blank(e.name@) {
        Some(TrustProblem::EmptyName)
    } else if is_blank(e.issuer@) {
        Some(TrustProblem::EmptyIssuer)
    } else if lacks_audience(e) {
        Some(TrustProblem::NoAudience)
    } else if e.grants@.len() == 0 {
        Some(TrustProblem::NoGrant)
    } else {
        grants_problem(e.grants@)
    }
}

/// The first problem among trust entries, with the entry's name.
pub open spec fn entries_problem(entries: Seq<OidcTrustEntry>) -> Option<(Seq<char>, TrustProblem)>
    decreases entries.len(),
{
    if entries.len() == 0 {
        None
    } else {
        match entry_problem(entries[0]) {
            Some(p) => Some((entries[0].name@, p)),
            None => entries_problem(entries.drop_first()),
        }
    }
}

fn all_blank(v: &Vec<String>) -> (r: bool)
    ensures
        r == forall|i: int| 0 <= i < v@.len() ==> is_blank(#[trigger] v@[i]@),
{
    let mut i: usize = 0;
    while i < v.len()
        invariant
            i <= v.len(),
            forall|j: int| 0 <= j < i ==> is_blank(#[trigger] v@[j]@),
        decreases v.len() - i,
    {
        if !blank(v[i].as_str()) {
            return false;
        }
        i += 1;
    }
    true
}

fn validate_entry(entry: &OidcTrustEntry) -> (r: Result<(), TrustConfigError>)
    ensures
        match entry_problem(*entry) {
            Some(p) => r matches Err(e) && e.problem == p && e.entry@ == entry.name@,
            None => r is Ok,
        },
{
    let fail = |p: TrustProblem| -> (e: TrustConfigError)
        ensures
            e.problem == p,
            e.entry@ == entry.name@,
        { TrustConfigError { entry: entry.name.clone(), problem: p } };
    if blank(entry.name.as_str()) {
        return Err(fail(TrustProblem::EmptyName));
    }
    if blank(entry.issuer.as_str()) {
        return Err(fail(TrustProblem::EmptyIssuer));
    }
    let audience_blank = match &entry.audience {
        Some(a) => blank(a.as_str()),
        None => true,
    };
    if audience_blank && all_blank(&entry.audiences) {
        return Err(fail(TrustProblem::NoAudience));
    }
    if entry.grants.len() == 0 {
        return Err(fail(TrustProblem::NoGrant));
    }
    let mut k: usize = 0;
    assert(entry.grants@.skip(0) =~= entry.grants@);
    while k < entry.grants.len()
        invariant
            k <= entry.grants.len(),
            !is_blank(entry.name@),
            !is_blank(entry.issuer@),
            !lacks_audience(*entry),
            entry.grants@.len() > 0,
            grants_problem(entry.grants@) == grants_problem(entry.grants@.skip(k as int)),
        decreases entry.grants.len() - k,
    {
        assert(entry.grants@.skip(k as int).drop_first() =~= entry.grants@.skip(k + 1));
        match validate_oidc_trust_grant(entry.name.as_str(), &entry.grants[k]) {
            Ok(()) => {},
            Err(e) => {
                return Err(e);
            },
        }
        k += 1;
    }
    Ok(())
}

/// Checks the trusted OIDC issuers, if any: the first problem of the first
/// entry that has one is reported.
pub fn validate_trust_config(trust: &Option<TrustConfig>) -> (r: Result<(), TrustConfigError>)
    ensures
        match trust {
            None => r is Ok,
            Some(t) => match entries_problem(t.oidc@) {
                Some((name, p)) => r matches Err(e) && e.problem == p && e.entry@ == name,
                None => r is Ok,
            },
        },
{
    let t = match trust {
        Some(t) => t,
        None => {
            return Ok(());
        },
    };
    let mut i: usize = 0;
    assert(t.oidc@.skip(0) =~= t.oidc@);
    while i < t.oidc.len()
        invariant
            i <= t.oidc.len(),
            *trust == Some(*t),
            entries_problem(t.oidc@) == entries_problem(t.oidc@.skip(i as int)),
        decreases t.oidc.len() - i,
    {
        assert(t.oidc@.skip(i as int).drop_first() =~= t.oidc@.skip(i + 1));
        match validate_entry(&t.oidc[i]) {
            Ok(()) => {},
            Err(e) => {
                return Err(e);
            },
        }
        i += 1;
    }
    Ok(())
}

/// The kind of a model provider.
#[derive(Clone, Copy, Debug, PartialEq, Eq, Structural)]
pub enum ProviderKind {
    Openai,
    Anthropic,
    Google,
    OpenaiCompatible,
}

/// A configured model provider, as far as validation reads it.
#[derive(Clone, Debug)]
pub struct ProviderSettings {
    pub name: String,
    pub kind: ProviderKind,
    /// The OpenAI API flavour, for OpenAI providers.
    pub api: Option<String>,
}

/// An OpenAI provider with an API flavour other than `responses` or
/// `chat_completions`.
#[derive(Clone, Debug)]
pub struct InvalidProviderApi {
    pub name: String,
    pub api: String,
}

/// The description of a provider with an invalid API flavour.
pub open spec fn invalid_provider_api_text(e: InvalidProviderApi) -> Seq<char> {
    "provider '"@ + e.name@ + "' has invalid api '"@ + e.api@ + "'; expected 'responses' or 'chat_completions'"@
}

impl InvalidProviderApi {
    /// A description of the error.
    pub fn message(&self) -> (r: String)
        ensures
            r@ == invalid_provider_api_text(*self),
    {
        let mut m = String::new();
        push_str(&mut m, "provider '");
        push_str(&mut m, self.name.as_str());
        push_str(&mut m, "' has invalid api '");
        push_str(&mut m, self.api.as_str());
        push_str(&mut m, "'; expected 'responses' or 'chat_completions'");
        m
    }
}

/// The invalid API flavour of a provider, trimmed, if it has one.
pub open spec fn provider_api_problem(p: ProviderSettings) -> Option<Seq<char>> {
    if p.kind != ProviderKind::Openai {
        None
    } else {
        let v = trim_ws_text(
            match p.api {
                Some(a) => a@,
                None => Seq::<char>::empty(),
            },
        );
        if v.len() > 0 && v != "responses"@ && v != "chat_completions"@ {
            Some(v)
        } else {
            None
        }
    }
}

/// The first provider with an invalid API flavour, with that flavour.
pub open spec fn providers_problem(ps: Seq<ProviderSettings>) -> Option<(Seq<char>, Seq<char>)>
    decreases ps.len(),
{
    if ps.len() == 0 {
        None
    } else {
        match provider_api_problem(ps[0]) {
            Some(v) => Some((ps[0].name@, v)),
            None => providers_problem(ps.drop_first()),
        }
    }
}

/// Checks the API flavour of every OpenAI provider, in order.
pub fn validate_provider_config(providers: &Vec<ProviderSettings>) -> (r: Result<(), InvalidProviderApi>)
    ensures
        match providers_problem(providers@) {
            Some((name, api)) => r matches Err(e) && e.name@ == name && e.api@ == api,
            None => r is Ok,
        },
{
    let mut i: usize = 0;
    assert(providers@.skip(0) =~= providers@);
    while i < providers.len()
        invariant
            i <= providers.len(),
            providers_problem(providers@) == providers_problem(providers@.skip(i as int)),
        decreases providers.len() - i,
    {
        assert(providers@.skip(i as int).drop_first() =~= providers@.skip(i + 1));
        let p = &providers[i];
        if p.kind == ProviderKind::Openai {
            let v = match &p.api {
                Some(a) => trim_ws_chars(&chars_of(a.as_str())),
                None => {
                    let empty: Vec<char> = Vec::new();
                    empty
                },
            };
            proof {
                if p.api is None {
                    assert(trim_ws_text(Seq::<char>::empty()) =~= Seq::<char>::empty()) by {
                        reveal_with_fuel(crate::text::trim_ws_start_text, 1);
                        reveal_with_fuel(crate::text::trim_ws_end_text, 1);
                    }
                }
            }
            let value = crate::text::string_of(&v);
            if v.len() > 0 && !str_eq(value.as_str(), "responses") && !str_eq(
                value.as_str(),
                "chat_completions",
            ) {
                return Err(InvalidProviderApi { name: p.name.clone(), api: value });
            }
        }
        i += 1;
    }
    Ok(())
}

/// A placeholder name: one or more ASCII letters, digits or `_`.
pub open spec fn is_env_name(name: Seq<char>) -> bool {
    name.len() > 0 && forall|i: int|
        0 <= i < name.len() ==> (#[trigger] name[i] == '_' || crate::text::is_ascii_alphanumeric(name[i]))
}

/// `rest` with every `${NAME}` whose name is set in `env` replaced by its
/// value; other placeholders, and an unclosed `${`, are kept.
pub open spec fn expand_text(rest: Seq<char>, env: Seq<(Seq<char>, Seq<char>)>) -> Seq<char>
    decreases rest.len(),
{
    match first_occurrence(rest, "${"@) {
        Some(start) => if 0 <= start && start + 2 <= rest.len() {
            let after = rest.subrange(start + 2, rest.len() as int);
            match first_index(after, '}') {
                Some(end) => if 0 <= end < after.len() {
                    let name = after.subrange(0, end);
                    let kept = "${"@ + name + "}"@;
                    let replaced = if is_env_name(name) {
                        match meta_lookup(env, name) {
                            Some(v) => v,
                            None => kept,
                        }
                    } else {
                        kept
                    };
                    rest.subrange(0, start) + replaced + expand_text(
                        after.subrange(end + 1, after.len() as int),
                        env,
                    )
                } else {
                    rest
                },
                None => rest,
            }
        } else {
            rest
        },
        None => rest,
    }
}

fn env_name_chars(v: &Vec<char>) -> (r: bool)
    ensures
        r == is_env_name(v@),
{
    if v.len() == 0 {
        return false;
    }
    let mut i: usize = 0;
    while i < v.len()
        invariant
            i <= v.len(),
            forall|j: int| 0 <= j < i ==> (#[trigger] v@[j] == '_' || crate::text::is_ascii_alphanumeric(v@[j])),
        decreases v.len() - i,
    {
        if !(v[i] == '_' || crate::text::ascii_alphanumeric(v[i])) {
            return false;
        }
        i += 1;
    }
    true
}

/// `input` with `${NAME}` placeholders replaced by the values of `env`
/// (the environment, as name/value pairs); placeholders of unset names,
/// names that are not placeholder names, and an unclosed `${` are kept.
pub fn expand_env_placeholders(input: &str, env: &Vec<(String, String)>) -> (r: String)
    ensures
        r@ == expand_text(input@, meta_pairs(env@)),
{
    let ghost pairs = meta_pairs(env@);
    let open_pat = chars_of("${");
    proof {
        reveal_strlit("${");
        reveal_strlit("}");
    }
    let mut output = String::new();
    let mut rest = chars_of(input);
    loop
        invariant_except_break
            open_pat@ == "${"@,
            "${"@.len() == 2,
            "}"@ == seq!['}'],
            pairs == meta_pairs(env@),
            expand_text(input@, pairs) == output@ + expand_text(rest@, pairs),
        ensures
            expand_text(input@, pairs) == output@ + rest@,
        decreases rest.len(),
    {
        let start = match find_chars(&rest, &open_pat) {
            Some(start) => start,
            None => {
                break;
            },
        };
        let after = sub_chars(&rest, start + 2, rest.len());
        let end = match find_char(&after, '}') {
            Some(end) => end,
            None => {
                break;
            },
        };
        let name_chars = sub_chars(&after, 0, end);
        let name = crate::text::string_of(&name_chars);
        let ghost out0 = output@;
        push_str(&mut output, crate::text::string_of(&sub_chars(&rest, 0, start)).as_str());
        let mut value_found = false;
        if env_name_chars(&name_chars) {
            match metadata_get(env, name.as_str()) {
                Some(value) => {
                    push_str(&mut output, value.as_str());
                    value_found = true;
                },
                None => {},
            }
        }
        if !value_found {
            push_str(&mut output, "${");
            push_str(&mut output, name.as_str());
            push_str(&mut output, "}");
        }
        let next = sub_chars(&after, end + 1, after.len());
        proof {
            assert(rest@.subrange(start + 2, rest.len() as int) =~= after@);
            let nm = after@.subrange(0, end as int);
            let kept = "${"@ + nm + "}"@;
            let replaced = if is_env_name(nm) {
                match meta_lookup(pairs, nm) {
                    Some(v) => v,
                    None => kept,
                }
            } else {
                kept
            };
            assert(expand_text(rest@, pairs) == rest@.subrange(0, start as int) + replaced
                + expand_text(next@, pairs));
            assert(output@ =~= out0 + rest@.subrange(0, start as int) + replaced);
        }
        rest = next;
    }
    push_str(&mut output, crate::text::string_of(&rest).as_str());
    output
}

} // verus!
