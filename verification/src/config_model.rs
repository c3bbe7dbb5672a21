//! The typed configuration document and the canonical configuration it
//! stands for: secrets resolved to their sources, providers merged, the
//! control-plane section assembled from `storage` and `pubsub` where it is
//! not given, and every missing setting at its default.

use vstd::prelude::*;
use crate::config::{
    entries_problem, invalid_provider_api_text, providers_problem, trust_error_text, validate_provider_config, validate_trust_config,
    InvalidProviderApi, OidcTrustEntry, OidcTrustGrant, ProviderKind, ProviderSettings,
    TrustConfig, TrustConfigError, TrustProblem,
};
use crate::text::{ascii_lower, blank, is_blank, owned, str_eq, strings_view};

verus! {

// ---------------------------------------------------------------------------
// Secrets

/// A secret as a configuration document gives it: the value itself, or a
/// reference to where it is kept.
#[derive(Clone, Debug)]
pub enum SecretSpec {
    Plain(String),
    Ref { source: String, key: String },
}

/// Where a referenced secret is kept.
#[derive(Clone, Copy, Debug, PartialEq, Eq, Structural)]
pub enum SecretSource {
    Env,
    Gcp,
    Keychain,
    Aws,
    Azure,
}

/// A secret of the canonical configuration.
#[derive(Clone, Debug)]
pub enum Secret {
    Plain(String),
    Ref { source: SecretSource, key: String },
}

/// The Unicode lowercase of a text (`str::to_lowercase`).
pub uninterp spec fn lowercase_text(s: Seq<char>) -> Seq<char>;

/// `str::to_lowercase`: the text in Unicode lowercase, which for a text
/// of ASCII characters maps each of `A`-`Z` to its lowercase letter and
/// keeps the others.
#[verifier::external_body]
fn to_lowercase(s: &str) -> (r: String)
    ensures
        r@ == lowercase_text(s@),
        (forall|i: int| 0 <= i < s@.len() ==> (s@[i] as u32) < 128) ==> r@ == s@.map_values(
            |c: char| ascii_lower(c),
        ),
{
    s.to_lowercase()
}

/// The source a lowercased source name names; any other name is `Env`.
pub open spec fn secret_source_of(lowered: Seq<char>) -> SecretSource {
    if lowered == "gcp"@ {
        SecretSource::Gcp
    } else if lowered == "keychain"@ {
        SecretSource::Keychain
    } else if lowered == "aws"@ {
        SecretSource::Aws
    } else if lowered == "azure"@ {
        SecretSource::Azure
    } else {
        SecretSource::Env
    }
}

/// The source that a secret reference's source name names, read without
/// regard to case; an unknown name stands for the environment.
pub fn secret_source(source: &str) -> (r: SecretSource)
    ensures
        r == secret_source_of(lowercase_text(source@)),
{
    let lowered = to_lowercase(source);
    secret_source_named(lowered.as_str())
}

/// The source a lowercased source name names; any other name is `Env`.
pub fn secret_source_named(l: &str) -> (r: SecretSource)
    ensures
        r == secret_source_of(l@),
{
    if str_eq(l, "gcp") {
        SecretSource::Gcp
    } else if str_eq(l, "keychain") {
        SecretSource::Keychain
    } else if str_eq(l, "aws") {
        SecretSource::Aws
    } else if str_eq(l, "azure") {
        SecretSource::Azure
    } else {
        SecretSource::Env
    }
}

/// Whether `r` is the canonical form of the secret `s`.
pub open spec fn secret_converted(s: SecretSpec, r: Secret) -> bool {
    match s {
        SecretSpec::Plain(p) => r matches Secret::Plain(q) && q@ == p@,
        SecretSpec::Ref { source, key } => r matches Secret::Ref { source: rs, key: rk } && rs
            == secret_source_of(lowercase_text(source@)) && rk@ == key@,
    }
}

/// Whether `r` is the canonical form of the secret `s` that may be missing.
pub open spec fn opt_secret_converted(s: Option<SecretSpec>, r: Option<Secret>) -> bool {
    match (s, r) {
        (Some(a), Some(b)) => secret_converted(a, b),
        (None, None) => true,
        _ => false,
    }
}

/// The canonical form of a secret.
pub fn secret_from_spec(s: &SecretSpec) -> (r: Secret)
    ensures
        secret_converted(*s, r),
{
    match s {
        SecretSpec::Plain(p) => Secret::Plain(owned(p.as_str())),
        SecretSpec::Ref { source, key } => Secret::Ref {
            source: secret_source(source.as_str()),
            key: owned(key.as_str()),
        },
    }
}

fn opt_secret(s: &Option<SecretSpec>) -> (r: Option<Secret>)
    ensures
        opt_secret_converted(*s, r),
{
    match s {
        Some(x) => Some(secret_from_spec(x)),
        None => None,
    }
}

// ---------------------------------------------------------------------------
// Small helpers

/// A text that defaults to empty.
pub open spec fn text_or_empty(v: Option<String>) -> Seq<char> {
    match v {
        Some(s) => s@,
        None => Seq::empty(),
    }
}

fn text_or_default(v: &Option<String>) -> (r: String)
    ensures
        r@ == text_or_empty(*v),
{
    match v {
        Some(s) => owned(s.as_str()),
        None => String::new(),
    }
}

fn copy_strings(v: &Vec<String>) -> (r: Vec<String>)
    ensures
        strings_view(r@) == strings_view(v@),
{
    let mut r: Vec<String> = Vec::new();
    let mut i: usize = 0;
    while i < v.len()
        invariant
            i <= v.len(),
            strings_view(r@) == strings_view(v@.subrange(0, i as int)),
        decreases v.len() - i,
    {
        let ghost before = r@;
        r.push(owned(v[i].as_str()));
        assert(strings_view(r@) =~= strings_view(before).push(v@[i as int]@));
        assert(strings_view(v@.subrange(0, i + 1)) =~= strings_view(v@.subrange(0, i as int)).push(
            v@[i as int]@,
        ));
        i += 1;
    }
    assert(v@.subrange(0, v@.len() as int) =~= v@);
    r
}

// ---------------------------------------------------------------------------
// Model providers

/// A model provider as a configuration document gives it.
#[derive(Clone, Debug)]
pub enum ProviderSpec {
    Openai { model: String, api_key: Option<SecretSpec>, api: Option<String> },
    Anthropic { model: String, api_key: Option<SecretSpec> },
    Google { model: String, api_key: Option<SecretSpec> },
    OpenaiCompatible { base_url: String, model: String, api_key: Option<SecretSpec> },
}

/// A model provider of the canonical configuration.
#[derive(Clone, Debug)]
pub enum ProviderConfig {
    OpenAi { model: String, api_key: Option<Secret>, org_id: String, api: String },
    Anthropic { model: String, api_key: Option<Secret> },
    Google { model: String, api_key: Option<Secret> },
    OpenAiCompatible { name: String, base_url: String, model: String, api_key: Option<Secret> },
}

/// Whether `r` is the canonical form of the provider `p`: an OpenAI
/// provider gets an empty organization and its API flavour or empty, a
/// compatible provider an empty name.
pub open spec fn provider_converted(p: ProviderSpec, r: ProviderConfig) -> bool {
    match p {
        ProviderSpec::Openai { model, api_key, api } => r matches ProviderConfig::OpenAi {
            model: m,
            api_key: k,
            org_id: o,
            api: a,
        } && m@ == model@ && opt_secret_converted(api_key, k) && o@.len() == 0 && a@
            == text_or_empty(api),
        ProviderSpec::Anthropic { model, api_key } => r matches ProviderConfig::Anthropic {
            model: m,
            api_key: k,
        } && m@ == model@ && opt_secret_converted(api_key, k),
        ProviderSpec::Google { model, api_key } => r matches ProviderConfig::Google {
            model: m,
            api_key: k,
        } && m@ == model@ && opt_secret_converted(api_key, k),
        ProviderSpec::OpenaiCompatible { base_url, model, api_key } => r matches ProviderConfig::OpenAiCompatible {
            name: n,
            base_url: b,
            model: m,
            api_key: k,
        } && n@.len() == 0 && b@ == base_url@ && m@ == model@ && opt_secret_converted(api_key, k),
    }
}

/// The canonical form of a model provider.
pub fn provider_config(p: &ProviderSpec) -> (r: ProviderConfig)
    ensures
        provider_converted(*p, r),
{
    match p {
        ProviderSpec::Openai { model, api_key, api } => ProviderConfig::OpenAi {
            model: owned(model.as_str()),
            api_key: opt_secret(api_key),
            org_id: String::new(),
            api: text_or_default(api),
        },
        ProviderSpec::Anthropic { model, api_key } => ProviderConfig::Anthropic {
            model: owned(model.as_str()),
            api_key: opt_secret(api_key),
        },
        ProviderSpec::Google { model, api_key } => ProviderConfig::Google {
            model: owned(model.as_str()),
            api_key: opt_secret(api_key),
        },
        ProviderSpec::OpenaiCompatible { base_url, model, api_key } => ProviderConfig::OpenAiCompatible {
            name: String::new(),
            base_url: owned(base_url.as_str()),
            model: owned(model.as_str()),
            api_key: opt_secret(api_key),
        },
    }
}

/// The providers by name after setting each of `ps` in order over `m`: a
/// later entry of a name replaces an earlier one.
pub open spec fn set_providers(m: Map<Seq<char>, ProviderSpec>, ps: Seq<(String, ProviderSpec)>) -> Map<
    Seq<char>,
    ProviderSpec,
>
    decreases ps.len(),
{
    if ps.len() == 0 {
        m
    } else {
        set_providers(m, ps.drop_last()).insert(ps.last().0@, ps.last().1)
    }
}

/// Whether `rs` holds, once each, the names of `m` with the canonical form
/// of each one's provider.
pub open spec fn providers_converted(rs: Seq<(String, ProviderConfig)>, m: Map<Seq<char>, ProviderSpec>) -> bool {
    &&& forall|i: int, j: int| 0 <= i < j < rs.len() ==> rs[i].0@ != rs[j].0@
    &&& forall|i: int|
        0 <= i < rs.len() ==> m.contains_key(#[trigger] rs[i].0@) && provider_converted(
            m[rs[i].0@],
            rs[i].1,
        )
    &&& forall|k: Seq<char>| #[trigger] m.contains_key(k) ==> exists|i: int| 0 <= i < rs.len() && rs[i].0@ == k
}

fn find_name<T>(out: &Vec<(String, T)>, name: &str) -> (r: Option<usize>)
    ensures
        match r {
            Some(j) => j < out@.len() && out@[j as int].0@ == name@,
            None => forall|k: int| 0 <= k < out@.len() ==> out@[k].0@ != name@,
        },
{
    let mut j: usize = 0;
    while j < out.len()
        invariant
            j <= out.len(),
            forall|k: int| 0 <= k < j ==> out@[k].0@ != name@,
        decreases out.len() - j,
    {
        if str_eq(out[j].0.as_str(), name) {
            return Some(j);
        }
        j += 1;
    }
    None
}

fn set_provider_entries(
    out: &mut Vec<(String, ProviderConfig)>,
    ps: &Vec<(String, ProviderSpec)>,
    Ghost(m): Ghost<Map<Seq<char>, ProviderSpec>>,
)
    requires
        providers_converted(old(out)@, m),
    ensures
        providers_converted(final(out)@, set_providers(m, ps@)),
{
    let mut i: usize = 0;
    assert(ps@.subrange(0, 0) =~= Seq::<(String, ProviderSpec)>::empty());
    while i < ps.len()
        invariant
            i <= ps.len(),
            providers_converted(out@, set_providers(m, ps@.subrange(0, i as int))),
        decreases ps.len() - i,
    {
        let ghost before = set_providers(m, ps@.subrange(0, i as int));
        let ghost name = ps@[i as int].0@;
        assert(ps@.subrange(0, i + 1).drop_last() =~= ps@.subrange(0, i as int));
        assert(set_providers(m, ps@.subrange(0, i + 1)) == before.insert(name, ps@[i as int].1));
        let converted = provider_config(&ps[i].1);
        let found = find_name(out, ps[i].0.as_str());
        let ghost after = before.insert(name, ps@[i as int].1);
        let entry = (owned(ps[i].0.as_str()), converted);
        if let Some(j) = found {
            let ghost old_out = out@;
            out.set(j, entry);
            assert forall|k: Seq<char>| #[trigger] after.contains_key(k) implies exists|x: int|
                0 <= x < out@.len() && out@[x].0@ == k by {
                if k == name {
                    assert(out@[j as int].0@ == k);
                } else {
                    let x = choose|x: int| 0 <= x < old_out.len() && old_out[x].0@ == k;
                    assert(out@[x].0@ == k);
                }
            }
        } else {
            let ghost old_out = out@;
            out.push(entry);
            assert forall|k: Seq<char>| #[trigger] after.contains_key(k) implies exists|x: int|
                0 <= x < out@.len() && out@[x].0@ == k by {
                if k == name {
                    assert(out@[old_out.len() as int].0@ == k);
                } else {
                    let x = choose|x: int| 0 <= x < old_out.len() && old_out[x].0@ == k;
                    assert(out@[x].0@ == k);
                }
            }
        }
        i += 1;
    }
    assert(ps@.subrange(0, ps@.len() as int) =~= ps@);
}

/// The providers of the canonical configuration: those of `providers`,
/// then those of `llm_providers`, a later entry of a name replacing an
/// earlier one.
pub fn merged_providers(
    providers: &Vec<(String, ProviderSpec)>,
    llm_providers: &Vec<(String, ProviderSpec)>,
) -> (r: Vec<(String, ProviderConfig)>)
    ensures
        providers_converted(
            r@,
            set_providers(set_providers(Map::empty(), providers@), llm_providers@),
        ),
{
    let mut out: Vec<(String, ProviderConfig)> = Vec::new();
    set_provider_entries(&mut out, providers, Ghost(Map::empty()));
    set_provider_entries(&mut out, llm_providers, Ghost(set_providers(Map::empty(), providers@)));
    out
}

// ---------------------------------------------------------------------------
// Databases, brokers, schedulers and object stores

/// A database section as a configuration document gives it.
#[derive(Clone, Debug)]
pub struct DatabaseSpec {
    pub data_dir: Option<String>,
    pub driver: Option<String>,
    pub url: Option<SecretSpec>,
}

/// A database of the canonical configuration.
#[derive(Clone, Debug)]
pub struct DatabaseConfig {
    pub data_dir: String,
    pub driver: String,
    pub url: Option<Secret>,
}

/// Whether `r` is the canonical form of the database section `d`: missing
/// texts empty.
pub open spec fn database_converted(d: DatabaseSpec, r: DatabaseConfig) -> bool {
    &&& r.data_dir@ == text_or_empty(d.data_dir)
    &&& r.driver@ == text_or_empty(d.driver)
    &&& opt_secret_converted(d.url, r.url)
}

/// The canonical form of a database section.
pub fn database_config(d: &DatabaseSpec) -> (r: DatabaseConfig)
    ensures
        database_converted(*d, r),
{
    DatabaseConfig {
        data_dir: text_or_default(&d.data_dir),
        driver: text_or_default(&d.driver),
        url: opt_secret(&d.url),
    }
}

/// Whether `r` is the canonical form of the database section that may be
/// missing.
pub open spec fn opt_database_converted(d: Option<DatabaseSpec>, r: Option<DatabaseConfig>) -> bool {
    match (d, r) {
        (Some(a), Some(b)) => database_converted(a, b),
        (None, None) => true,
        _ => false,
    }
}

fn opt_database(d: &Option<DatabaseSpec>) -> (r: Option<DatabaseConfig>)
    ensures
        opt_database_converted(*d, r),
{
    match d {
        Some(x) => Some(database_config(x)),
        None => None,
    }
}

/// A message broker section: its driver (other fields are ignored).
#[derive(Clone, Debug)]
pub struct BrokerSpec {
    pub driver: String,
}

/// How scheduler callbacks authenticate, as a configuration document gives it.
#[derive(Clone, Debug)]
pub enum CallbackAuthSpec {
    SharedSecret { token: SecretSpec },
    GoogleOidc { audience: String, service_account_email: Option<String> },
}

/// How scheduler callbacks authenticate, in the canonical configuration.
#[derive(Clone, Debug)]
pub enum CallbackAuthConfig {
    SharedSecret(Secret),
    GoogleOidc { audience: String, service_account_email: String },
}

/// A scheduler section as a configuration document gives it.
#[derive(Clone, Debug)]
pub enum SchedulerSpec {
    CloudTasks {
        project_id: Option<String>,
        location: Option<String>,
        queue: Option<String>,
        target_url: Option<String>,
        callback_auth: Option<CallbackAuthSpec>,
    },
    AwsEventBridgeScheduler {
        group_name: Option<String>,
        queue_url: Option<String>,
        execution_role_arn: Option<String>,
        schedule_name_prefix: Option<String>,
        dlq_arn: Option<String>,
        maximum_event_age_seconds: Option<u32>,
        maximum_retry_attempts: Option<u32>,
        endpoint_url: Option<String>,
    },
}

/// A scheduler backend of the canonical configuration.
#[derive(Clone, Debug)]
pub enum SchedulerBackend {
    CloudTasks {
        project_id: String,
        location: String,
        queue: String,
        target_url: String,
        callback_auth: Option<CallbackAuthConfig>,
    },
    AwsEventBridgeScheduler {
        group_name: String,
        queue_url: String,
        execution_role_arn: String,
        schedule_name_prefix: String,
        dlq_arn: String,
        maximum_event_age_seconds: u32,
        maximum_retry_attempts: Option<u32>,
        endpoint_url: String,
    },
}

/// Whether `r` is the canonical form of the callback authentication `a`.
pub open spec fn callback_auth_converted(a: CallbackAuthSpec, r: CallbackAuthConfig) -> bool {
    match a {
        CallbackAuthSpec::SharedSecret { token } => r matches CallbackAuthConfig::SharedSecret(t)
            && secret_converted(token, t),
        CallbackAuthSpec::GoogleOidc { audience, service_account_email } => r matches CallbackAuthConfig::GoogleOidc {
            audience: au,
            service_account_email: e,
        } && au@ == audience@ && e@ == text_or_empty(service_account_email),
    }
}

/// The canonical form of a callback authentication.
pub fn callback_auth_config(a: &CallbackAuthSpec) -> (r: CallbackAuthConfig)
    ensures
        callback_auth_converted(*a, r),
{
    match a {
        CallbackAuthSpec::SharedSecret { token } => CallbackAuthConfig::SharedSecret(secret_from_spec(token)),
        CallbackAuthSpec::GoogleOidc { audience, service_account_email } => CallbackAuthConfig::GoogleOidc {
            audience: owned(audience.as_str()),
            service_account_email: text_or_default(service_account_email),
        },
    }
}

/// Whether `r` is the canonical form of the scheduler section `s`: missing
/// texts empty, a missing event age zero, the retry limit kept as given.
pub open spec fn scheduler_converted(s: SchedulerSpec, r: SchedulerBackend) -> bool {
    match s {
        SchedulerSpec::CloudTasks { project_id, location, queue, target_url, callback_auth } => r matches SchedulerBackend::CloudTasks {
            project_id: p,
            location: l,
            queue: q,
            target_url: t,
            callback_auth: a,
        } && p@ == text_or_empty(project_id) && l@ == text_or_empty(location) && q@ == text_or_empty(
            queue,
        ) && t@ == text_or_empty(target_url) && match (callback_auth, a) {
            (Some(x), Some(y)) => callback_auth_converted(x, y),
            (None, None) => true,
            _ => false,
        },
        SchedulerSpec::AwsEventBridgeScheduler {
            group_name,
            queue_url,
            execution_role_arn,
            schedule_name_prefix,
            dlq_arn,
            maximum_event_age_seconds,
            maximum_retry_attempts,
            endpoint_url,
        } => r matches SchedulerBackend::AwsEventBridgeScheduler {
            group_name: g,
            queue_url: q,
            execution_role_arn: e,
            schedule_name_prefix: p,
            dlq_arn: d,
            maximum_event_age_seconds: age,
            maximum_retry_attempts: retries,
            endpoint_url: u,
        } && g@ == text_or_empty(group_name) && q@ == text_or_empty(queue_url) && e@ == text_or_empty(
            execution_role_arn,
        ) && p@ == text_or_empty(schedule_name_prefix) && d@ == text_or_empty(dlq_arn) && age
            == match maximum_event_age_seconds {
            Some(n) => n,
            None => 0,
        } && retries == maximum_retry_attempts && u@ == text_or_empty(endpoint_url),
    }
}

/// The canonical form of a scheduler section.
pub fn scheduler_backend(s: &SchedulerSpec) -> (r: SchedulerBackend)
    ensures
        scheduler_converted(*s, r),
{
    match s {
        SchedulerSpec::CloudTasks { project_id, location, queue, target_url, callback_auth } => SchedulerBackend::CloudTasks {
            project_id: text_or_default(project_id),
            location: text_or_default(location),
            queue: text_or_default(queue),
            target_url: text_or_default(target_url),
            callback_auth: match callback_auth {
                Some(a) => Some(callback_auth_config(a)),
                None => None,
            },
        },
        SchedulerSpec::AwsEventBridgeScheduler {
            group_name,
            queue_url,
            execution_role_arn,
            schedule_name_prefix,
            dlq_arn,
            maximum_event_age_seconds,
            maximum_retry_attempts,
            endpoint_url,
        } => SchedulerBackend::AwsEventBridgeScheduler {
            group_name: text_or_default(group_name),
            queue_url: text_or_default(queue_url),
            execution_role_arn: text_or_default(execution_role_arn),
            schedule_name_prefix: text_or_default(schedule_name_prefix),
            dlq_arn: text_or_default(dlq_arn),
            maximum_event_age_seconds: match maximum_event_age_seconds {
                Some(n) => *n,
                None => 0,
            },
            maximum_retry_attempts: *maximum_retry_attempts,
            endpoint_url: text_or_default(endpoint_url),
        },
    }
}

/// An object store section as a configuration document gives it.
#[derive(Clone, Debug)]
pub enum ObjectStoreSpec {
    Local { path: Option<String> },
    Gcs { bucket: String, prefix: Option<String>, api_base_url: Option<String> },
    S3 {
        bucket: String,
        prefix: Option<String>,
        region: Option<String>,
        endpoint_url: Option<String>,
        force_path_style: Option<bool>,
    },
}

/// An object store backend of the canonical configuration.
#[derive(Clone, Debug)]
pub enum ObjectStoreBackend {
    Local { path: String },
    Gcs { bucket: String, prefix: String, api_base_url: String },
    S3 { bucket: String, prefix: String, region: String, endpoint_url: String, force_path_style: bool },
}

/// Whether `r` is the canonical form of the object store section `s`:
/// missing texts empty, path-style addressing off unless asked for.
pub open spec fn object_store_converted(s: ObjectStoreSpec, r: ObjectStoreBackend) -> bool {
    match s {
        ObjectStoreSpec::Local { path } => r matches ObjectStoreBackend::Local { path: p } && p@
            == text_or_empty(path),
        ObjectStoreSpec::Gcs { bucket, prefix, api_base_url } => r matches ObjectStoreBackend::Gcs {
            bucket: b,
            prefix: p,
            api_base_url: a,
        } && b@ == bucket@ && p@ == text_or_empty(prefix) && a@ == text_or_empty(api_base_url),
        ObjectStoreSpec::S3 { bucket, prefix, region, endpoint_url, force_path_style } => r matches ObjectStoreBackend::S3 {
            bucket: b,
            prefix: p,
            region: g,
            endpoint_url: e,
            force_path_style: f,
        } && b@ == bucket@ && p@ == text_or_empty(prefix) && g@ == text_or_empty(region) && e@
            == text_or_empty(endpoint_url) && f == (force_path_style == Some(true)),
    }
}

/// The canonical form of an object store section.
pub fn object_store_backend(s: &ObjectStoreSpec) -> (r: ObjectStoreBackend)
    ensures
        object_store_converted(*s, r),
{
    match s {
        ObjectStoreSpec::Local { path } => ObjectStoreBackend::Local { path: text_or_default(path) },
        ObjectStoreSpec::Gcs { bucket, prefix, api_base_url } => ObjectStoreBackend::Gcs {
            bucket: owned(bucket.as_str()),
            prefix: text_or_default(prefix),
            api_base_url: text_or_default(api_base_url),
        },
        ObjectStoreSpec::S3 { bucket, prefix, region, endpoint_url, force_path_style } => ObjectStoreBackend::S3 {
            bucket: owned(bucket.as_str()),
            prefix: text_or_default(prefix),
            region: text_or_default(region),
            endpoint_url: text_or_default(endpoint_url),
            force_path_style: match force_path_style {
                Some(f) => *f,
                None => false,
            },
        },
    }
}

// ---------------------------------------------------------------------------
// The control-plane section

/// A control-plane section as a configuration document gives it.
#[derive(Clone, Debug)]
pub struct ControlPlaneSpec {
    pub database: DatabaseSpec,
    pub message_broker: BrokerSpec,
    pub scheduler: Option<SchedulerSpec>,
    pub object_store: Option<ObjectStoreSpec>,
    pub documents: Option<DatabaseSpec>,
}

/// A storage section, the older form of the control-plane section.
#[derive(Clone, Debug)]
pub struct StorageSpec {
    pub control: DatabaseSpec,
    pub data: Option<DatabaseSpec>,
    pub documents: Option<DatabaseSpec>,
    pub objects: Option<ObjectStoreSpec>,
}

/// The control plane of the canonical configuration.
#[derive(Clone, Debug)]
pub struct ControlPlaneConfig {
    pub database: DatabaseConfig,
    pub message_broker: BrokerSpec,
    pub scheduler: Option<SchedulerBackend>,
    pub object_store: Option<ObjectStoreBackend>,
    pub documents: Option<DatabaseConfig>,
}

/// Whether `r` is the canonical form of the scheduler that may be missing.
pub open spec fn opt_scheduler_converted(s: Option<SchedulerSpec>, r: Option<SchedulerBackend>) -> bool {
    match (s, r) {
        (Some(a), Some(b)) => scheduler_converted(a, b),
        (None, None) => true,
        _ => false,
    }
}

/// Whether `r` is the canonical form of the object store that may be missing.
pub open spec fn opt_object_store_converted(s: Option<ObjectStoreSpec>, r: Option<ObjectStoreBackend>) -> bool {
    match (s, r) {
        (Some(a), Some(b)) => object_store_converted(a, b),
        (None, None) => true,
        _ => false,
    }
}

/// The broker driver used when only a storage section is given.
pub open spec fn local_broker_driver() -> Seq<char> {
    "local_socket"@
}

/// Whether `r` is the control plane a document with the sections `cp`,
/// `storage` and `pubsub` stands for: the control-plane section when there
/// is one; else, with a storage section, its control database, documents
/// and objects, with the `pubsub` broker or the local-socket one and no
/// scheduler; else none.
pub open spec fn control_plane_converted(
    cp: Option<ControlPlaneSpec>,
    storage: Option<StorageSpec>,
    pubsub: Option<BrokerSpec>,
    r: Option<ControlPlaneConfig>,
) -> bool {
    match (cp, storage) {
        (Some(c), _) => r matches Some(x) && database_converted(c.database, x.database)
            && x.message_broker.driver@ == c.message_broker.driver@ && opt_scheduler_converted(
            c.scheduler,
            x.scheduler,
        ) && opt_object_store_converted(c.object_store, x.object_store) && opt_database_converted(
            c.documents,
            x.documents,
        ),
        (None, Some(st)) => r matches Some(x) && database_converted(st.control, x.database)
            && x.message_broker.driver@ == match pubsub {
            Some(b) => b.driver@,
            None => local_broker_driver(),
        } && x.scheduler is None && opt_object_store_converted(st.objects, x.object_store)
            && opt_database_converted(st.documents, x.documents),
        (None, None) => r is None,
    }
}

fn opt_object_store(s: &Option<ObjectStoreSpec>) -> (r: Option<ObjectStoreBackend>)
    ensures
        opt_object_store_converted(*s, r),
{
    match s {
        Some(x) => Some(object_store_backend(x)),
        None => None,
    }
}

/// The control plane of the canonical configuration.
pub fn control_plane_config(
    cp: &Option<ControlPlaneSpec>,
    storage: &Option<StorageSpec>,
    pubsub: &Option<BrokerSpec>,
) -> (r: Option<ControlPlaneConfig>)
    ensures
        control_plane_converted(*cp, *storage, *pubsub, r),
{
    match cp {
        Some(c) => Some(ControlPlaneConfig {
            database: database_config(&c.database),
            message_broker: BrokerSpec { driver: owned(c.message_broker.driver.as_str()) },
            scheduler: match &c.scheduler {
                Some(x) => Some(scheduler_backend(x)),
                None => None,
            },
            object_store: opt_object_store(&c.object_store),
            documents: opt_database(&c.documents),
        }),
        None => match storage {
            Some(st) => {
                let driver = match pubsub {
                    Some(b) => owned(b.driver.as_str()),
                    None => owned("local_socket"),
                };
                Some(ControlPlaneConfig {
                    database: database_config(&st.control),
                    message_broker: BrokerSpec { driver },
                    scheduler: None,
                    object_store: opt_object_store(&st.objects),
                    documents: opt_database(&st.documents),
                })
            },
            None => None,
        },
    }
}

// ---------------------------------------------------------------------------
// Trust

/// A trusted OIDC issuer of the canonical configuration.
#[derive(Clone, Debug)]
pub struct OidcTrust {
    pub name: String,
    pub issuer: String,
    pub audiences: Vec<String>,
    pub allowed_domains: Vec<String>,
    pub allowed_emails: Vec<String>,
    pub jwks_url: String,
    pub clock_skew_seconds: u32,
    pub grants: Vec<OidcTrustGrant>,
}

/// The audiences of a trust entry: its single audience, when it is given
/// and not blank, before the listed ones.
pub open spec fn entry_audiences(e: OidcTrustEntry) -> Seq<Seq<char>> {
    match e.audience {
        Some(a) => if is_blank(a@) {
            strings_view(e.audiences@)
        } else {
            seq![a@] + strings_view(e.audiences@)
        },
        None => strings_view(e.audiences@),
    }
}

/// Whether `r` is the canonical form of the trust entry `e`.
pub open spec fn trust_entry_converted(e: OidcTrustEntry, r: OidcTrust) -> bool {
    &&& r.name@ == e.name@
    &&& r.issuer@ == e.issuer@
    &&& strings_view(r.audiences@) == entry_audiences(e)
    &&& strings_view(r.allowed_domains@) == strings_view(e.allowed_domains@)
    &&& strings_view(r.allowed_emails@) == strings_view(e.allowed_emails@)
    &&& r.jwks_url@ == text_or_empty(e.jwks_url)
    &&& r.clock_skew_seconds == match e.clock_skew_seconds {
        Some(n) => n,
        None => 0,
    }
    &&& r.grants@ == e.grants@
}

fn copy_grants(gs: &Vec<OidcTrustGrant>) -> (r: Vec<OidcTrustGrant>)
    ensures
        r@ == gs@,
{
    let mut r: Vec<OidcTrustGrant> = Vec::new();
    let mut i: usize = 0;
    while i < gs.len()
        invariant
            i <= gs.len(),
            r@ == gs@.subrange(0, i as int),
        decreases gs.len() - i,
    {
        let g = &gs[i];
        r.push(
            OidcTrustGrant {
                kind: g.kind,
                namespace: g.namespace.clone(),
                agent: g.agent.clone(),
                session: g.session.clone(),
                channel: g.channel.clone(),
            },
        );
        assert(r@ =~= gs@.subrange(0, i + 1));
        i += 1;
    }
    assert(gs@.subrange(0, gs@.len() as int) =~= gs@);
    r
}

/// The canonical form of a trust entry.
pub fn oidc_trust(e: &OidcTrustEntry) -> (r: OidcTrust)
    ensures
        trust_entry_converted(*e, r),
{
    let listed = copy_strings(&e.audiences);
    let audiences = match &e.audience {
        Some(a) => {
            if blank(a.as_str()) {
                listed
            } else {
                let mut v: Vec<String> = Vec::new();
                v.push(owned(a.as_str()));
                let mut i: usize = 0;
                while i < listed.len()
                    invariant
                        i <= listed.len(),
                        strings_view(v@) == seq![a@] + strings_view(listed@.subrange(0, i as int)),
                    decreases listed.len() - i,
                {
                    let ghost before = v@;
                    v.push(owned(listed[i].as_str()));
                    assert(strings_view(v@) =~= strings_view(before).push(listed@[i as int]@));
                    assert(strings_view(listed@.subrange(0, i + 1)) =~= strings_view(
                        listed@.subrange(0, i as int),
                    ).push(listed@[i as int]@));
                    i += 1;
                }
                assert(listed@.subrange(0, listed@.len() as int) =~= listed@);
                v
            }
        },
        None => listed,
    };
    OidcTrust {
        name: owned(e.name.as_str()),
        issuer: owned(e.issuer.as_str()),
        audiences,
        allowed_domains: copy_strings(&e.allowed_domains),
        allowed_emails: copy_strings(&e.allowed_emails),
        jwks_url: text_or_default(&e.jwks_url),
        clock_skew_seconds: match e.clock_skew_seconds {
            Some(n) => n,
            None => 0,
        },
        grants: copy_grants(&e.grants),
    }
}

/// Whether `r` holds the canonical forms of the trust entries `es`, in order.
pub open spec fn trust_converted(es: Seq<OidcTrustEntry>, r: Seq<OidcTrust>) -> bool {
    r.len() == es.len() && forall|i: int| 0 <= i < es.len() ==> trust_entry_converted(es[i], #[trigger] r[i])
}

/// The canonical forms of trust entries.
pub fn oidc_trust_entries(es: &Vec<OidcTrustEntry>) -> (r: Vec<OidcTrust>)
    ensures
        trust_converted(es@, r@),
{
    let mut r: Vec<OidcTrust> = Vec::new();
    let mut i: usize = 0;
    while i < es.len()
        invariant
            i <= es.len(),
            r@.len() == i,
            forall|k: int| 0 <= k < i ==> trust_entry_converted(es@[k], #[trigger] r@[k]),
        decreases es.len() - i,
    {
        r.push(oidc_trust(&es[i]));
        i += 1;
    }
    r
}

// ---------------------------------------------------------------------------
// The whole configuration

/// The address the server listens on.
#[derive(Clone, Debug)]
pub struct ServerSpec {
    pub host: String,
    pub port: u32,
}

/// Whether a controller runs, and with how many workers.
#[derive(Clone, Copy, Debug)]
pub struct ControllerSpec {
    pub enabled: bool,
    pub workers: u32,
}

/// A configuration document, its sections typed; model limits, which are
/// given as floating-point numbers, are not held here.
#[derive(Clone, Debug)]
pub struct ConfigDocument {
    pub providers: Vec<(String, ProviderSpec)>,
    pub llm_providers: Vec<(String, ProviderSpec)>,
    pub database: Option<DatabaseSpec>,
    pub server: Option<ServerSpec>,
    pub default_provider: Option<String>,
    pub workspace_dir: Option<String>,
    pub control_plane: Option<ControlPlaneSpec>,
    pub storage: Option<StorageSpec>,
    pub pubsub: Option<BrokerSpec>,
    pub controllers: Vec<(String, ControllerSpec)>,
    pub trust: Option<TrustConfig>,
}

/// The canonical configuration.
#[derive(Clone, Debug)]
pub struct TalonConfig {
    pub providers: Vec<(String, ProviderConfig)>,
    pub database: Option<DatabaseConfig>,
    pub server: Option<ServerSpec>,
    pub default_provider: String,
    pub workspace_dir: String,
    pub control_plane: Option<ControlPlaneConfig>,
    pub controllers: Vec<(String, ControllerSpec)>,
    pub trust: Option<Vec<OidcTrust>>,
}

/// The workspace directory used when none is given.
pub open spec fn default_workspace_dir() -> Seq<char> {
    "."@
}

/// Whether `r` is the server section `s` that may be missing.
pub open spec fn server_copied(s: Option<ServerSpec>, r: Option<ServerSpec>) -> bool {
    match (s, r) {
        (Some(a), Some(b)) => b.host@ == a.host@ && b.port == a.port,
        (None, None) => true,
        _ => false,
    }
}

/// Whether `r` holds the controllers `cs`, in order.
pub open spec fn controllers_copied(cs: Seq<(String, ControllerSpec)>, r: Seq<(String, ControllerSpec)>) -> bool {
    r.len() == cs.len() && forall|i: int| 0 <= i < cs.len() ==> (#[trigger] r[i]).0@ == cs[i].0@ && r[i].1 == cs[i].1
}

/// Whether `r` is the canonical configuration that the document `d` stands
/// for.
pub open spec fn config_converted(d: ConfigDocument, r: TalonConfig) -> bool {
    &&& providers_converted(
        r.providers@,
        set_providers(set_providers(Map::empty(), d.providers@), d.llm_providers@),
    )
    &&& opt_database_converted(d.database, r.database)
    &&& server_copied(d.server, r.server)
    &&& r.default_provider@ == text_or_empty(d.default_provider)
    &&& r.workspace_dir@ == match d.workspace_dir {
        Some(w) => w@,
        None => default_workspace_dir(),
    }
    &&& control_plane_converted(d.control_plane, d.storage, d.pubsub, r.control_plane)
    &&& controllers_copied(d.controllers@, r.controllers@)
    &&& match (d.trust, r.trust) {
        (Some(t), Some(es)) => trust_converted(t.oidc@, es@),
        (None, None) => true,
        _ => false,
    }
}

fn copy_controllers(cs: &Vec<(String, ControllerSpec)>) -> (r: Vec<(String, ControllerSpec)>)
    ensures
        controllers_copied(cs@, r@),
{
    let mut r: Vec<(String, ControllerSpec)> = Vec::new();
    let mut i: usize = 0;
    while i < cs.len()
        invariant
            i <= cs.len(),
            r@.len() == i,
            forall|k: int| 0 <= k < i ==> (#[trigger] r@[k]).0@ == cs@[k].0@ && r@[k].1 == cs@[k].1,
        decreases cs.len() - i,
    {
        r.push((owned(cs[i].0.as_str()), cs[i].1));
        i += 1;
    }
    r
}

/// The canonical configuration that a configuration document stands for.
pub fn talon_config(d: &ConfigDocument) -> (r: TalonConfig)
    ensures
        config_converted(*d, r),
{
    TalonConfig {
        providers: merged_providers(&d.providers, &d.llm_providers),
        database: opt_database(&d.database),
        server: match &d.server {
            Some(s) => Some(ServerSpec { host: owned(s.host.as_str()), port: s.port }),
            None => None,
        },
        default_provider: text_or_default(&d.default_provider),
        workspace_dir: match &d.workspace_dir {
            Some(w) => owned(w.as_str()),
            None => owned("."),
        },
        control_plane: control_plane_config(&d.control_plane, &d.storage, &d.pubsub),
        controllers: copy_controllers(&d.controllers),
        trust: match &d.trust {
            Some(t) => Some(oidc_trust_entries(&t.oidc)),
            None => None,
        },
    }
}

// ---------------------------------------------------------------------------
// Checking a document

/// What the provider checks read of a provider entry.
pub open spec fn provider_setting(e: (String, ProviderSpec)) -> ProviderSettings {
    ProviderSettings {
        name: e.0,
        kind: match e.1 {
            ProviderSpec::Openai { .. } => ProviderKind::Openai,
            ProviderSpec::Anthropic { .. } => ProviderKind::Anthropic,
            ProviderSpec::Google { .. } => ProviderKind::Google,
            ProviderSpec::OpenaiCompatible { .. } => ProviderKind::OpenaiCompatible,
        },
        api: match e.1 {
            ProviderSpec::Openai { api, .. } => api,
            _ => None,
        },
    }
}

fn push_settings(out: &mut Vec<ProviderSettings>, ps: &Vec<(String, ProviderSpec)>)
    ensures
        final(out)@ == old(out)@ + ps@.map_values(|e: (String, ProviderSpec)| provider_setting(e)),
{
    let ghost start = out@;
    let mut i: usize = 0;
    while i < ps.len()
        invariant
            i <= ps.len(),
            out@ == start + ps@.subrange(0, i as int).map_values(
                |e: (String, ProviderSpec)| provider_setting(e),
            ),
        decreases ps.len() - i,
    {
        let (kind, api) = match &ps[i].1 {
            ProviderSpec::Openai { api, .. } => (
                ProviderKind::Openai,
                match api {
                    Some(a) => Some(a.clone()),
                    None => None,
                },
            ),
            ProviderSpec::Anthropic { .. } => (ProviderKind::Anthropic, None),
            ProviderSpec::Google { .. } => (ProviderKind::Google, None),
            ProviderSpec::OpenaiCompatible { .. } => (ProviderKind::OpenaiCompatible, None),
        };
        out.push(ProviderSettings { name: ps[i].0.clone(), kind, api });
        assert(ps@.subrange(0, i + 1).map_values(|e: (String, ProviderSpec)| provider_setting(e))
            =~= ps@.subrange(0, i as int).map_values(|e: (String, ProviderSpec)| provider_setting(e)).push(
            provider_setting(ps@[i as int]),
        ));
        i += 1;
    }
    assert(ps@.subrange(0, ps@.len() as int) =~= ps@);
}

/// The settings the provider checks read, those of `providers` first.
pub open spec fn document_provider_settings(d: ConfigDocument) -> Seq<ProviderSettings> {
    d.providers@.map_values(|e: (String, ProviderSpec)| provider_setting(e)) + d.llm_providers@.map_values(
        |e: (String, ProviderSpec)| provider_setting(e),
    )
}

/// Why a configuration document is refused.
#[derive(Clone, Debug)]
pub enum ConfigCheckError {
    Trust(TrustConfigError),
    Provider(InvalidProviderApi),
}

/// The description of a refused configuration document.
pub open spec fn config_check_error_text(e: ConfigCheckError) -> Seq<char> {
    match e {
        ConfigCheckError::Trust(t) => trust_error_text(t),
        ConfigCheckError::Provider(p) => invalid_provider_api_text(p),
    }
}

impl ConfigCheckError {
    /// A description of the error.
    pub fn message(&self) -> (r: String)
        ensures
            r@ == config_check_error_text(*self),
    {
        match self {
            ConfigCheckError::Trust(e) => e.message(),
            ConfigCheckError::Provider(e) => e.message(),
        }
    }
}

/// Checks a configuration document, its trust entries first and then its
/// providers, and gives the canonical configuration it stands for.
pub fn checked_talon_config(d: &ConfigDocument) -> (r: Result<TalonConfig, ConfigCheckError>)
    ensures
        match (entries_problem_of(d.trust), providers_problem(document_provider_settings(*d))) {
            (Some((name, p)), _) => r matches Err(ConfigCheckError::Trust(e)) && e.entry@ == name
                && e.problem == p,
            (None, Some((name, api))) => r matches Err(ConfigCheckError::Provider(e)) && e.name@ == name
                && e.api@ == api,
            (None, None) => r matches Ok(c) && config_converted(*d, c),
        },
{
    match validate_trust_config(&d.trust) {
        Ok(()) => {},
        Err(e) => {
            return Err(ConfigCheckError::Trust(e));
        },
    }
    let mut settings: Vec<ProviderSettings> = Vec::new();
    push_settings(&mut settings, &d.providers);
    push_settings(&mut settings, &d.llm_providers);
    assert(settings@ =~= document_provider_settings(*d));
    match validate_provider_config(&settings) {
        Ok(()) => {},
        Err(e) => {
            return Err(ConfigCheckError::Provider(e));
        },
    }
    Ok(talon_config(d))
}

/// The first problem of the trust entries, if there are any.
pub open spec fn entries_problem_of(t: Option<TrustConfig>) -> Option<(Seq<char>, TrustProblem)> {
    match t {
        Some(c) => entries_problem(c.oidc@),
        None => None,
    }
}

// ---------------------------------------------------------------------------
// Laws

/// The provider of the last entry named `name`, if any.
pub open spec fn last_entry(ps: Seq<(String, ProviderSpec)>, name: Seq<char>) -> Option<ProviderSpec>
    decreases ps.len(),
{
    if ps.len() == 0 {
        None
    } else if ps.last().0@ == name {
        Some(ps.last().1)
    } else {
        last_entry(ps.drop_last(), name)
    }
}

proof fn lemma_set_providers_lookup(m: Map<Seq<char>, ProviderSpec>, ps: Seq<(String, ProviderSpec)>, name: Seq<char>)
    ensures
        set_providers(m, ps).contains_key(name) == (last_entry(ps, name) is Some || m.contains_key(name)),
        set_providers(m, ps).contains_key(name) ==> set_providers(m, ps)[name] == match last_entry(ps, name) {
            Some(p) => p,
            None => m[name],
        },
    decreases ps.len(),
{
    if ps.len() > 0 {
        lemma_set_providers_lookup(m, ps.drop_last(), name);
    }
}

/// A provider name of the canonical configuration has the provider of its
/// last entry in `llm_providers` when it has one there, else that of its
/// last entry in `providers`; other names are not there.
pub proof fn lemma_llm_providers_win(
    providers: Seq<(String, ProviderSpec)>,
    llm_providers: Seq<(String, ProviderSpec)>,
    name: Seq<char>,
)
    ensures
        ({
            let m = set_providers(set_providers(Map::empty(), providers), llm_providers);
            &&& m.contains_key(name) == (last_entry(llm_providers, name) is Some || last_entry(
                providers,
                name,
            ) is Some)
            &&& last_entry(llm_providers, name) matches Some(p) ==> m[name] == p
            &&& last_entry(llm_providers, name) is None ==> (last_entry(providers, name) matches Some(p)
                ==> m[name] == p)
        }),
{
    lemma_set_providers_lookup(Map::empty(), providers, name);
    lemma_set_providers_lookup(set_providers(Map::empty(), providers), llm_providers, name);
}

} // verus!
