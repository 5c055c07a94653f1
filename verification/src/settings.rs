use vstd::prelude::*;
use vstd::string::*;
use crate::errors::StreamError;
use crate::text::{
    spec_trim, seq_ends_with, trim_chars, chars_of, chars_subrange, chars_ends_with,
    string_from_chars,
};

verus! {

/// The configuration a completion call runs with, fully resolved.
pub struct ApiSettings {
    pub api_key: String,
    pub api_base: String,
    pub model_name: String,
}

/// The environment fallbacks, read by the caller from the recognized
/// variables (API key, API base, model name) and handed in as plain
/// values.
pub struct EnvSettings {
    pub api_key: Option<String>,
    pub api_base: Option<String>,
    pub model_name: Option<String>,
}

/// The hardcoded default API base, the lowest-priority fallback.
pub open spec fn default_api_base() -> Seq<char> {
    "https://api.siliconflow.cn/v1"@
}

/// The hardcoded default model name, the lowest-priority fallback.
pub open spec fn default_model_name() -> Seq<char> {
    "Pro/MiniMaxAI/MiniMax-M2.5"@
}

pub fn default_api_base_string() -> (r: String)
    ensures
        r@ == default_api_base(),
{
    String::from_str("https://api.siliconflow.cn/v1")
}

pub fn default_model_name_string() -> (r: String)
    ensures
        r@ == default_model_name(),
{
    String::from_str("Pro/MiniMaxAI/MiniMax-M2.5")
}

/// A candidate configuration value: its trimmed text when that is
/// non-empty, nothing otherwise.
pub open spec fn spec_normalize(v: Option<String>) -> Option<Seq<char>> {
    match v {
        None => None,
        Some(s) => if spec_trim(s@).len() == 0 {
            None
        } else {
            Some(spec_trim(s@))
        },
    }
}

/// Trims a candidate value and drops it when blank.
pub fn normalize_optional(value: Option<String>) -> (r: Option<String>)
    ensures
        (r is Some) == (spec_normalize(value) is Some),
        r matches Some(s) ==> Some(s@) == spec_normalize(value),
{
    match value {
        None => None,
        Some(s) => {
            let cs = chars_of(s.as_str());
            let t = trim_chars(&cs);
            if t.len() == 0 {
                None
            } else {
                Some(string_from_chars(&t))
            }
        },
    }
}

/// A value resolved from the explicit call-time parameter first, the
/// environment second: the higher-priority source wins whenever it is
/// usable (present and not blank).
pub open spec fn spec_resolved(explicit: Option<String>, env: Option<String>) -> Option<
    Seq<char>,
> {
    match spec_normalize(explicit) {
        Some(k) => Some(k),
        None => spec_normalize(env),
    }
}

/// A value resolved from explicit parameter, environment, and a
/// hardcoded default, in that priority order.
pub open spec fn spec_resolved_or_default(
    explicit: Option<String>,
    env: Option<String>,
    default: Seq<char>,
) -> Seq<char> {
    match spec_resolved(explicit, env) {
        Some(v) => v,
        None => default,
    }
}

/// Resolves API key, API base and model name from explicit call-time
/// parameters, environment fallbacks and hardcoded defaults, in that
/// priority order. Fails exactly when no API key is resolvable from
/// any source; base and model never fail, they default.
pub fn resolve_api_settings(
    api_key: Option<String>,
    api_base: Option<String>,
    model_name: Option<String>,
    env: EnvSettings,
) -> (r: Result<ApiSettings, StreamError>)
    ensures
        (r is Ok) == (spec_resolved(api_key, env.api_key) is Some),
        r matches Ok(s) ==> Some(s.api_key@) == spec_resolved(api_key, env.api_key)
            && s.api_base@ == spec_resolved_or_default(api_base, env.api_base, default_api_base())
            && s.model_name@ == spec_resolved_or_default(
            model_name,
            env.model_name,
            default_model_name(),
        ),
        r matches Err(e) ==> e is MissingCredential,
{
    let resolved_key = match normalize_optional(api_key) {
        Some(k) => k,
        None => match normalize_optional(env.api_key) {
            Some(k) => k,
            None => {
                return Err(StreamError::MissingCredential);
            },
        },
    };
    let resolved_base = match normalize_optional(api_base) {
        Some(b) => b,
        None => match normalize_optional(env.api_base) {
            Some(b) => b,
            None => default_api_base_string(),
        },
    };
    let resolved_model = match normalize_optional(model_name) {
        Some(m) => m,
        None => match normalize_optional(env.model_name) {
            Some(m) => m,
            None => default_model_name_string(),
        },
    };
    Ok(ApiSettings { api_key: resolved_key, api_base: resolved_base, model_name: resolved_model })
}

/// The fixed path under which the chat-completion endpoint lives.
pub open spec fn chat_completions_suffix() -> Seq<char> {
    "/chat/completions"@
}

/// `s` with every trailing slash removed.
pub open spec fn spec_trim_trailing_slashes(s: Seq<char>) -> Seq<char>
    decreases s.len(),
{
    if s.len() > 0 && s.last() == '/' {
        spec_trim_trailing_slashes(s.drop_last())
    } else {
        s
    }
}

/// The endpoint a base URL resolves to: the base with trailing slashes
/// stripped, used verbatim when it already ends with
/// `/chat/completions` and with that path appended otherwise.
pub open spec fn spec_chat_endpoint(base: Seq<char>) -> Seq<char> {
    let b = spec_trim_trailing_slashes(base);
    if seq_ends_with(b, chat_completions_suffix()) {
        b
    } else {
        b + chat_completions_suffix()
    }
}

/// Builds the chat-completion endpoint for a base URL.
pub fn build_chat_endpoint(api_base: &str) -> (r: String)
    ensures
        r@ == spec_chat_endpoint(api_base@),
{
    let cs = chars_of(api_base);
    proof {
        assert(cs@.subrange(0, cs@.len() as int) =~= cs@);
    }
    let mut hi: usize = cs.len();
    while hi > 0 && cs[hi - 1] == '/'
        invariant
            hi <= cs@.len(),
            spec_trim_trailing_slashes(cs@) == spec_trim_trailing_slashes(
                cs@.subrange(0, hi as int),
            ),
        decreases hi,
    {
        proof {
            let sub = cs@.subrange(0, hi as int);
            assert(sub.last() == cs@[hi as int - 1]);
            assert(sub.drop_last() =~= cs@.subrange(0, hi as int - 1));
        }
        hi = hi - 1;
    }
    proof {
        let sub = cs@.subrange(0, hi as int);
        if hi > 0 {
            assert(sub.last() == cs@[hi as int - 1]);
        }
        assert(spec_trim_trailing_slashes(sub) == sub);
    }
    let b = chars_subrange(&cs, 0, hi);
    let suffix = chars_of("/chat/completions");
    if chars_ends_with(&b, &suffix) {
        string_from_chars(&b)
    } else {
        let mut s = string_from_chars(&b);
        s.append("/chat/completions");
        s
    }
}

/// Law: an explicit, usable call-time value overrides whatever the
/// environment holds.
pub proof fn lemma_explicit_overrides_env(explicit: Option<String>, env: Option<String>)
    requires
        spec_normalize(explicit) is Some,
    ensures
        spec_resolved(explicit, env) == spec_normalize(explicit),
{
}

/// Law: without a usable explicit value, the environment value is
/// taken whenever it is usable.
pub proof fn lemma_env_fallback(explicit: Option<String>, env: Option<String>)
    requires
        spec_normalize(explicit) is None,
    ensures
        spec_resolved(explicit, env) == spec_normalize(env),
{
}

/// Law: with neither source usable, the hardcoded default stands.
pub proof fn lemma_default_fallback(
    explicit: Option<String>,
    env: Option<String>,
    default: Seq<char>,
)
    requires
        spec_normalize(explicit) is None,
        spec_normalize(env) is None,
    ensures
        spec_resolved_or_default(explicit, env, default) == default,
{
}

/// Law: a base that, once its trailing slashes are stripped, already
/// ends with `/chat/completions` passes through unchanged.
pub proof fn lemma_endpoint_passthrough(base: Seq<char>)
    requires
        seq_ends_with(spec_trim_trailing_slashes(base), chat_completions_suffix()),
    ensures
        spec_chat_endpoint(base) == spec_trim_trailing_slashes(base),
{
}

} // verus!
