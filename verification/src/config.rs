//! Configuration resolution: persisted settings, per-field environment
//! overrides, and provider identity are folded into a fully-resolved
//! endpoint/key/model/prompt tuple. Resolution is total: every field of the
//! result is non-empty whatever the inputs.

use vstd::prelude::*;

use crate::text::{is_blank, is_blank_str, spec_contains, spec_trim, contains_str, trim};

verus! {

/// The AI backend identity. OpenAI and Gemini use fixed well-known base URLs;
/// Ollama and Custom use the user-supplied (or default local) base URL.
#[derive(Clone, Copy, PartialEq, Eq, Structural, Debug)]
pub enum Provider {
    OpenAI,
    Gemini,
    Ollama,
    Custom,
}

/// The persisted user settings. Blank fields mean "use the fallback chain".
#[derive(Clone, Debug)]
pub struct AppSettings {
    /// Provider identity as stored, matched case-insensitively by
    /// [`provider_of`].
    pub ai_provider: String,
    /// Base URL for providers without a fixed one.
    pub api_base: String,
    pub api_key: String,
    pub model: String,
    pub system_prompt: String,
    /// Global shortcut accelerator; blank falls back to the built-in default.
    pub hotkey: String,
}

/// Environment overrides, read by the host process before resolution. `None`
/// means the variable is absent; a blank value is treated as absent as well.
#[derive(Clone, Debug)]
pub struct EnvOverrides {
    pub api_base: Option<String>,
    pub api_key: Option<String>,
    pub model: Option<String>,
}

/// A fully-resolved configuration, recomputed per request and never persisted.
/// Every field is non-empty after [`resolve`]
/// (see [`lemma_resolved_fields_nonempty`]).
#[derive(Clone, Debug)]
pub struct ResolvedConfig {
    pub endpoint: String,
    pub api_key: String,
    pub model: String,
    pub system_prompt: String,
}

/// The default base URL: a local model-serving port.
pub fn default_api_base() -> (r: String)
    ensures
        r@ == "http://localhost:11434/v1"@,
{
    String::from_str("http://localhost:11434/v1")
}

/// The default API key: a documented non-secret placeholder, acceptable for
/// local providers that ignore authentication.
pub fn default_api_key() -> (r: String)
    ensures
        r@ == "ollama"@,
{
    String::from_str("ollama")
}

/// The default model for the default (local) base URL.
pub fn default_model() -> (r: String)
    ensures
        r@ == "gemma3"@,
{
    String::from_str("gemma3")
}

/// The default system prompt stored with fresh settings.
pub fn default_system_prompt() -> (r: String)
    ensures
        r@
            == "You are a grammar and style fixer. Given the user's text, reply with ONLY a single JSON object (no other text, no markdown). Use this exact shape:\n{\"corrected\": \"<the corrected text>\"}\nNo explanation. Output nothing but this JSON."@,
{
    String::from_str(
        "You are a grammar and style fixer. Given the user's text, reply with ONLY a single JSON object (no other text, no markdown). Use this exact shape:\n{\"corrected\": \"<the corrected text>\"}\nNo explanation. Output nothing but this JSON.",
    )
}

/// The built-in instruction used by [`resolve`] when the stored system prompt
/// is blank. It mandates the single-key JSON object response shape because
/// JSON-object output enforcement constrains only validity, not the keys.
pub open spec fn spec_builtin_system_prompt() -> Seq<char> {
    "You are a grammar and style fixer. Reply with a single JSON object only. Use this exact shape:\n{\"corrected\": \"<the corrected text>\"}\nOutput nothing else. No explanation, no markdown."@
}

/// Executable counterpart of [`spec_builtin_system_prompt`].
pub fn builtin_system_prompt() -> (r: String)
    ensures
        r@ == spec_builtin_system_prompt(),
{
    String::from_str(
        "You are a grammar and style fixer. Reply with a single JSON object only. Use this exact shape:\n{\"corrected\": \"<the corrected text>\"}\nOutput nothing else. No explanation, no markdown.",
    )
}

impl Default for AppSettings {
    /// Fresh settings: the documented defaults, no provider, no hotkey (both
    /// resolve to their built-in fallbacks).
    fn default() -> (r: Self)
        ensures
            r.ai_provider@ == Seq::<char>::empty(),
            r.api_base@ == "http://localhost:11434/v1"@,
            r.api_key@ == "ollama"@,
            r.model@ == "gemma3"@,
            r.system_prompt@
                == "You are a grammar and style fixer. Given the user's text, reply with ONLY a single JSON object (no other text, no markdown). Use this exact shape:\n{\"corrected\": \"<the corrected text>\"}\nNo explanation. Output nothing but this JSON."@,
            r.hotkey@ == Seq::<char>::empty(),
    {
        AppSettings {
            ai_provider: String::new(),
            api_base: default_api_base(),
            api_key: default_api_key(),
            model: default_model(),
            system_prompt: default_system_prompt(),
            hotkey: String::new(),
        }
    }
}

/// The lower-case ASCII code of `c`: upper-case ASCII letters are folded,
/// every other character is kept.
pub open spec fn lower_code(c: char) -> int {
    if 'A' <= c && c <= 'Z' {
        (c as u32) + 32
    } else {
        c as u32 as int
    }
}

/// Case-insensitive (ASCII) equality of two character sequences.
pub open spec fn spec_ci_eq(a: Seq<char>, b: Seq<char>) -> bool {
    a.len() == b.len() && forall|i: int| 0 <= i < a.len() ==> lower_code(a[i]) == lower_code(b[i])
}

fn lower_code_exec(c: char) -> (r: u32)
    ensures
        r == lower_code(c),
{
    if 'A' <= c && c <= 'Z' {
        (c as u32) + 32
    } else {
        c as u32
    }
}

/// Executable counterpart of [`spec_ci_eq`].
fn ci_eq_str(a: &str, b: &str) -> (r: bool)
    ensures
        r == spec_ci_eq(a@, b@),
{
    let an = a.unicode_len();
    let bn = b.unicode_len();
    if an != bn {
        return false;
    }
    let mut i: usize = 0;
    while i < an
        invariant
            0 <= i <= an,
            an == a@.len(),
            an == b@.len(),
            forall|j: int| 0 <= j < i ==> lower_code(a@[j]) == lower_code(b@[j]),
        decreases an - i,
    {
        if lower_code_exec(a.get_char(i)) != lower_code_exec(b.get_char(i)) {
            return false;
        }
        i = i + 1;
    }
    true
}

/// The provider named by a stored identity string: trimmed, matched
/// case-insensitively; anything unrecognized is treated as a custom endpoint.
pub open spec fn spec_provider_of(s: Seq<char>) -> Provider {
    let t = spec_trim(s);
    if spec_ci_eq(t, "openai"@) {
        Provider::OpenAI
    } else if spec_ci_eq(t, "gemini"@) {
        Provider::Gemini
    } else if spec_ci_eq(t, "ollama"@) {
        Provider::Ollama
    } else {
        Provider::Custom
    }
}

/// Parses a stored provider identity string.
pub fn provider_of(s: &str) -> (p: Provider)
    ensures
        p == spec_provider_of(s@),
{
    let t = trim(s);
    if ci_eq_str(t, "openai") {
        Provider::OpenAI
    } else if ci_eq_str(t, "gemini") {
        Provider::Gemini
    } else if ci_eq_str(t, "ollama") {
        Provider::Ollama
    } else {
        Provider::Custom
    }
}

/// The default model for a resolved base URL: distinct defaults for the two
/// well-known hosts, the generic local default otherwise.
pub open spec fn spec_default_model_for(base: Seq<char>) -> Seq<char> {
    if spec_contains(base, "api.openai.com"@) {
        "gpt-5-nano"@
    } else if spec_contains(base, "generativelanguage.googleapis.com"@) {
        "gemini-3-flash-preview"@
    } else {
        "gemma3"@
    }
}

/// Picks the default model by inspecting the resolved base URL's host.
pub fn default_model_for_base(base: &str) -> (r: &str)
    ensures
        r@ == spec_default_model_for(base@),
{
    if contains_str(base, "api.openai.com") {
        "gpt-5-nano"
    } else if contains_str(base, "generativelanguage.googleapis.com") {
        "gemini-3-flash-preview"
    } else {
        "gemma3"
    }
}

/// An environment override if present and non-blank, the fallback otherwise.
pub open spec fn spec_env_or(env: Option<Seq<char>>, fallback: Seq<char>) -> Seq<char> {
    match env {
        Some(e) => if !is_blank(e) {
            e
        } else {
            fallback
        },
        None => fallback,
    }
}

fn env_or(env: &Option<String>, fallback: &str) -> (r: String)
    ensures
        r@ == spec_env_or(env.deep_view(), fallback@),
{
    match env {
        Some(e) => {
            if !is_blank_str(e.as_str()) {
                e.clone()
            } else {
                String::from_str(fallback)
            }
        },
        None => String::from_str(fallback),
    }
}

/// The resolved endpoint: the provider's fixed URL for OpenAI and Gemini
/// (the stored base is ignored entirely), otherwise the stored base if
/// non-blank (trimmed), else the environment override, else the local default.
pub open spec fn spec_resolved_endpoint(
    provider: Provider,
    api_base: Seq<char>,
    env_base: Option<Seq<char>>,
) -> Seq<char> {
    match provider {
        Provider::OpenAI => "https://api.openai.com/v1"@,
        Provider::Gemini => "https://generativelanguage.googleapis.com/v1beta"@,
        Provider::Ollama | Provider::Custom => if !is_blank(api_base) {
            spec_trim(api_base)
        } else {
            spec_env_or(env_base, "http://localhost:11434/v1"@)
        },
    }
}

/// The resolved API key: the stored key if non-blank, else the environment
/// override, else the documented placeholder.
pub open spec fn spec_resolved_key(api_key: Seq<char>, env_key: Option<Seq<char>>) -> Seq<char> {
    if !is_blank(api_key) {
        api_key
    } else {
        spec_env_or(env_key, "ollama"@)
    }
}

/// The resolved model: the stored model if non-blank, else the environment
/// override, else the default for the resolved endpoint's host.
pub open spec fn spec_resolved_model(
    model: Seq<char>,
    env_model: Option<Seq<char>>,
    endpoint: Seq<char>,
) -> Seq<char> {
    if !is_blank(model) {
        model
    } else {
        spec_env_or(env_model, spec_default_model_for(endpoint))
    }
}

/// The resolved system prompt: the stored prompt if non-blank, else the
/// built-in instruction.
pub open spec fn spec_resolved_prompt(system_prompt: Seq<char>) -> Seq<char> {
    if !is_blank(system_prompt) {
        system_prompt
    } else {
        spec_builtin_system_prompt()
    }
}

/// Resolves settings, environment overrides, and provider identity into a
/// usable configuration. Total: it never fails, and each field falls back
/// independently of the others.
pub fn resolve(settings: &AppSettings, provider: Provider, env: &EnvOverrides) -> (r:
    ResolvedConfig)
    ensures
        r.endpoint@ == spec_resolved_endpoint(provider, settings.api_base@, env.api_base.deep_view()),
        r.api_key@ == spec_resolved_key(settings.api_key@, env.api_key.deep_view()),
        r.model@ == spec_resolved_model(
            settings.model@,
            env.model.deep_view(),
            spec_resolved_endpoint(provider, settings.api_base@, env.api_base.deep_view()),
        ),
        r.system_prompt@ == spec_resolved_prompt(settings.system_prompt@),
        r.endpoint@.len() > 0,
        r.api_key@.len() > 0,
        r.model@.len() > 0,
        r.system_prompt@.len() > 0,
{
    proof {
        lemma_resolved_fields_nonempty(
            provider,
            settings.api_base@,
            env.api_base.deep_view(),
            settings.api_key@,
            env.api_key.deep_view(),
            settings.model@,
            env.model.deep_view(),
            settings.system_prompt@,
        );
    }
    let endpoint: String = match provider {
        Provider::OpenAI => String::from_str("https://api.openai.com/v1"),
        Provider::Gemini => String::from_str("https://generativelanguage.googleapis.com/v1beta"),
        Provider::Ollama | Provider::Custom => {
            if !is_blank_str(settings.api_base.as_str()) {
                String::from_str(trim(settings.api_base.as_str()))
            } else {
                env_or(&env.api_base, "http://localhost:11434/v1")
            }
        },
    };
    let api_key: String = if !is_blank_str(settings.api_key.as_str()) {
        settings.api_key.clone()
    } else {
        env_or(&env.api_key, "ollama")
    };
    let model: String = if !is_blank_str(settings.model.as_str()) {
        settings.model.clone()
    } else {
        env_or(&env.model, default_model_for_base(endpoint.as_str()))
    };
    let system_prompt: String = if !is_blank_str(settings.system_prompt.as_str()) {
        settings.system_prompt.clone()
    } else {
        builtin_system_prompt()
    };
    ResolvedConfig { endpoint, api_key, model, system_prompt }
}

/// For the fixed-URL providers, resolution ignores the stored base URL and
/// the environment entirely: the endpoint is the provider's well-known URL.
pub proof fn lemma_fixed_provider_endpoint(api_base: Seq<char>, env_base: Option<Seq<char>>)
    ensures
        spec_resolved_endpoint(Provider::OpenAI, api_base, env_base)
            == "https://api.openai.com/v1"@,
        spec_resolved_endpoint(Provider::Gemini, api_base, env_base)
            == "https://generativelanguage.googleapis.com/v1beta"@,
{
}

/// With every stored field blank and no environment overrides, resolution
/// yields exactly the documented defaults, independent of the other fields:
/// the local base URL (for providers without a fixed one), the placeholder
/// key, the model chosen from the resolved endpoint's host, and the built-in
/// instruction prompt.
pub proof fn lemma_blank_settings_resolve_to_defaults(
    provider: Provider,
    api_base: Seq<char>,
    api_key: Seq<char>,
    model: Seq<char>,
    system_prompt: Seq<char>,
)
    requires
        is_blank(api_base),
        is_blank(api_key),
        is_blank(model),
        is_blank(system_prompt),
    ensures
        (provider is Ollama || provider is Custom) ==> spec_resolved_endpoint(
            provider,
            api_base,
            None,
        ) == "http://localhost:11434/v1"@,
        spec_resolved_key(api_key, None) == "ollama"@,
        spec_resolved_model(model, None, spec_resolved_endpoint(provider, api_base, None))
            == spec_default_model_for(spec_resolved_endpoint(provider, api_base, None)),
        spec_resolved_prompt(system_prompt) == spec_builtin_system_prompt(),
{
}

/// Resolution always produces non-empty fields, whatever the inputs: the
/// invariant of [`ResolvedConfig`].
pub proof fn lemma_resolved_fields_nonempty(
    provider: Provider,
    api_base: Seq<char>,
    env_base: Option<Seq<char>>,
    api_key: Seq<char>,
    env_key: Option<Seq<char>>,
    model: Seq<char>,
    env_model: Option<Seq<char>>,
    system_prompt: Seq<char>,
)
    ensures
        spec_resolved_endpoint(provider, api_base, env_base).len() > 0,
        spec_resolved_key(api_key, env_key).len() > 0,
        spec_resolved_model(
            model,
            env_model,
            spec_resolved_endpoint(provider, api_base, env_base),
        ).len() > 0,
        spec_resolved_prompt(system_prompt).len() > 0,
{
    reveal_strlit("https://api.openai.com/v1");
    reveal_strlit("https://generativelanguage.googleapis.com/v1beta");
    reveal_strlit("http://localhost:11434/v1");
    reveal_strlit("ollama");
    reveal_strlit("gpt-5-nano");
    reveal_strlit("gemini-3-flash-preview");
    reveal_strlit("gemma3");
    reveal_strlit(
        "You are a grammar and style fixer. Reply with a single JSON object only. Use this exact shape:\n{\"corrected\": \"<the corrected text>\"}\nOutput nothing else. No explanation, no markdown.",
    );
    crate::text::lemma_trim_len(api_base);
    crate::text::lemma_trim_len(api_key);
    crate::text::lemma_trim_len(model);
    crate::text::lemma_trim_len(system_prompt);
    match env_base {
        Some(e) => crate::text::lemma_trim_len(e),
        None => (),
    }
    match env_key {
        Some(e) => crate::text::lemma_trim_len(e),
        None => (),
    }
    match env_model {
        Some(e) => crate::text::lemma_trim_len(e),
        None => (),
    }
}

} // verus!
