//! The correction client: turning a user's text and a resolved configuration
//! into a chat-completion request, and a response into the corrected text.
//! The network call itself is performed by the host; everything decided
//! before and after it is verified here, including the two-stage lenient
//! parse of the model's answer — strict schema first, raw passthrough second,
//! so output that ignores the requested shape degrades instead of failing.

use vstd::prelude::*;

use crate::config::ResolvedConfig;
use crate::protocol::{
    build_chat_body, chat_url, fix_prompt, spec_chat_body, spec_chat_url, spec_fix_prompt,
    spec_strip_fence, strip_markdown_code_fence,
};
use crate::text::{is_blank, is_blank_str, spec_decimal, spec_trim, trim, u16_decimal};

verus! {

/// One corrected text, produced exactly once per fix request and immutable
/// after construction.
#[derive(Clone, Debug)]
pub struct Correction {
    pub original: String,
    pub corrected: String,
    pub explanation: Option<String>,
}

/// Why a correction failed. Every variant is surfaced verbatim to the caller;
/// none is retried automatically.
#[derive(Clone, Debug)]
pub enum CorrectionError {
    /// The input was empty or whitespace; rejected before any I/O.
    Validation,
    /// The API answered with a non-success status; the status and body are
    /// carried as received.
    Api { status: u16, body: String },
    /// The response envelope could not be read (no parsable
    /// `choices[0].message.content`).
    Protocol,
    /// The transport failed below HTTP.
    Network { cause: String },
    /// The request ran into its time bound.
    Timeout { cause: String },
}

impl CorrectionError {
    /// A human-readable failure message.
    pub fn message(&self) -> (r: String)
        ensures
            self is Validation ==> r@ == "No text to fix after filtering."@,
            self matches CorrectionError::Api { status, body } ==> r@ == "API error "@
                + spec_decimal(status as int) + ": "@ + body@,
            self is Protocol ==> r@ == "API returned no choices or content"@,
            self matches CorrectionError::Network { cause } ==> r@ == cause@,
            self matches CorrectionError::Timeout { cause } ==> r@ == cause@,
    {
        match self {
            CorrectionError::Validation => String::from_str("No text to fix after filtering."),
            CorrectionError::Api { status, body } => {
                let mut r = String::from_str("API error ");
                let digits = u16_decimal(*status);
                r.append(digits.as_str());
                r.append(": ");
                r.append(body.as_str());
                r
            },
            CorrectionError::Protocol => String::from_str("API returned no choices or content"),
            CorrectionError::Network { cause } => cause.clone(),
            CorrectionError::Timeout { cause } => cause.clone(),
        }
    }
}

/// Everything the host needs to perform one chat-completion POST: the URL,
/// the bearer key for the Authorization header (omitted when absent), the
/// JSON body, and the request's time bound.
#[derive(Clone, Debug)]
pub struct ChatRequestPlan {
    pub url: String,
    pub bearer_key: Option<String>,
    pub body: String,
    pub timeout_secs: u64,
}

/// The time bound of a correction request, in seconds.
pub const FIX_TIMEOUT_SECS: u64 = 60;

/// The time bound of a connectivity test, in seconds.
pub const TEST_TIMEOUT_SECS: u64 = 15;

/// Plans the correction request for `text`. Blank input — empty or
/// whitespace only — is rejected here, before any network call, with the
/// validation error; for any other input the plan carries the
/// chat-completions URL, the framed two-message body with JSON-object output
/// requested, and the bearer key exactly when the resolved key is non-empty.
pub fn build_fix_request(text: &str, config: &ResolvedConfig) -> (r: Result<
    ChatRequestPlan,
    CorrectionError,
>)
    ensures
        r is Err <==> is_blank(text@),
        r matches Err(e) ==> e is Validation,
        r matches Ok(p) ==> {
            &&& p.url@ == spec_chat_url(config.endpoint@)
            &&& p.body@ == spec_chat_body(
                config.model@,
                config.system_prompt@,
                spec_fix_prompt(text@),
                true,
            )
            &&& (config.api_key@.len() == 0 ==> p.bearer_key is None)
            &&& (config.api_key@.len() > 0 ==> (p.bearer_key matches Some(k) && k@
                == config.api_key@))
            &&& p.timeout_secs == FIX_TIMEOUT_SECS
        },
{
    if is_blank_str(text) {
        return Err(CorrectionError::Validation);
    }
    let user = fix_prompt(text);
    let body = build_chat_body(
        config.model.as_str(),
        config.system_prompt.as_str(),
        user.as_str(),
        true,
    );
    let bearer_key = if config.api_key.as_str().unicode_len() > 0 {
        Some(config.api_key.clone())
    } else {
        None
    };
    Ok(
        ChatRequestPlan {
            url: chat_url(config.endpoint.as_str()),
            bearer_key,
            body,
            timeout_secs: FIX_TIMEOUT_SECS,
        },
    )
}

/// Plans the minimal connectivity-test exchange: a fixed system/user pair,
/// no output-shape enforcement, and the shorter time bound.
pub fn build_test_request(config: &ResolvedConfig) -> (p: ChatRequestPlan)
    ensures
        p.url@ == spec_chat_url(config.endpoint@),
        p.body@ == spec_chat_body(
            config.model@,
            "Reply with only the word OK."@,
            "test"@,
            false,
        ),
        config.api_key@.len() == 0 ==> p.bearer_key is None,
        config.api_key@.len() > 0 ==> (p.bearer_key matches Some(k) && k@ == config.api_key@),
        p.timeout_secs == TEST_TIMEOUT_SECS,
{
    let body = build_chat_body(
        config.model.as_str(),
        "Reply with only the word OK.",
        "test",
        false,
    );
    let bearer_key = if config.api_key.as_str().unicode_len() > 0 {
        Some(config.api_key.clone())
    } else {
        None
    };
    ChatRequestPlan {
        url: chat_url(config.endpoint.as_str()),
        bearer_key,
        body,
        timeout_secs: TEST_TIMEOUT_SECS,
    }
}

/// What the response envelope holds: `None` when the body is not a JSON
/// object with a `choices` array, otherwise the number of choices together
/// with `choices[0].message.content` when that member is a string.
pub uninterp spec fn chat_envelope_of(body: Seq<char>) -> Option<(nat, Option<Seq<char>>)>;

/// Relies on serde_json's `from_str` and `Value` accessors (`get`,
/// `as_array`, `as_str`): reads the chat-completion envelope
/// `{choices: [{message: {content}}]}` and hands back the choice count and
/// the first choice's content, `None` when there is no `choices` array —
/// a pure function of the body text, named by [`chat_envelope_of`].
#[verifier::external_body]
fn parse_chat_envelope(body: &str) -> (r: Option<(usize, Option<String>)>)
    ensures
        match r {
            None => chat_envelope_of(body@) is None,
            Some(p) => chat_envelope_of(body@) == Some((p.0 as nat, p.1.deep_view())),
        },
{
    let v: serde_json::Value = serde_json::from_str(body).ok()?;
    let choices = v.get("choices")?.as_array()?;
    let content = choices
        .get(0)
        .and_then(|c| c.get("message"))
        .and_then(|m| m.get("content"))
        .and_then(|x| x.as_str())
        .map(|s| s.to_string());
    Some((choices.len(), content))
}

/// What the strict schema parse yields: `Some` exactly when `s` is a JSON
/// object whose `corrected` member is a string, with that string's value.
pub uninterp spec fn corrected_field_of(s: Seq<char>) -> Option<Seq<char>>;

/// Relies on serde_json's `from_str` and `Value` accessors (`get`,
/// `as_str`): reads the `corrected` member of a JSON object — a pure
/// function of the text, named by [`corrected_field_of`].
#[verifier::external_body]
fn parse_corrected_field(s: &str) -> (r: Option<String>)
    ensures
        r.deep_view() == corrected_field_of(s@),
{
    let v: serde_json::Value = serde_json::from_str(s).ok()?;
    let c = v.get("corrected")?.as_str()?;
    Some(c.to_string())
}

/// The corrected text inside response content: the content is stripped of
/// one optional markdown fence, then parsed against the strict
/// `{"corrected": ...}` schema; if that fails, the entire content as handed
/// in — not the stripped form — is the answer, verbatim. Schema-ignoring
/// output is passed through, never an error.
pub open spec fn spec_extract_corrected(content: Seq<char>) -> Seq<char> {
    match corrected_field_of(spec_strip_fence(content)) {
        Some(c) => c,
        None => content,
    }
}

/// Extracts the corrected text from response content, leniently.
pub fn extract_corrected(content: &str) -> (r: String)
    ensures
        r@ == spec_extract_corrected(content@),
{
    let stripped = strip_markdown_code_fence(content);
    match parse_corrected_field(stripped) {
        Some(c) => c,
        None => String::from_str(content),
    }
}

/// Whether an HTTP status reports success.
pub open spec fn is_success_status(status: u16) -> bool {
    200 <= status < 300
}

/// Interprets the response to a correction request, in order: a non-success
/// status is the API's error, carried with its status and body; an envelope
/// without readable content is a protocol error; otherwise the content,
/// trimmed, yields the correction via the lenient two-stage parse, paired
/// with the original text.
pub fn interpret_fix_response(original: String, status: u16, body: String) -> (r: Result<
    Correction,
    CorrectionError,
>)
    ensures
        !is_success_status(status) ==> (r matches Err(e) && (e matches CorrectionError::Api {
            status: s,
            body: b,
        } && s == status && b@ == body@)),
        is_success_status(status) ==> match chat_envelope_of(body@) {
            None => r matches Err(e) && e is Protocol,
            Some(env) => match env.1 {
                None => r matches Err(e) && e is Protocol,
                Some(content) => r matches Ok(c) && c.original@ == original@ && c.corrected@
                    == spec_extract_corrected(spec_trim(content)) && c.explanation is None,
            },
        },
{
    if !(200 <= status && status < 300) {
        return Err(CorrectionError::Api { status, body });
    }
    match parse_chat_envelope(body.as_str()) {
        None => Err(CorrectionError::Protocol),
        Some((_, None)) => Err(CorrectionError::Protocol),
        Some((_, Some(content))) => {
            let trimmed = trim(content.as_str());
            let corrected = extract_corrected(trimmed);
            Ok(Correction { original, corrected, explanation: None })
        },
    }
}

/// Interprets the response to a connectivity test: a non-success status is
/// the API's error; a body without a `choices` array, or with an empty one,
/// is a protocol error; at least one choice — whatever its content — means
/// the endpoint and credentials work.
pub fn interpret_test_response(status: u16, body: String) -> (r: Result<(), CorrectionError>)
    ensures
        !is_success_status(status) ==> (r matches Err(e) && (e matches CorrectionError::Api {
            status: s,
            body: b,
        } && s == status && b@ == body@)),
        is_success_status(status) ==> match chat_envelope_of(body@) {
            None => r matches Err(e) && e is Protocol,
            Some(env) => (env.0 == 0 ==> (r matches Err(e) && e is Protocol)) && (env.0 > 0
                ==> r is Ok),
        },
{
    if !(200 <= status && status < 300) {
        return Err(CorrectionError::Api { status, body });
    }
    match parse_chat_envelope(body.as_str()) {
        None => Err(CorrectionError::Protocol),
        Some((n, _)) => {
            if n == 0 {
                Err(CorrectionError::Protocol)
            } else {
                Ok(())
            }
        },
    }
}

/// The HTTP client's error type, opaque here; only classified, never read.
#[verifier::external_type_specification]
#[verifier::external_body]
pub struct ExReqwestError(reqwest::Error);

/// Relies on reqwest's `Error::is_timeout`: whether a timeout stands
/// anywhere in the error's source chain.
pub assume_specification[ reqwest::Error::is_timeout ](e: &reqwest::Error) -> bool;

/// Relies on reqwest's `Error` `Display` implementation for the failure
/// text.
#[verifier::external_body]
fn transport_error_text(e: &reqwest::Error) -> (r: String) {
    e.to_string()
}

/// Maps a transport failure into the error taxonomy from plain values: the
/// timeout flag decides the variant, and the description is carried either
/// way.
pub fn transport_failure(timed_out: bool, cause: String) -> (r: CorrectionError)
    ensures
        timed_out ==> (r matches CorrectionError::Timeout { cause: c } && c@ == cause@),
        !timed_out ==> (r matches CorrectionError::Network { cause: c } && c@ == cause@),
{
    if timed_out {
        CorrectionError::Timeout { cause }
    } else {
        CorrectionError::Network { cause }
    }
}

/// Classifies a transport failure of the HTTP client: a timeout-flavored
/// failure exactly when the client reports one, a network failure otherwise,
/// each carrying the client's own description.
pub fn classify_transport_error(e: &reqwest::Error) -> (r: CorrectionError)
    ensures
        r is Timeout || r is Network,
{
    transport_failure(e.is_timeout(), transport_error_text(e))
}

} // verus!
