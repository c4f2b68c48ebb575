use vstd::prelude::*;

use crate::fingerprint::hex_digit;
use crate::fingerprint::hex_digit_str;

verus! {

/// Why a provider call failed.  Credential, HTTP and empty-response
/// failures are terminal for the request: they are never retried and
/// never recovered locally.
#[derive(Clone, Debug)]
pub enum ProviderError {
    /// A required API key was absent, detected before any network call.
    CredentialMissing,
    /// The provider answered with a non-success HTTP status; carries the
    /// upstream response body.
    ProviderHttpError(String),
    /// The transport succeeded but no usable text could be extracted.
    EmptyResponse,
}

/// Which backend a request is dispatched to.
#[derive(Clone, Copy, PartialEq, Eq, Structural, Debug)]
pub enum ProviderKind {
    OpenAi,
    Anthropic,
    Ollama,
}

/// Selects exactly one backend plus its settings.  Resolved once at
/// startup and read-only for the process lifetime.
pub struct ProviderConfig {
    pub kind: ProviderKind,
    /// The model name sent with every request.
    pub model: String,
    /// The base URL of a self-hosted backend.
    pub base_url: String,
    /// The API key, where one was configured.
    pub api_key: Option<String>,
}

impl ProviderConfig {
    pub fn new(kind: ProviderKind, model: String, base_url: String, api_key: Option<String>) -> (r:
        ProviderConfig)
        ensures
            r.kind == kind,
            r.model@ == model@,
            r.base_url@ == base_url@,
            r.api_key == api_key,
    {
        ProviderConfig { kind, model, base_url, api_key }
    }
}

/// Demands a configured credential: the explicit error for a missing
/// required field, raised before any network call is attempted.
pub fn require_api_key(value: Option<String>) -> (r: Result<String, ProviderError>)
    ensures
        match r {
            Result::Ok(k) => value matches Option::Some(v) && k == v,
            Result::Err(e) => value is None && e matches ProviderError::CredentialMissing,
        },
{
    match value {
        Option::Some(k) => Result::Ok(k),
        Option::None => Result::Err(ProviderError::CredentialMissing),
    }
}

/// Relies on String::push: appends exactly one character at the end.
#[verifier::external_body]
fn push_char(s: &mut String, c: char)
    ensures
        final(s)@ == old(s)@.push(c),
{
    s.push(c);
}

/// How one character appears inside a JSON string literal.
pub open spec fn escape_char(c: char) -> Seq<char> {
    if c == '"' {
        "\\\""@
    } else if c == '\\' {
        "\\\\"@
    } else if c == '\n' {
        "\\n"@
    } else if c == '\r' {
        "\\r"@
    } else if c == '\t' {
        "\\t"@
    } else if (c as u32) < 0x20 {
        "\\u00"@ + seq![hex_digit((c as u32 / 16) as u64), hex_digit((c as u32 % 16) as u64)]
    } else {
        seq![c]
    }
}

/// A character sequence escaped for inclusion in a JSON string literal.
pub open spec fn json_escaped(s: Seq<char>) -> Seq<char>
    decreases s.len(),
{
    if s.len() == 0 {
        Seq::empty()
    } else {
        json_escaped(s.drop_last()) + escape_char(s.last())
    }
}

/// Escapes a string for inclusion in a JSON string literal.
pub fn json_escape(s: &str) -> (r: String)
    ensures
        r@ == json_escaped(s@),
{
    let mut out = String::new();
    let n = s.unicode_len();
    let mut i: usize = 0;
    while i < n
        invariant
            n == s@.len(),
            i <= n,
            out@ == json_escaped(s@.take(i as int)),
        decreases n - i,
    {
        let c = s.get_char(i);
        proof {
            assert(s@.take(i + 1).drop_last() =~= s@.take(i as int));
            assert(s@.take(i + 1).last() == s@[i as int]);
        }
        if c == '"' {
            out.append("\\\"");
        } else if c == '\\' {
            out.append("\\\\");
        } else if c == '\n' {
            out.append("\\n");
        } else if c == '\r' {
            out.append("\\r");
        } else if c == '\t' {
            out.append("\\t");
        } else if (c as u32) < 0x20 {
            let v = c as u32;
            out.append("\\u00");
            out.append(hex_digit_str((v / 16) as u64));
            out.append(hex_digit_str((v % 16) as u64));
        } else {
            push_char(&mut out, c);
        }
        proof {
            assert(out@ =~= json_escaped(s@.take(i + 1)));
        }
        i = i + 1;
    }
    proof {
        assert(s@.take(n as int) =~= s@);
    }
    out
}

/// The canonical decimal rendering of a number.
pub open spec fn dec_of(n: nat) -> Seq<char>
    decreases n,
{
    if n < 10 {
        seq![hex_digit(n as u64)]
    } else {
        dec_of(n / 10) + seq![hex_digit((n % 10) as u64)]
    }
}

/// Renders a number in decimal.
pub fn dec_u32(n: u32) -> (r: String)
    ensures
        r@ == dec_of(n as nat),
    decreases n,
{
    if n < 10 {
        let d = hex_digit_str(n as u64);
        let r = d.to_owned();
        proof {
            assert(r@ =~= dec_of(n as nat));
        }
        r
    } else {
        let mut r = dec_u32(n / 10);
        r.append(hex_digit_str((n % 10) as u64));
        proof {
            assert(r@ =~= dec_of(n as nat));
        }
        r
    }
}

/// One normalized HTTP call: where to post, which headers to send, and
/// the exact JSON body.
pub struct WireRequest {
    pub url: String,
    pub headers: Vec<(String, String)>,
    pub body: String,
}

/// The parameters of a call through the hosted completions client.
pub struct OpenAiRequest {
    pub model: String,
    pub instructions: String,
    pub input: String,
    pub max_output_tokens: u32,
}

/// The JSON body posted to the Anthropic messages endpoint.
pub open spec fn anthropic_body(
    model: Seq<char>,
    max_tokens: u32,
    system: Seq<char>,
    prompt: Seq<char>,
) -> Seq<char> {
    "{\"model\":\""@ + json_escaped(model) + "\",\"max_tokens\":"@ + dec_of(max_tokens as nat)
        + ",\"system\":\""@ + json_escaped(system)
        + "\",\"messages\":[{\"role\":\"user\",\"content\":\""@ + json_escaped(prompt) + "\"}]}"@
}

/// The JSON body posted to an Ollama chat endpoint: a two-message array
/// (system, user), no streaming, and a fixed sampling temperature.
pub open spec fn ollama_body(
    model: Seq<char>,
    max_tokens: u32,
    system: Seq<char>,
    prompt: Seq<char>,
) -> Seq<char> {
    "{\"model\":\""@ + json_escaped(model) + "\",\"messages\":[{\"role\":\"system\",\"content\":\""@
        + json_escaped(system) + "\"},{\"role\":\"user\",\"content\":\""@ + json_escaped(prompt)
        + "\"}],\"stream\":false,\"options\":{\"temperature\":0.2,\"num_predict\":"@ + dec_of(
        max_tokens as nat,
    ) + "}}"@
}

/// The wire shape of an Anthropic call: the fixed messages endpoint, the
/// three documented headers, and the exact JSON body.
pub open spec fn is_anthropic_wire(
    w: WireRequest,
    model: Seq<char>,
    max_tokens: u32,
    system: Seq<char>,
    prompt: Seq<char>,
    key: Seq<char>,
) -> bool {
    &&& w.url@ == "https://api.anthropic.com/v1/messages"@
    &&& w.headers@.len() == 3
    &&& w.headers@[0].0@ == "x-api-key"@
    &&& w.headers@[0].1@ == key
    &&& w.headers@[1].0@ == "anthropic-version"@
    &&& w.headers@[1].1@ == "2023-06-01"@
    &&& w.headers@[2].0@ == "content-type"@
    &&& w.headers@[2].1@ == "application/json"@
    &&& w.body@ == anthropic_body(model, max_tokens, system, prompt)
}

/// The wire shape of an Ollama call: the chat endpoint under the
/// configured base URL and the exact JSON body.
pub open spec fn is_ollama_wire(
    w: WireRequest,
    base_url: Seq<char>,
    model: Seq<char>,
    max_tokens: u32,
    system: Seq<char>,
    prompt: Seq<char>,
) -> bool {
    &&& w.url@ == base_url + "/api/chat"@
    &&& w.headers@.len() == 1
    &&& w.headers@[0].0@ == "content-type"@
    &&& w.headers@[0].1@ == "application/json"@
    &&& w.body@ == ollama_body(model, max_tokens, system, prompt)
}

/// Builds the Anthropic wire request for one prompt.
pub fn build_anthropic_request(
    model: &str,
    max_tokens: u32,
    system: &str,
    prompt: &str,
    api_key: &str,
) -> (r: WireRequest)
    ensures
        is_anthropic_wire(r, model@, max_tokens, system@, prompt@, api_key@),
{
    let mut body = String::from_str("{\"model\":\"");
    body.append(json_escape(model).as_str());
    body.append("\",\"max_tokens\":");
    body.append(dec_u32(max_tokens).as_str());
    body.append(",\"system\":\"");
    body.append(json_escape(system).as_str());
    body.append("\",\"messages\":[{\"role\":\"user\",\"content\":\"");
    body.append(json_escape(prompt).as_str());
    body.append("\"}]}");
    proof {
        assert(body@ =~= anthropic_body(model@, max_tokens, system@, prompt@));
    }
    let mut headers: Vec<(String, String)> = Vec::new();
    headers.push((String::from_str("x-api-key"), api_key.to_owned()));
    headers.push((String::from_str("anthropic-version"), String::from_str("2023-06-01")));
    headers.push((String::from_str("content-type"), String::from_str("application/json")));
    WireRequest { url: String::from_str("https://api.anthropic.com/v1/messages"), headers, body }
}

/// Builds the Ollama wire request for one prompt.
pub fn build_ollama_request(
    base_url: &str,
    model: &str,
    max_tokens: u32,
    system: &str,
    prompt: &str,
) -> (r: WireRequest)
    ensures
        is_ollama_wire(r, base_url@, model@, max_tokens, system@, prompt@),
{
    let mut body = String::from_str("{\"model\":\"");
    body.append(json_escape(model).as_str());
    body.append("\",\"messages\":[{\"role\":\"system\",\"content\":\"");
    body.append(json_escape(system).as_str());
    body.append("\"},{\"role\":\"user\",\"content\":\"");
    body.append(json_escape(prompt).as_str());
    body.append("\"}],\"stream\":false,\"options\":{\"temperature\":0.2,\"num_predict\":");
    body.append(dec_u32(max_tokens).as_str());
    body.append("}}");
    proof {
        assert(body@ =~= ollama_body(model@, max_tokens, system@, prompt@));
    }
    let mut url = base_url.to_owned();
    url.append("/api/chat");
    let mut headers: Vec<(String, String)> = Vec::new();
    headers.push((String::from_str("content-type"), String::from_str("application/json")));
    WireRequest { url, headers, body }
}

/// How the configured backend is to be called for one prompt.
pub enum DispatchPlan {
    /// Post this request over HTTP.
    Http(WireRequest),
    /// Call the hosted completions client with these parameters.
    OpenAiCall(OpenAiRequest),
}

/// Decides the single provider call for one request, or the terminal
/// failure raised before any call: an Anthropic dispatch without a
/// configured API key fails with CredentialMissing and produces no plan.
pub fn plan_dispatch(
    config: &ProviderConfig,
    instructions: &str,
    prompt: &str,
    max_tokens: u32,
) -> (r: Result<DispatchPlan, ProviderError>)
    ensures
        match r {
            Result::Ok(DispatchPlan::OpenAiCall(q)) => {
                &&& config.kind == ProviderKind::OpenAi
                &&& q.model@ == config.model@
                &&& q.instructions@ == instructions@
                &&& q.input@ == prompt@
                &&& q.max_output_tokens == max_tokens
            },
            Result::Ok(DispatchPlan::Http(w)) => {
                ||| (config.kind == ProviderKind::Anthropic && (match config.api_key {
                    Option::Some(k) => is_anthropic_wire(
                        w,
                        config.model@,
                        max_tokens,
                        instructions@,
                        prompt@,
                        k@,
                    ),
                    Option::None => false,
                }))
                ||| (config.kind == ProviderKind::Ollama && is_ollama_wire(
                    w,
                    config.base_url@,
                    config.model@,
                    max_tokens,
                    instructions@,
                    prompt@,
                ))
            },
            Result::Err(e) => {
                &&& config.kind == ProviderKind::Anthropic
                &&& config.api_key is None
                &&& e matches ProviderError::CredentialMissing
            },
        },
        config.kind == ProviderKind::OpenAi ==> r matches Result::Ok(DispatchPlan::OpenAiCall(_)),
        config.kind == ProviderKind::Ollama ==> r matches Result::Ok(DispatchPlan::Http(_)),
        config.kind == ProviderKind::Anthropic && config.api_key is Some ==> r matches Result::Ok(
            DispatchPlan::Http(_),
        ),
{
    match config.kind {
        ProviderKind::OpenAi => Result::Ok(
            DispatchPlan::OpenAiCall(
                OpenAiRequest {
                    model: config.model.clone(),
                    instructions: instructions.to_owned(),
                    input: prompt.to_owned(),
                    max_output_tokens: max_tokens,
                },
            ),
        ),
        ProviderKind::Anthropic => match &config.api_key {
            Option::Some(key) => Result::Ok(
                DispatchPlan::Http(
                    build_anthropic_request(
                        config.model.as_str(),
                        max_tokens,
                        instructions,
                        prompt,
                        key.as_str(),
                    ),
                ),
            ),
            Option::None => Result::Err(ProviderError::CredentialMissing),
        },
        ProviderKind::Ollama => Result::Ok(
            DispatchPlan::Http(
                build_ollama_request(
                    config.base_url.as_str(),
                    config.model.as_str(),
                    max_tokens,
                    instructions,
                    prompt,
                ),
            ),
        ),
    }
}

/// Whether an HTTP status reports success.
pub open spec fn is_success_status(status: u16) -> bool {
    200 <= status < 300
}

/// Interprets what came back from the hosted completions client: the
/// first non-empty output text on success, EmptyResponse where none was
/// present, and ProviderHttpError carrying the transport's own report
/// where the call failed.
pub fn openai_outcome(result: Result<Option<String>, String>) -> (r: Result<String, ProviderError>)
    ensures
        match r {
            Result::Ok(t) => result matches Result::Ok(Option::Some(v)) && t == v && t@.len() > 0,
            Result::Err(ProviderError::EmptyResponse) => {
                ||| result matches Result::Ok(Option::None)
                ||| (result matches Result::Ok(Option::Some(v)) && v@.len() == 0)
            },
            Result::Err(ProviderError::ProviderHttpError(b)) => result matches Result::Err(m) && b
                == m,
            Result::Err(ProviderError::CredentialMissing) => false,
        },
{
    match result {
        Result::Ok(Option::Some(text)) => {
            if text.as_str().unicode_len() > 0 {
                Result::Ok(text)
            } else {
                Result::Err(ProviderError::EmptyResponse)
            }
        },
        Result::Ok(Option::None) => Result::Err(ProviderError::EmptyResponse),
        Result::Err(message) => Result::Err(ProviderError::ProviderHttpError(message)),
    }
}

/// Interprets an Anthropic response: a non-success status fails with the
/// upstream body; an empty content list fails with EmptyResponse; else
/// the first content block's text is the answer.
pub fn anthropic_outcome(status: u16, first_text: Option<String>, body: String) -> (r: Result<
    String,
    ProviderError,
>)
    ensures
        match r {
            Result::Ok(t) => is_success_status(status) && (first_text matches Option::Some(v)
                && t == v),
            Result::Err(ProviderError::ProviderHttpError(b)) => !is_success_status(status) && b@
                == body@,
            Result::Err(ProviderError::EmptyResponse) => is_success_status(status) && first_text
                is None,
            Result::Err(ProviderError::CredentialMissing) => false,
        },
{
    if status < 200 || status >= 300 {
        Result::Err(ProviderError::ProviderHttpError(body))
    } else {
        match first_text {
            Option::Some(text) => Result::Ok(text),
            Option::None => Result::Err(ProviderError::EmptyResponse),
        }
    }
}

/// The hint appended to an Ollama HTTP failure.
pub open spec fn ollama_hint() -> Seq<char> {
    "\n(hint: is the local model server running?)"@
}

/// Interprets an Ollama response: a non-success status fails with the
/// upstream body plus a hint that the local server may not be running; a
/// missing message text fails with EmptyResponse; else the single
/// message's text is the answer.
pub fn ollama_outcome(status: u16, message_text: Option<String>, body: String) -> (r: Result<
    String,
    ProviderError,
>)
    ensures
        match r {
            Result::Ok(t) => is_success_status(status) && (message_text matches Option::Some(v)
                && t == v),
            Result::Err(ProviderError::ProviderHttpError(b)) => !is_success_status(status) && b@
                == body@ + ollama_hint(),
            Result::Err(ProviderError::EmptyResponse) => is_success_status(status) && message_text
                is None,
            Result::Err(ProviderError::CredentialMissing) => false,
        },
{
    if status < 200 || status >= 300 {
        let mut b = body;
        b.append("\n(hint: is the local model server running?)");
        Result::Err(ProviderError::ProviderHttpError(b))
    } else {
        match message_text {
            Option::Some(text) => Result::Ok(text),
            Option::None => Result::Err(ProviderError::EmptyResponse),
        }
    }
}

} // verus!
