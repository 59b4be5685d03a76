//! What a call of the summarizer needs besides the network: the provider,
//! its key and address, the headers, the request's envelope, and the
//! summary that a response holds.

use vstd::prelude::*;
use vstd::string::*;
use vstd::utf8::encode_utf8;
use crate::anthropic::{block_texts, extract_anthropic_text, AnthropicResponse};
use crate::config::{AnthropicProviderConfig, Config, OpenAICompatibleProviderConfig, ProviderConfig};
use crate::json::JsonValue;
use crate::openai::{
    extract_openai_choice_text, extract_openai_response_id, openai_choice_text,
    text_member_or_empty,
};
use crate::protocol::{AugmentChatHistory, AugmentRequest, AugmentRequestView};
use crate::text::{
    chars_end_with, chars_index_of, chars_start_with_ignoring_ascii_case, ends_with,
    first_index_of, is_blank, lemma_first_index_of, lemma_trimmed_empty,
    starts_with_ignoring_ascii_case, str_strip_leading, strip_leading, text_eq, to_chars, trim,
    trimmed,
};

verus! {

/// `t` without the word `bearer` and the space after it at its start, in
/// any case, and trimmed again; `t` itself where it does not start so.
pub open spec fn without_bearer(t: Seq<char>) -> Seq<char> {
    if starts_with_ignoring_ascii_case(t, "bearer "@) {
        trimmed(t.skip("bearer "@.len() as int))
    } else {
        t
    }
}

/// Whether `c` may stand in the name of an environment variable: an
/// upper-case ASCII letter, a digit or `_`.
pub open spec fn is_env_name_char(c: char) -> bool {
    ||| 'A' <= c <= 'Z'
    ||| '0' <= c <= '9'
    ||| c == '_'
}

/// Whether `k` reads like the name of a variable that holds a key: not
/// empty, made of the characters of such names, and ending in `_TOKEN`,
/// `_API_TOKEN`, `_KEY` or `_API_KEY`.
pub open spec fn is_secret_name(k: Seq<char>) -> bool {
    &&& k.len() > 0
    &&& forall|i: int| 0 <= i < k.len() ==> is_env_name_char(#[trigger] k[i])
    &&& (ends_with(k, "_TOKEN"@) || ends_with(k, "_API_TOKEN"@) || ends_with(k, "_KEY"@)
        || ends_with(k, "_API_KEY"@))
}

/// `t` without the name of a variable before it: where `t` reads
/// `NAME=value`, white space around each allowed, with a name as
/// `is_secret_name` says and a value that is not empty, the value; else `t`.
pub open spec fn without_assignment(t: Seq<char>) -> Seq<char> {
    let at = first_index_of(t, '=');
    if at < t.len() && is_secret_name(trimmed(t.take(at))) && trimmed(t.skip(at + 1)).len() > 0 {
        trimmed(t.skip(at + 1))
    } else {
        t
    }
}

/// The key that a configured token stands for: the token trimmed, without
/// a leading `bearer`, and without the name of a variable before it.
pub open spec fn normalized_token(token: Seq<char>) -> Seq<char> {
    if trimmed(token).len() == 0 {
        Seq::empty()
    } else {
        without_assignment(without_bearer(trimmed(token)))
    }
}

fn decide_secret_name(k: &Vec<char>) -> (r: bool)
    ensures
        r == is_secret_name(k@),
{
    if k.len() == 0 {
        return false;
    }
    let mut i: usize = 0;
    while i < k.len()
        invariant
            i <= k.len(),
            forall|j: int| 0 <= j < i ==> is_env_name_char(#[trigger] k@[j]),
        decreases k.len() - i,
    {
        let c = k[i];
        if !(('A' <= c && c <= 'Z') || ('0' <= c && c <= '9') || c == '_') {
            return false;
        }
        i = i + 1;
    }
    chars_end_with(k, &to_chars("_TOKEN")) || chars_end_with(k, &to_chars("_API_TOKEN"))
        || chars_end_with(k, &to_chars("_KEY")) || chars_end_with(k, &to_chars("_API_KEY"))
}

fn strip_bearer(t: &str) -> (r: &str)
    ensures
        r@ == without_bearer(t@),
{
    let chars = to_chars(t);
    let prefix = to_chars("bearer ");
    if chars_start_with_ignoring_ascii_case(&chars, &prefix) {
        let rest = t.substring_char(prefix.len(), chars.len());
        assert(rest@ =~= t@.skip("bearer "@.len() as int));
        trim(rest)
    } else {
        t
    }
}

fn strip_assignment(t: &str) -> (r: &str)
    ensures
        r@ == without_assignment(t@),
{
    let chars = to_chars(t);
    let at = chars_index_of(&chars, '=');
    proof {
        lemma_first_index_of(t@, '=');
    }
    if at >= chars.len() {
        return t;
    }
    let name = t.substring_char(0, at);
    let value = t.substring_char(at + 1, chars.len());
    assert(name@ =~= t@.take(at as int));
    assert(value@ =~= t@.skip(at as int + 1));
    let k = to_chars(trim(name));
    let v = trim(value);
    if decide_secret_name(&k) && !v.is_empty() {
        v
    } else {
        t
    }
}

/// Reads the key out of a configured token.
pub fn normalize_raw_token(token: &str) -> (key: String)
    ensures
        key@ == normalized_token(token@),
{
    let t = trim(token);
    if t.is_empty() {
        return String::new();
    }
    strip_assignment(strip_bearer(t)).to_owned()
}

/// `url::ParseError`, the error of `url::Url::parse`: nothing is known of
/// what it holds.
#[verifier::external_type_specification]
#[verifier::external_body]
pub struct ExUrlParseError(url::ParseError);

/// Whether `url::Url::parse` accepts `text` as an absolute URL.
pub uninterp spec fn url_parses(text: Seq<char>) -> bool;

/// Parses `text` with `url::Url::parse` and drops the URL. The contract
/// claims that acceptance depends on the text alone: it is what
/// [`url_parses`] names.
#[verifier::external_body]
fn check_url(text: &str) -> (r: Result<(), url::ParseError>)
    ensures
        r is Ok <==> url_parses(text@),
{
    url::Url::parse(text).map(|_| ())
}

/// Why an address could not be made.
#[derive(Clone, Copy, Debug, PartialEq, Eq)]
pub enum JoinUrlError {
    /// The joined text is no absolute URL; the parser's reason comes with it.
    InvalidUrl(url::ParseError),
}

/// `base` with a `/` at its end.
pub open spec fn with_slash(base: Seq<char>) -> Seq<char> {
    if ends_with(base, "/"@) {
        base
    } else {
        base + "/"@
    }
}

/// The address of `endpoint` under `base_url`: the base trimmed, one `/`,
/// and the endpoint without the `/` at its start.
pub open spec fn joined_url(base_url: Seq<char>, endpoint: Seq<char>) -> Seq<char> {
    with_slash(trimmed(base_url)) + strip_leading(endpoint, '/')
}

/// Decides what `join_url` returns, from the joined text and the outcome
/// of parsing it: the text where it parsed, and else the parser's reason.
pub fn checked_url(url: String, parsed: Result<(), url::ParseError>) -> (r: Result<
    String,
    JoinUrlError,
>)
    ensures
        r == match parsed {
            Ok(_) => Ok::<String, JoinUrlError>(url),
            Err(e) => Err::<String, JoinUrlError>(JoinUrlError::InvalidUrl(e)),
        },
{
    match parsed {
        Ok(_) => Ok(url),
        Err(e) => Err(JoinUrlError::InvalidUrl(e)),
    }
}

/// Joins an endpoint to a base address. The result is the joined text where
/// that is an absolute URL, and else the reason that the parser gives.
pub fn join_url(base_url: &str, endpoint: &str) -> (r: Result<String, JoinUrlError>)
    ensures
        url_parses(joined_url(base_url@, endpoint@)) ==> r is Ok && r.unwrap()@ == joined_url(
            base_url@,
            endpoint@,
        ),
        !url_parses(joined_url(base_url@, endpoint@)) ==> r is Err,
{
    let mut url = trim(base_url).to_owned();
    if !chars_end_with(&to_chars(url.as_str()), &to_chars("/")) {
        url.append("/");
    }
    url.append(str_strip_leading(endpoint, '/'));
    let parsed = check_url(url.as_str());
    checked_url(url, parsed)
}

/// A provider that can summarize.
#[derive(Clone, Copy, Debug)]
pub enum SummaryProviderRef<'a> {
    Anthropic(&'a AnthropicProviderConfig),
    OpenAICompatible(&'a OpenAICompatibleProviderConfig),
}

/// Why no provider was found.
#[derive(Clone, Copy, Debug, PartialEq, Eq, Structural)]
pub enum ProviderError {
    /// The identifier asked for is blank.
    EmptyProviderId,
    /// No provider has the identifier.
    UnknownProvider,
}

/// The identifier of a provider.
pub open spec fn provider_id(p: ProviderConfig) -> Seq<char> {
    match p {
        ProviderConfig::Anthropic(a) => a.id@,
        ProviderConfig::OpenAICompatible(o) => o.id@,
    }
}

/// The index of the first provider whose identifier, trimmed, is `id`, or
/// the number of providers where none has it.
pub open spec fn first_provider(providers: Seq<ProviderConfig>, id: Seq<char>) -> int
    decreases providers.len(),
{
    if providers.len() == 0 {
        0
    } else if trimmed(provider_id(providers.first())) == id {
        0
    } else {
        1 + first_provider(providers.drop_first(), id)
    }
}

/// A provider as a summarizer reads it.
pub open spec fn provider_ref(p: ProviderConfig) -> SummaryProviderRef<'static> {
    match p {
        ProviderConfig::Anthropic(a) => SummaryProviderRef::Anthropic(&a),
        ProviderConfig::OpenAICompatible(o) => SummaryProviderRef::OpenAICompatible(&o),
    }
}

/// The provider with the identifier `id`, white space around identifiers
/// set aside: the first one in configured order.
pub open spec fn found_provider(providers: Seq<ProviderConfig>, id: Seq<char>) -> Result<
    SummaryProviderRef<'static>,
    ProviderError,
> {
    if is_blank(id) {
        Err(ProviderError::EmptyProviderId)
    } else if first_provider(providers, trimmed(id)) < providers.len() {
        Ok(provider_ref(providers[first_provider(providers, trimmed(id))]))
    } else {
        Err(ProviderError::UnknownProvider)
    }
}

pub proof fn lemma_first_provider(providers: Seq<ProviderConfig>, id: Seq<char>)
    ensures
        0 <= first_provider(providers, id) <= providers.len(),
    decreases providers.len(),
{
    if providers.len() > 0 {
        lemma_first_provider(providers.drop_first(), id);
    }
}

/// Finds the provider with the identifier `provider_id`, white space
/// around identifiers set aside: the first one in configured order.
pub fn get_byok_provider_by_id<'a>(cfg: &'a Config, provider_id: &str) -> (r: Result<
    SummaryProviderRef<'a>,
    ProviderError,
>)
    ensures
        r == found_provider(cfg.byok.providers@, provider_id@),
{
    let id = trim(provider_id);
    proof {
        lemma_trimmed_empty(provider_id@);
    }
    if id.is_empty() {
        return Err(ProviderError::EmptyProviderId);
    }
    let providers = &cfg.byok.providers;
    let mut i: usize = 0;
    assert(providers@.skip(0) =~= providers@);
    proof {
        lemma_first_provider(providers@, id@);
    }
    while i < providers.len()
        invariant
            i <= providers.len(),
            providers == &cfg.byok.providers,
            id@ == trimmed(provider_id@),
            !is_blank(provider_id@),
            first_provider(providers@, id@) == i + first_provider(providers@.skip(i as int), id@),
        decreases providers.len() - i,
    {
        assert(providers@.skip(i as int).drop_first() =~= providers@.skip(i as int + 1));
        assert(providers@.skip(i as int).first() == providers@[i as int]);
        match &providers[i] {
            ProviderConfig::Anthropic(p) => {
                if text_eq(trim(p.id.as_str()), id) {
                    return Ok(SummaryProviderRef::Anthropic(p));
                }
            },
            ProviderConfig::OpenAICompatible(p) => {
                if text_eq(trim(p.id.as_str()), id) {
                    return Ok(SummaryProviderRef::OpenAICompatible(p));
                }
            },
        }
        i = i + 1;
    }
    Err(ProviderError::UnknownProvider)
}

/// The request that asks for a summary: the history to summarize and the
/// prompt as its message, and nothing else.
pub open spec fn summary_envelope(prompt: Seq<char>, history: Seq<
    crate::protocol::AugmentChatHistoryView,
>) -> AugmentRequestView {
    AugmentRequestView {
        model: None,
        chat_history: history,
        message: prompt,
        agent_memories: Seq::empty(),
        mode: Seq::empty(),
        prefix: Seq::empty(),
        suffix: Seq::empty(),
        lang: Seq::empty(),
        path: Seq::empty(),
        user_guidelines: Seq::empty(),
        tool_definitions: Seq::empty(),
        nodes: Seq::empty(),
        structured_request_nodes: Seq::empty(),
        request_nodes: Seq::empty(),
        conversation_id: None,
    }
}

/// Builds the request that asks for a summary of `chat_history`.
pub fn summary_request_envelope(prompt: &str, chat_history: Vec<AugmentChatHistory>) -> (r:
    AugmentRequest)
    ensures
        r@ == summary_envelope(prompt@, chat_history.deep_view()),
{
    let r = AugmentRequest {
        model: None,
        chat_history,
        message: prompt.to_owned(),
        agent_memories: String::new(),
        mode: String::new(),
        prefix: String::new(),
        suffix: String::new(),
        lang: String::new(),
        path: String::new(),
        user_guidelines: String::new(),
        tool_definitions: Vec::new(),
        nodes: Vec::new(),
        structured_request_nodes: Vec::new(),
        request_nodes: Vec::new(),
        conversation_id: None,
    };
    assert(r@.tool_definitions =~= Seq::empty());
    assert(r@.nodes =~= Seq::empty());
    assert(r@.structured_request_nodes =~= Seq::empty());
    assert(r@.request_nodes =~= Seq::empty());
    r
}

/// Whether a byte may stand in the value of a header: a tab, or any byte
/// from 32 on but 127.
pub open spec fn is_header_value_byte(b: u8) -> bool {
    (b >= 32 && b != 127) || b == 9
}

/// Whether `text` can be the value of a header: each byte of it may stand
/// in one.
pub open spec fn is_header_value(text: Seq<char>) -> bool {
    forall|i: int|
        0 <= i < encode_utf8(text).len() ==> is_header_value_byte(#[trigger] encode_utf8(text)[i])
}

/// Asks `HeaderValue::from_str` of the `http` crate, as `reqwest` hands it
/// on, whether `value` can be the value of a header. The contract claims
/// what that function checks: that no byte of the text is below 32, but for
/// the tab, and none is 127.
#[verifier::external_body]
fn header_value_is_valid(value: &str) -> (ok: bool)
    ensures
        ok == is_header_value(value@),
{
    reqwest::header::HeaderValue::from_str(value).is_ok()
}

/// The headers of `extra` whose values can be the value of a header, in
/// order.
pub open spec fn usable_headers(extra: Seq<(Seq<char>, Seq<char>)>) -> Seq<(Seq<char>, Seq<char>)>
    decreases extra.len(),
{
    if extra.len() == 0 {
        Seq::empty()
    } else if is_header_value(extra.last().1) {
        usable_headers(extra.drop_last()).push(extra.last())
    } else {
        usable_headers(extra.drop_last())
    }
}

/// The headers of a call to an Anthropic provider, without the configured
/// ones.
pub open spec fn anthropic_headers(key: Seq<char>) -> Seq<(Seq<char>, Seq<char>)> {
    seq![
        ("content-type"@, "application/json"@),
        ("accept"@, "application/json"@),
        ("anthropic-version"@, "2023-06-01"@),
        ("x-api-key"@, key),
    ]
}

/// The headers of a call to an OpenAI-compatible provider, without the
/// configured ones.
pub open spec fn openai_headers(key: Seq<char>) -> Seq<(Seq<char>, Seq<char>)> {
    seq![
        ("content-type"@, "application/json"@),
        ("accept"@, "application/json"@),
        ("authorization"@, "Bearer "@ + key),
    ]
}

/// Where a call of the summarizer goes, and with which headers.
#[derive(Debug)]
pub struct SummaryCall {
    /// The address that the request is posted to.
    pub url: String,
    /// The headers, by name and value, in the order in which they are set.
    pub headers: Vec<(String, String)>,
}

/// Why a call of the summarizer cannot be made.
#[derive(Clone, Copy, Debug, PartialEq, Eq)]
pub enum SummaryCallError {
    /// The provider's address and the endpoint do not make an absolute URL;
    /// the parser's reason comes with it.
    InvalidBaseUrl(url::ParseError),
    /// The provider's key is empty.
    EmptyApiKey,
}

/// The address of a provider.
pub open spec fn provider_base_url(p: SummaryProviderRef) -> Seq<char> {
    match p {
        SummaryProviderRef::Anthropic(a) => a.base_url@,
        SummaryProviderRef::OpenAICompatible(o) => o.base_url@,
    }
}

/// The key of a provider, as configured.
pub open spec fn provider_api_key(p: SummaryProviderRef) -> Seq<char> {
    match p {
        SummaryProviderRef::Anthropic(a) => a.api_key@,
        SummaryProviderRef::OpenAICompatible(o) => o.api_key@,
    }
}

/// The headers that are configured for a provider.
pub open spec fn provider_extra_headers(p: SummaryProviderRef) -> Seq<(Seq<char>, Seq<char>)> {
    match p {
        SummaryProviderRef::Anthropic(a) => a.extra_headers.deep_view(),
        SummaryProviderRef::OpenAICompatible(o) => o.extra_headers.deep_view(),
    }
}

/// The endpoint that summarizes, under a provider's address.
pub open spec fn provider_endpoint(p: SummaryProviderRef) -> Seq<char> {
    match p {
        SummaryProviderRef::Anthropic(_) => "messages"@,
        SummaryProviderRef::OpenAICompatible(_) => "chat/completions"@,
    }
}

/// The headers of a call to a provider: content type and accepted type, the
/// provider's way of passing the key, and the configured headers that are
/// usable, last.
pub open spec fn provider_headers(p: SummaryProviderRef) -> Seq<(Seq<char>, Seq<char>)> {
    let own = match p {
        SummaryProviderRef::Anthropic(_) => anthropic_headers(
            normalized_token(provider_api_key(p)),
        ),
        SummaryProviderRef::OpenAICompatible(_) => openai_headers(
            normalized_token(provider_api_key(p)),
        ),
    };
    own + usable_headers(provider_extra_headers(p))
}

fn header(name: &str, value: String) -> (h: (String, String))
    ensures
        h.deep_view() == (name@, value@),
{
    (name.to_owned(), value)
}

fn push_usable_headers(headers: &mut Vec<(String, String)>, extra: &Vec<(String, String)>)
    ensures
        final(headers).deep_view() == old(headers).deep_view() + usable_headers(extra.deep_view()),
{
    let ghost all = extra.deep_view();
    let mut i: usize = 0;
    assert(headers.deep_view() =~= old(headers).deep_view() + usable_headers(all.take(0)));
    while i < extra.len()
        invariant
            i <= extra.len(),
            all == extra.deep_view(),
            headers.deep_view() == old(headers).deep_view() + usable_headers(all.take(i as int)),
        decreases extra.len() - i,
    {
        proof {
            assert(all.take(i as int + 1).drop_last() =~= all.take(i as int));
            assert(all.take(i as int + 1).last() == (extra[i as int].0@, extra[i as int].1@));
        }
        if header_value_is_valid(extra[i].1.as_str()) {
            let ghost before = headers.deep_view();
            headers.push((extra[i].0.clone(), extra[i].1.clone()));
            assert(headers.deep_view() =~= before.push((extra[i as int].0@, extra[i as int].1@)));
        }
        assert(headers.deep_view() =~= old(headers).deep_view() + usable_headers(
            all.take(i as int + 1),
        ));
        i = i + 1;
    }
    assert(all.take(extra.len() as int) =~= all);
}

/// Prepares a call to a provider: the address of its endpoint and the
/// headers. It fails where the address is no URL, and else where the key is
/// empty.
pub fn prepare_summary_call(provider: SummaryProviderRef) -> (r: Result<
    SummaryCall,
    SummaryCallError,
>)
    ensures
        match r {
            Ok(call) => {
                &&& url_parses(joined_url(provider_base_url(provider), provider_endpoint(provider)))
                &&& normalized_token(provider_api_key(provider)).len() > 0
                &&& call.url@ == joined_url(
                    provider_base_url(provider),
                    provider_endpoint(provider),
                )
                &&& call.headers.deep_view() == provider_headers(provider)
            },
            Err(SummaryCallError::InvalidBaseUrl(_)) => !url_parses(
                joined_url(provider_base_url(provider), provider_endpoint(provider)),
            ),
            Err(SummaryCallError::EmptyApiKey) => {
                &&& url_parses(joined_url(provider_base_url(provider), provider_endpoint(provider)))
                &&& normalized_token(provider_api_key(provider)).len() == 0
            },
        },
{
    let (joined, key, extra) = match provider {
        SummaryProviderRef::Anthropic(p) => (
            join_url(p.base_url.as_str(), "messages"),
            normalize_raw_token(p.api_key.as_str()),
            &p.extra_headers,
        ),
        SummaryProviderRef::OpenAICompatible(p) => (
            join_url(p.base_url.as_str(), "chat/completions"),
            normalize_raw_token(p.api_key.as_str()),
            &p.extra_headers,
        ),
    };
    let url = match joined {
        Ok(url) => url,
        Err(JoinUrlError::InvalidUrl(reason)) => {
            return Err(SummaryCallError::InvalidBaseUrl(reason));
        },
    };
    if key.as_str().is_empty() {
        return Err(SummaryCallError::EmptyApiKey);
    }
    let mut headers: Vec<(String, String)> = Vec::new();
    headers.push(header("content-type", "application/json".to_owned()));
    headers.push(header("accept", "application/json".to_owned()));
    match provider {
        SummaryProviderRef::Anthropic(_) => {
            headers.push(header("anthropic-version", "2023-06-01".to_owned()));
            headers.push(header("x-api-key", key));
            assert(headers.deep_view() =~= anthropic_headers(
                normalized_token(provider_api_key(provider)),
            ));
        },
        SummaryProviderRef::OpenAICompatible(_) => {
            let mut value = "Bearer ".to_owned();
            value.append(key.as_str());
            headers.push(header("authorization", value));
            assert(headers.deep_view() =~= openai_headers(
                normalized_token(provider_api_key(provider)),
            ));
        },
    }
    push_usable_headers(&mut headers, extra);
    Ok(SummaryCall { url, headers })
}

/// The identifier and the text of the summary in an Anthropic response.
pub fn summary_from_anthropic(resp: &AnthropicResponse) -> (r: (String, String))
    ensures
        r.0@ == resp.id@,
        r.1@ == block_texts(resp.content@),
{
    (resp.id.clone(), extract_anthropic_text(resp))
}

/// The identifier and the text of the summary in the body of an
/// OpenAI-compatible response.
pub fn summary_from_openai(body: &JsonValue) -> (r: (String, String))
    ensures
        r.0@ == text_member_or_empty(body@, "id"@),
        r.1@ == openai_choice_text(body@),
{
    (extract_openai_response_id(body), extract_openai_choice_text(body))
}

} // verus!
