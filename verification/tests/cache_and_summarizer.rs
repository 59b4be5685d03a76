use history_compaction::anthropic::{
    extract_anthropic_text, AnthropicContentBlock, AnthropicResponse, AnthropicUsage,
};
use history_compaction::cache::{
    millis_since_epoch, now_ms, HistorySummaryCache, RollingSummaryState,
};
use history_compaction::config::{
    AbridgedHistoryParams, AnthropicProviderConfig, ByokConfig, Config, HistorySummaryConfig,
    OpenAICompatibleProviderConfig, ProviderConfig,
};
use history_compaction::json::JsonValue;
use history_compaction::openai::{extract_openai_choice_text, extract_openai_response_id};
use history_compaction::protocol::AugmentChatHistory;
use history_compaction::ratio::Ratio;
use history_compaction::summarizer::{
    checked_url, get_byok_provider_by_id, join_url, normalize_raw_token, prepare_summary_call,
    summary_from_anthropic, summary_from_openai, summary_request_envelope, JoinUrlError,
    ProviderError, SummaryCallError, SummaryProviderRef,
};

fn text(s: &str) -> JsonValue {
    JsonValue::Text(s.to_string())
}

fn object(members: Vec<(&str, JsonValue)>) -> JsonValue {
    JsonValue::Object(members.into_iter().map(|(k, v)| (k.to_string(), v)).collect())
}

fn block(text: Option<&str>) -> AnthropicContentBlock {
    AnthropicContentBlock {
        block_type: "text".to_string(),
        text: text.map(|t| t.to_string()),
        source: None,
        id: None,
        name: None,
        input: None,
        tool_use_id: None,
        content: None,
        is_error: None,
        thinking: None,
        signature: None,
    }
}

fn response(id: &str, content: Vec<AnthropicContentBlock>) -> AnthropicResponse {
    AnthropicResponse {
        id: id.to_string(),
        resp_type: "message".to_string(),
        role: "assistant".to_string(),
        content,
        model: "m".to_string(),
        stop_reason: "end_turn".to_string(),
        stop_sequence: None,
        usage: AnthropicUsage::default(),
    }
}

fn anthropic(id: &str, base_url: &str, api_key: &str) -> AnthropicProviderConfig {
    AnthropicProviderConfig {
        id: id.to_string(),
        base_url: base_url.to_string(),
        api_key: api_key.to_string(),
        extra_headers: Vec::new(),
    }
}

fn openai(id: &str, base_url: &str, api_key: &str) -> OpenAICompatibleProviderConfig {
    OpenAICompatibleProviderConfig {
        id: id.to_string(),
        base_url: base_url.to_string(),
        api_key: api_key.to_string(),
        extra_headers: Vec::new(),
    }
}

fn config(providers: Vec<ProviderConfig>) -> Config {
    Config {
        history_summary: HistorySummaryConfig {
            enabled: true,
            trigger_strategy: "chars".to_string(),
            trigger_on_history_size_chars: 500,
            trigger_on_context_ratio: Ratio::new(8, 10).unwrap(),
            target_context_ratio: Ratio::new(1, 2).unwrap(),
            context_window_tokens_default: 0,
            context_window_tokens_overrides: Vec::new(),
            history_tail_size_chars_to_exclude: 200,
            min_tail_exchanges: 1,
            max_tokens: 10,
            timeout_seconds: 30,
            provider_id: "p".to_string(),
            model: "m".to_string(),
            prompt: "Summarize.".to_string(),
            rolling_summary: false,
            max_summarization_input_chars: 0,
            cache_ttl_ms: 0,
            use_history_summary_new: false,
            summary_node_request_message_template: "T".to_string(),
            summary_node_request_message_template_new: "TN".to_string(),
            abridged_history_params: AbridgedHistoryParams::default(),
        },
        byok: ByokConfig { providers },
    }
}

fn pairs(headers: &[(String, String)]) -> Vec<(&str, &str)> {
    headers.iter().map(|(k, v)| (k.as_str(), v.as_str())).collect()
}

#[test]
fn cache_returns_a_summary_for_its_boundary_only() {
    let mut cache = HistorySummaryCache::new();
    assert!(cache.get_fresh("conv", "r3", 10, 0).is_none());
    cache.put("conv", "r3", "S".to_string(), "p1".to_string(), 10);
    assert_eq!(cache.get_fresh("conv", "r3", 10, 0), Some(("S".to_string(), "p1".to_string())));
    assert_eq!(cache.get_fresh("conv", "r4", 10, 0), None);
    assert_eq!(cache.get_fresh("conv", "r3 ", 10, 0), None);
    assert_eq!(cache.get_fresh("other", "r3", 10, 0), None);
    assert_eq!(cache.get_fresh("", "r3", 10, 0), None);
}

#[test]
fn cache_entries_expire() {
    let mut cache = HistorySummaryCache::default();
    cache.put("conv", "r3", "S".to_string(), "p1".to_string(), 1000);
    assert!(cache.get_fresh("conv", "r3", 1500, 500).is_some());
    assert!(cache.get_fresh("conv", "r3", 1501, 500).is_none());
    assert!(cache.get_fresh_state("conv", 1500, 500).is_some());
    assert!(cache.get_fresh_state("conv", 1501, 500).is_none());
    // an entry from the future is fresh
    assert!(cache.get_fresh("conv", "r3", 0, 1).is_some());
    // a time to live of zero never expires
    assert!(cache.get_fresh("conv", "r3", u64::MAX, 0).is_some());
    assert!(cache.get_fresh("conv", "r3", u64::MAX, u64::MAX).is_some());
}

#[test]
fn cache_keeps_the_last_summary_of_a_conversation() {
    let mut cache = HistorySummaryCache::new();
    cache.put("conv", "r3", "S0".to_string(), "p0".to_string(), 1);
    cache.put("other", "r1", "X".to_string(), "x".to_string(), 1);
    cache.put("conv", "r5", "S1".to_string(), "p1".to_string(), 2);
    assert!(cache.get_fresh("conv", "r3", 2, 0).is_none());
    assert_eq!(cache.get_fresh("conv", "r5", 2, 0), Some(("S1".to_string(), "p1".to_string())));
    let state = cache.get_fresh_state("conv", 2, 0).unwrap();
    assert_eq!(state.summary_text, "S1");
    assert_eq!(state.summarized_until_request_id, "r5");
    assert_eq!(state.summarization_request_id, "p1");
    assert_eq!(state.updated_at_ms, 2);
    assert_eq!(cache.get_fresh("other", "r1", 2, 0), Some(("X".to_string(), "x".to_string())));
    cache.put_state(
        "other",
        RollingSummaryState {
            summary_text: "Y".to_string(),
            summarized_until_request_id: "r2".to_string(),
            summarization_request_id: "y".to_string(),
            updated_at_ms: 3,
        },
    );
    assert_eq!(cache.get_fresh("other", "r2", 3, 0), Some(("Y".to_string(), "y".to_string())));
    let copy = state.clone();
    assert_eq!(copy.summary_text, state.summary_text);
}

#[test]
fn now_is_after_the_year_2020() {
    let a = now_ms();
    let b = now_ms();
    assert!(a > 1_577_836_800_000);
    assert!(b >= a);
    assert!(b - a < 60_000);
}

#[test]
fn time_stamps_are_made_of_the_clock_reading() {
    assert_eq!(millis_since_epoch(None), 0);
    assert_eq!(millis_since_epoch(Some(0)), 0);
    assert_eq!(millis_since_epoch(Some(1_700_000_000_123)), 1_700_000_000_123);
    assert_eq!(millis_since_epoch(Some(u64::MAX as u128)), u64::MAX);
    assert_eq!(millis_since_epoch(Some(u64::MAX as u128 + 1)), 0);
    assert_eq!(millis_since_epoch(Some(u64::MAX as u128 + 8)), 7);
    assert_eq!(millis_since_epoch(Some(u128::MAX)), u64::MAX);
}

#[test]
fn tokens_are_trimmed() {
    assert_eq!(normalize_raw_token("  sk-abc \n"), "sk-abc");
    assert_eq!(normalize_raw_token(""), "");
    assert_eq!(normalize_raw_token(" \t "), "");
}

#[test]
fn tokens_lose_a_leading_bearer() {
    assert_eq!(normalize_raw_token("Bearer sk-abc"), "sk-abc");
    assert_eq!(normalize_raw_token("bearer   sk-abc  "), "sk-abc");
    assert_eq!(normalize_raw_token(" BEARER sk-abc"), "sk-abc");
    assert_eq!(normalize_raw_token("Bearer"), "Bearer");
    assert_eq!(normalize_raw_token("Bearersk"), "Bearersk");
    assert_eq!(normalize_raw_token("bearer "), "bearer");
    assert_eq!(normalize_raw_token("bearer \u{e9}"), "\u{e9}");
}

#[test]
fn tokens_lose_the_name_of_their_variable() {
    assert_eq!(normalize_raw_token("OPENAI_API_KEY=sk-abc"), "sk-abc");
    assert_eq!(normalize_raw_token("MY_TOKEN = sk-abc "), "sk-abc");
    assert_eq!(normalize_raw_token("A_API_TOKEN=x=y"), "x=y");
    assert_eq!(normalize_raw_token("X9_KEY=v"), "v");
    assert_eq!(normalize_raw_token("Bearer GH_TOKEN=abc"), "abc");
    assert_eq!(normalize_raw_token("_KEY=v"), "v");
}

#[test]
fn tokens_keep_what_reads_like_no_assignment() {
    assert_eq!(normalize_raw_token("my_key=v"), "my_key=v");
    assert_eq!(normalize_raw_token("MY_KEYS=v"), "MY_KEYS=v");
    assert_eq!(normalize_raw_token("MY KEY=v"), "MY KEY=v");
    assert_eq!(normalize_raw_token("MY_KEY="), "MY_KEY=");
    assert_eq!(normalize_raw_token("MY_KEY=  "), "MY_KEY=");
    assert_eq!(normalize_raw_token("=v"), "=v");
    assert_eq!(normalize_raw_token("KEY=v"), "KEY=v");
    assert_eq!(normalize_raw_token("abc=="), "abc==");
    assert_eq!(normalize_raw_token("MY-KEY=v"), "MY-KEY=v");
}

#[test]
fn urls_are_joined_with_one_slash() {
    assert_eq!(
        join_url("https://api.example.com/v1", "messages"),
        Ok("https://api.example.com/v1/messages".to_string())
    );
    assert_eq!(
        join_url(" https://api.example.com/v1/ ", "//chat/completions"),
        Ok("https://api.example.com/v1/chat/completions".to_string())
    );
    assert_eq!(join_url("http://h", ""), Ok("http://h/".to_string()));
}

#[test]
fn urls_that_do_not_parse_are_refused() {
    assert_eq!(
        join_url("", "messages"),
        Err(JoinUrlError::InvalidUrl(url::ParseError::RelativeUrlWithoutBase))
    );
    assert_eq!(
        join_url("api.example.com", "messages"),
        Err(JoinUrlError::InvalidUrl(url::ParseError::RelativeUrlWithoutBase))
    );
    assert_eq!(
        join_url("/v1", "messages"),
        Err(JoinUrlError::InvalidUrl(url::ParseError::RelativeUrlWithoutBase))
    );
    assert_eq!(
        join_url("http://[::1", "messages"),
        Err(JoinUrlError::InvalidUrl(url::ParseError::InvalidIpv6Address))
    );
    assert_eq!(
        join_url("http://h:99999", "messages"),
        Err(JoinUrlError::InvalidUrl(url::ParseError::InvalidPort))
    );
    assert_eq!(checked_url("u".to_string(), Ok(())), Ok("u".to_string()));
    assert_eq!(
        checked_url("u".to_string(), Err(url::ParseError::EmptyHost)),
        Err(JoinUrlError::InvalidUrl(url::ParseError::EmptyHost))
    );
}

#[test]
fn providers_are_found_by_their_trimmed_identifier() {
    let cfg = config(vec![
        ProviderConfig::Anthropic(anthropic(" a ", "u1", "k")),
        ProviderConfig::OpenAICompatible(openai("o", "u2", "k")),
        ProviderConfig::Anthropic(anthropic("o", "u3", "k")),
    ]);
    match get_byok_provider_by_id(&cfg, "a") {
        Ok(SummaryProviderRef::Anthropic(p)) => assert_eq!(p.base_url, "u1"),
        _ => panic!("the first provider was expected"),
    }
    match get_byok_provider_by_id(&cfg, "  o\n") {
        Ok(SummaryProviderRef::OpenAICompatible(p)) => assert_eq!(p.base_url, "u2"),
        _ => panic!("the second provider was expected"),
    }
}

#[test]
fn provider_lookup_tells_its_errors_apart() {
    let cfg = config(vec![ProviderConfig::Anthropic(anthropic("a", "u1", "k"))]);
    assert!(matches!(get_byok_provider_by_id(&cfg, ""), Err(ProviderError::EmptyProviderId)));
    assert!(matches!(get_byok_provider_by_id(&cfg, "  "), Err(ProviderError::EmptyProviderId)));
    assert!(matches!(get_byok_provider_by_id(&cfg, "b"), Err(ProviderError::UnknownProvider)));
    assert!(matches!(get_byok_provider_by_id(&cfg, "A"), Err(ProviderError::UnknownProvider)));
    let none = config(Vec::new());
    assert!(matches!(get_byok_provider_by_id(&none, "a"), Err(ProviderError::UnknownProvider)));
}

#[test]
fn anthropic_call_has_its_headers() {
    let mut p = anthropic("a", "https://api.example.com/v1", " Bearer MY_KEY=sk-1 ");
    p.extra_headers = vec![
        ("x-one".to_string(), "1".to_string()),
        ("x-bad".to_string(), "line\nbreak".to_string()),
        ("x-del".to_string(), "a\u{7f}".to_string()),
        ("x-tab".to_string(), "a\tb \u{e9}".to_string()),
        ("x-empty".to_string(), "".to_string()),
    ];
    let call = prepare_summary_call(SummaryProviderRef::Anthropic(&p)).unwrap();
    assert_eq!(call.url, "https://api.example.com/v1/messages");
    assert_eq!(
        pairs(&call.headers),
        vec![
            ("content-type", "application/json"),
            ("accept", "application/json"),
            ("anthropic-version", "2023-06-01"),
            ("x-api-key", "sk-1"),
            ("x-one", "1"),
            ("x-tab", "a\tb \u{e9}"),
            ("x-empty", ""),
        ]
    );
}

#[test]
fn openai_call_has_its_headers() {
    let mut p = openai("o", "https://api.example.com/v1/", "sk-2");
    p.extra_headers = vec![("x-nul".to_string(), "\u{0}".to_string())];
    let call = prepare_summary_call(SummaryProviderRef::OpenAICompatible(&p)).unwrap();
    assert_eq!(call.url, "https://api.example.com/v1/chat/completions");
    assert_eq!(
        pairs(&call.headers),
        vec![
            ("content-type", "application/json"),
            ("accept", "application/json"),
            ("authorization", "Bearer sk-2"),
        ]
    );
}

#[test]
fn call_preparation_tells_its_errors_apart() {
    let bad_url = anthropic("a", "nowhere", "sk");
    assert_eq!(
        prepare_summary_call(SummaryProviderRef::Anthropic(&bad_url)).unwrap_err(),
        SummaryCallError::InvalidBaseUrl(url::ParseError::RelativeUrlWithoutBase)
    );
    let both = openai("o", "nowhere", " ");
    assert_eq!(
        prepare_summary_call(SummaryProviderRef::OpenAICompatible(&both)).unwrap_err(),
        SummaryCallError::InvalidBaseUrl(url::ParseError::RelativeUrlWithoutBase)
    );
    let no_key = openai("o", "https://h", " \n ");
    assert_eq!(
        prepare_summary_call(SummaryProviderRef::OpenAICompatible(&no_key)).unwrap_err(),
        SummaryCallError::EmptyApiKey
    );
    let empty_key = anthropic("a", "https://h", "");
    assert_eq!(
        prepare_summary_call(SummaryProviderRef::Anthropic(&empty_key)).unwrap_err(),
        SummaryCallError::EmptyApiKey
    );
}

#[test]
fn envelope_holds_history_and_prompt_only() {
    let h = AugmentChatHistory {
        response_text: "a".to_string(),
        request_message: "q".to_string(),
        request_id: "r1".to_string(),
        request_nodes: Vec::new(),
        structured_request_nodes: Vec::new(),
        nodes: Vec::new(),
        response_nodes: Vec::new(),
        structured_output_nodes: Vec::new(),
    };
    let r = summary_request_envelope("Summarize.", vec![h]);
    assert_eq!(r.message, "Summarize.");
    assert_eq!(r.chat_history.len(), 1);
    assert_eq!(r.chat_history[0].request_id, "r1");
    assert!(r.model.is_none());
    assert!(r.conversation_id.is_none());
    assert_eq!(r.agent_memories, "");
    assert_eq!(r.mode, "");
    assert_eq!(r.prefix, "");
    assert_eq!(r.suffix, "");
    assert_eq!(r.lang, "");
    assert_eq!(r.path, "");
    assert_eq!(r.user_guidelines, "");
    assert!(r.tool_definitions.is_empty());
    assert!(r.nodes.is_empty());
    assert!(r.structured_request_nodes.is_empty());
    assert!(r.request_nodes.is_empty());
}

#[test]
fn anthropic_text_joins_the_blocks() {
    let r = response("msg_1", vec![block(Some("Hello, ")), block(None), block(Some("")), block(Some("world"))]);
    assert_eq!(extract_anthropic_text(&r), "Hello, world");
    assert_eq!(summary_from_anthropic(&r), ("msg_1".to_string(), "Hello, world".to_string()));
    assert_eq!(extract_anthropic_text(&response("", Vec::new())), "");
}

#[test]
fn openai_text_is_read_from_the_first_choice() {
    let body = object(vec![
        ("id", text("chatcmpl-1")),
        (
            "choices",
            JsonValue::Array(vec![
                object(vec![("message", object(vec![("content", text("first"))]))]),
                object(vec![("message", object(vec![("content", text("second"))]))]),
            ]),
        ),
    ]);
    assert_eq!(extract_openai_choice_text(&body), "first");
    assert_eq!(extract_openai_response_id(&body), "chatcmpl-1");
    assert_eq!(summary_from_openai(&body), ("chatcmpl-1".to_string(), "first".to_string()));
}

#[test]
fn openai_text_falls_back_to_the_delta() {
    let delta = object(vec![(
        "choices",
        JsonValue::Array(vec![object(vec![("delta", object(vec![("content", text("d"))]))])]),
    )]);
    assert_eq!(extract_openai_choice_text(&delta), "d");
    // a message that is present wins, whatever it holds
    let both = object(vec![(
        "choices",
        JsonValue::Array(vec![object(vec![
            ("message", JsonValue::Null),
            ("delta", object(vec![("content", text("d"))])),
        ])]),
    )]);
    assert_eq!(extract_openai_choice_text(&both), "");
}

#[test]
fn openai_text_joins_the_parts_of_an_array() {
    let body = object(vec![(
        "choices",
        JsonValue::Array(vec![object(vec![(
            "message",
            object(vec![(
                "content",
                JsonValue::Array(vec![
                    object(vec![("type", text("text")), ("text", text("a"))]),
                    object(vec![("text", JsonValue::Number("1".to_string()))]),
                    text("skipped"),
                    object(vec![("text", text("b"))]),
                ]),
            )]),
        )])]),
    )]);
    assert_eq!(extract_openai_choice_text(&body), "ab");
}

#[test]
fn openai_text_is_empty_where_nothing_is_found() {
    assert_eq!(extract_openai_choice_text(&JsonValue::Null), "");
    assert_eq!(extract_openai_choice_text(&object(Vec::new())), "");
    assert_eq!(extract_openai_choice_text(&object(vec![("choices", text("x"))])), "");
    assert_eq!(
        extract_openai_choice_text(&object(vec![("choices", JsonValue::Array(Vec::new()))])),
        ""
    );
    let no_message =
        object(vec![("choices", JsonValue::Array(vec![object(vec![("index", JsonValue::Bool(true))])]))]);
    assert_eq!(extract_openai_choice_text(&no_message), "");
    let no_content = object(vec![(
        "choices",
        JsonValue::Array(vec![object(vec![("message", object(vec![("role", text("assistant"))]))])]),
    )]);
    assert_eq!(extract_openai_choice_text(&no_content), "");
    let null_content = object(vec![(
        "choices",
        JsonValue::Array(vec![object(vec![("message", object(vec![("content", JsonValue::Null)]))])]),
    )]);
    assert_eq!(extract_openai_choice_text(&null_content), "");
    assert_eq!(extract_openai_response_id(&object(vec![("id", JsonValue::Null)])), "");
    assert_eq!(extract_openai_response_id(&JsonValue::Array(Vec::new())), "");
}

#[test]
fn json_values_give_their_parts() {
    let v = object(vec![("a", text("x")), ("b", JsonValue::Array(vec![JsonValue::Null]))]);
    assert_eq!(v.get("a").unwrap().as_str(), Some("x"));
    assert!(v.get("a").unwrap().as_array().is_none());
    assert_eq!(v.get("b").unwrap().as_array().unwrap().len(), 1);
    assert!(v.get("c").is_none());
    assert!(text("x").get("a").is_none());
    assert!(JsonValue::Bool(true).as_str().is_none());
}
