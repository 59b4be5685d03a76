use history_compaction::config::{AbridgedHistoryParams, HistorySummaryConfig};
use history_compaction::nodes::{
    build_summary_text_node, exchange_has_tool_results, exchange_request_nodes,
    exchange_response_nodes, has_history_summary_node, history_contains_summary,
    node_has_image_or_file_marker, node_is_tool_result,
};
use history_compaction::protocol::{
    AugmentChatHistory, ImageNode, NodeIn, TextNode, ThinkingNode, ToolResultContentNode,
    ToolResultNode, ToolUse, REQUEST_NODE_FILE, REQUEST_NODE_HISTORY_SUMMARY, REQUEST_NODE_IMAGE,
    REQUEST_NODE_IMAGE_ID, REQUEST_NODE_TEXT, REQUEST_NODE_TOOL_RESULT, RESPONSE_NODE_TOOL_USE,
    TOOL_RESULT_CONTENT_NODE_IMAGE, TOOL_RESULT_CONTENT_NODE_TEXT,
};
use history_compaction::ratio::Ratio;
use history_compaction::size::{
    approx_token_count_from_byte_len, estimate_exchange_size_chars, estimate_history_size_chars,
    estimate_node_size_chars,
};
use history_compaction::trigger::{
    evaluate_trigger, parse_trigger_strategy, resolve_context_window_tokens, TriggerDecision,
    TriggerStrategy,
};

fn node(node_type: i32) -> NodeIn {
    NodeIn {
        id: 0,
        node_type,
        content: String::new(),
        text_node: None,
        tool_result_node: None,
        image_node: None,
        image_id_node: None,
        ide_state_node: None,
        edit_events_node: None,
        checkpoint_ref_node: None,
        change_personality_node: None,
        file_node: None,
        file_id_node: None,
        history_summary_node: None,
        tool_use: None,
        thinking: None,
    }
}

fn exchange(id: &str, request: &str, response: &str) -> AugmentChatHistory {
    AugmentChatHistory {
        response_text: response.to_string(),
        request_message: request.to_string(),
        request_id: id.to_string(),
        request_nodes: Vec::new(),
        structured_request_nodes: Vec::new(),
        nodes: Vec::new(),
        response_nodes: Vec::new(),
        structured_output_nodes: Vec::new(),
    }
}

fn config(strategy: &str) -> HistorySummaryConfig {
    HistorySummaryConfig {
        enabled: true,
        trigger_strategy: strategy.to_string(),
        trigger_on_history_size_chars: 1_000_000,
        trigger_on_context_ratio: Ratio::new(8, 10).unwrap(),
        target_context_ratio: Ratio::new(1, 2).unwrap(),
        context_window_tokens_default: 0,
        context_window_tokens_overrides: Vec::new(),
        history_tail_size_chars_to_exclude: 777,
        min_tail_exchanges: 1,
        max_tokens: 10,
        timeout_seconds: 30,
        provider_id: "p".to_string(),
        model: "m".to_string(),
        prompt: "Summarize.".to_string(),
        rolling_summary: false,
        max_summarization_input_chars: 0,
        cache_ttl_ms: 0,
        use_history_summary_new: false,
        summary_node_request_message_template: "T".to_string(),
        summary_node_request_message_template_new: "TN".to_string(),
        abridged_history_params: AbridgedHistoryParams {
            total_chars_limit: 100,
            ..AbridgedHistoryParams::default()
        },
    }
}

#[test]
fn abridged_history_params_have_their_defaults() {
    let p = AbridgedHistoryParams::default();
    assert_eq!(p.total_chars_limit, 10000);
    assert_eq!(p.user_message_chars_limit, 1000);
    assert_eq!(p.agent_response_chars_limit, 2000);
    assert_eq!(p.action_chars_limit, 200);
    assert_eq!(p.num_files_modified_limit, 10);
    assert_eq!(p.num_files_created_limit, 10);
    assert_eq!(p.num_files_deleted_limit, 10);
    assert_eq!(p.num_files_viewed_limit, 10);
    assert_eq!(p.num_terminal_commands_limit, 10);
}

#[test]
fn tokens_are_a_quarter_of_the_bytes_rounded_up() {
    assert_eq!(approx_token_count_from_byte_len(0), 0);
    assert_eq!(approx_token_count_from_byte_len(1), 1);
    assert_eq!(approx_token_count_from_byte_len(4), 1);
    assert_eq!(approx_token_count_from_byte_len(5), 2);
    assert_eq!(approx_token_count_from_byte_len(8), 2);
    assert_eq!(approx_token_count_from_byte_len(31997), 8000);
    assert_eq!(approx_token_count_from_byte_len(usize::MAX), u32::MAX);
    assert_eq!(approx_token_count_from_byte_len(4 * (u32::MAX as usize)), u32::MAX);
    assert_eq!(approx_token_count_from_byte_len(4 * (u32::MAX as usize) - 4), u32::MAX - 1);
}

#[test]
fn empty_node_costs_the_base() {
    assert_eq!(estimate_node_size_chars(&node(REQUEST_NODE_TEXT)), 16);
}

#[test]
fn node_size_counts_every_text() {
    let mut n = node(REQUEST_NODE_TEXT);
    n.content = "12345".to_string();
    n.text_node = Some(TextNode { content: "abc".to_string() });
    assert_eq!(estimate_node_size_chars(&n), 16 + 5 + 3);

    let mut n = node(REQUEST_NODE_TOOL_RESULT);
    n.tool_result_node = Some(ToolResultNode {
        tool_use_id: "tool-1".to_string(),
        content: "OK".to_string(),
        content_nodes: vec![
            ToolResultContentNode {
                node_type: TOOL_RESULT_CONTENT_NODE_TEXT,
                text_content: "OK".to_string(),
                image_content: None,
            },
            ToolResultContentNode {
                node_type: TOOL_RESULT_CONTENT_NODE_IMAGE,
                text_content: String::new(),
                image_content: Some(ImageNode { image_data: "0123456789".to_string(), format: 1 }),
            },
        ],
        is_error: false,
    });
    assert_eq!(estimate_node_size_chars(&n), 16 + 6 + 2 + (8 + 2) + (8 + 10));

    let mut n = node(REQUEST_NODE_IMAGE);
    n.image_node = Some(ImageNode { image_data: "xxxx".to_string(), format: 0 });
    assert_eq!(estimate_node_size_chars(&n), 20);

    let mut n = node(RESPONSE_NODE_TOOL_USE);
    n.tool_use = Some(ToolUse {
        tool_use_id: "id".to_string(),
        tool_name: "view".to_string(),
        input_json: "{}".to_string(),
        mcp_server_name: "s".to_string(),
        mcp_tool_name: "tt".to_string(),
    });
    n.thinking = Some(ThinkingNode { summary: "hm".to_string() });
    assert_eq!(estimate_node_size_chars(&n), 16 + 2 + 4 + 2 + 1 + 2 + 2);
}

#[test]
fn node_size_counts_json_payloads_by_their_text() {
    let mut n = node(REQUEST_NODE_IMAGE_ID);
    n.image_id_node = Some(r#"{"id":"x"}"#.to_string());
    n.ide_state_node = Some("{}".to_string());
    n.edit_events_node = Some("[]".to_string());
    n.checkpoint_ref_node = Some("null".to_string());
    n.change_personality_node = Some("1".to_string());
    n.file_node = Some(r#""f""#.to_string());
    n.file_id_node = Some("true".to_string());
    n.history_summary_node = Some(r#"{"a":[1,2]}"#.to_string());
    assert_eq!(estimate_node_size_chars(&n), 16 + 10 + 2 + 2 + 4 + 1 + 3 + 4 + 11);
}

#[test]
fn exchange_size_uses_plain_text_on_a_side_without_nodes() {
    let h = exchange("r", "hello", "hi");
    assert_eq!(estimate_exchange_size_chars(&h), 7);

    let mut h = exchange("r", "hello", "hi");
    h.structured_request_nodes = vec![node(REQUEST_NODE_TEXT)];
    assert_eq!(estimate_exchange_size_chars(&h), 16 + 2);

    let mut h = exchange("r", "hello", "hi");
    h.request_nodes = vec![node(REQUEST_NODE_TEXT)];
    h.nodes = vec![node(REQUEST_NODE_TEXT)];
    h.response_nodes = vec![node(0)];
    h.structured_output_nodes = vec![node(0), node(0)];
    assert_eq!(estimate_exchange_size_chars(&h), 32 + 48);
}

#[test]
fn history_size_is_the_sum_of_the_exchange_sizes() {
    let mut with_nodes = exchange("r2", "ignored", "counted");
    with_nodes.request_nodes = vec![node(REQUEST_NODE_TEXT)];
    let history = vec![exchange("r1", "hello", "hi"), with_nodes, exchange("r3", "", "")];
    let sum: usize = history.iter().map(estimate_exchange_size_chars).sum();
    assert_eq!(estimate_history_size_chars(&history), sum);
    assert_eq!(sum, 7 + 16 + 7);
    assert_eq!(estimate_history_size_chars(&[]), 0);
}

#[test]
fn request_and_response_sides_join_their_lists() {
    let mut h = exchange("r", "", "");
    let mut a = node(1);
    a.id = 1;
    let mut b = node(2);
    b.id = 2;
    let mut c = node(3);
    c.id = 3;
    let mut d = node(4);
    d.id = 4;
    let mut e = node(5);
    e.id = 5;
    h.request_nodes = vec![a];
    h.structured_request_nodes = vec![b];
    h.nodes = vec![c];
    h.response_nodes = vec![d];
    h.structured_output_nodes = vec![e];
    let ids: Vec<i32> = exchange_request_nodes(&h).iter().map(|n| n.id).collect();
    assert_eq!(ids, vec![1, 2, 3]);
    let ids: Vec<i32> = exchange_response_nodes(&h).iter().map(|n| n.id).collect();
    assert_eq!(ids, vec![4, 5]);
}

#[test]
fn tool_results_need_tag_and_payload() {
    let tagged = node(REQUEST_NODE_TOOL_RESULT);
    assert!(!node_is_tool_result(&tagged));
    let mut full = node(REQUEST_NODE_TOOL_RESULT);
    full.tool_result_node = Some(ToolResultNode {
        tool_use_id: String::new(),
        content: String::new(),
        content_nodes: Vec::new(),
        is_error: false,
    });
    assert!(node_is_tool_result(&full));
    let mut wrong_tag = node(REQUEST_NODE_TEXT);
    wrong_tag.tool_result_node = full.clone().tool_result_node;
    assert!(!node_is_tool_result(&wrong_tag));

    let mut h = exchange("r", "", "");
    assert!(!exchange_has_tool_results(&h));
    h.nodes = vec![wrong_tag, full];
    assert!(exchange_has_tool_results(&h));
}

#[test]
fn history_summaries_are_found_in_every_list() {
    let mut summary = node(REQUEST_NODE_HISTORY_SUMMARY);
    assert!(!has_history_summary_node(&[summary.clone()]));
    summary.history_summary_node = Some("{}".to_string());
    assert!(has_history_summary_node(&[node(0), summary.clone()]));
    assert!(!has_history_summary_node(&[]));
    let mut wrong_tag = node(REQUEST_NODE_TEXT);
    wrong_tag.history_summary_node = Some("{}".to_string());
    assert!(!has_history_summary_node(&[wrong_tag.clone()]));

    assert!(!history_contains_summary(&[]));
    assert!(!history_contains_summary(&[exchange("r0", "a", "b")]));
    for list in 0..5 {
        let mut h = exchange("r1", "", "");
        let mut none = exchange("r1", "", "");
        let (nodes, others) = match list {
            0 => (&mut h.request_nodes, &mut none.request_nodes),
            1 => (&mut h.structured_request_nodes, &mut none.structured_request_nodes),
            2 => (&mut h.nodes, &mut none.nodes),
            3 => (&mut h.response_nodes, &mut none.response_nodes),
            _ => (&mut h.structured_output_nodes, &mut none.structured_output_nodes),
        };
        *nodes = vec![node(0), summary.clone()];
        *others = vec![wrong_tag.clone(), node(REQUEST_NODE_HISTORY_SUMMARY)];
        assert!(history_contains_summary(&[exchange("r0", "", ""), h]));
        assert!(!history_contains_summary(&[none]));
    }
}

#[test]
fn attachments_are_marked_by_tag_or_payload() {
    assert_eq!(node_has_image_or_file_marker(&node(REQUEST_NODE_TEXT)), (false, false));
    assert_eq!(node_has_image_or_file_marker(&node(REQUEST_NODE_IMAGE)), (true, false));
    assert_eq!(node_has_image_or_file_marker(&node(REQUEST_NODE_IMAGE_ID)), (true, false));
    assert_eq!(node_has_image_or_file_marker(&node(REQUEST_NODE_FILE)), (false, true));
    let mut n = node(REQUEST_NODE_TEXT);
    n.file_id_node = Some("{}".to_string());
    n.image_node = Some(ImageNode { image_data: String::new(), format: 0 });
    assert_eq!(node_has_image_or_file_marker(&n), (true, true));
}

#[test]
fn summary_text_node_carries_the_text() {
    let n = build_summary_text_node("rendered".to_string());
    assert_eq!(n.id, -10);
    assert_eq!(n.node_type, REQUEST_NODE_TEXT);
    assert_eq!(n.content, "");
    assert_eq!(n.text_node.unwrap().content, "rendered");
    assert!(n.tool_result_node.is_none());
    assert!(n.history_summary_node.is_none());
    assert!(n.tool_use.is_none());
}

#[test]
fn strategy_names_are_read_leniently() {
    assert_eq!(parse_trigger_strategy("chars"), TriggerStrategy::Chars);
    assert_eq!(parse_trigger_strategy("  CHARS\n"), TriggerStrategy::Chars);
    assert_eq!(parse_trigger_strategy("Ratio"), TriggerStrategy::Ratio);
    assert_eq!(parse_trigger_strategy("auto"), TriggerStrategy::Auto);
    assert_eq!(parse_trigger_strategy(""), TriggerStrategy::Auto);
    assert_eq!(parse_trigger_strategy("tokens"), TriggerStrategy::Auto);
}

#[test]
fn context_window_prefers_the_longest_key() {
    let mut hs = config("ratio");
    hs.context_window_tokens_default = 1000;
    hs.context_window_tokens_overrides = vec![
        ("gpt".to_string(), 2000),
        ("gpt-4o".to_string(), 3000),
        ("mini".to_string(), 4000),
        ("zero-4o-mini".to_string(), 0),
    ];
    assert_eq!(resolve_context_window_tokens(&hs, "gpt-4o-mini"), Some(3000));
    assert_eq!(resolve_context_window_tokens(&hs, "  gpt-3.5 "), Some(2000));
    assert_eq!(resolve_context_window_tokens(&hs, "o1-mini"), Some(4000));
    assert_eq!(resolve_context_window_tokens(&hs, "other"), Some(1000));
}

#[test]
fn context_window_breaks_ties_by_configured_order() {
    let mut hs = config("ratio");
    hs.context_window_tokens_overrides =
        vec![("abc".to_string(), 1), ("bcd".to_string(), 2), (" bcd ".to_string(), 3)];
    assert_eq!(resolve_context_window_tokens(&hs, "abcd"), Some(3));
    hs.context_window_tokens_overrides = vec![("abc".to_string(), 1), ("bcd".to_string(), 2)];
    assert_eq!(resolve_context_window_tokens(&hs, "abcd"), Some(1));
}

#[test]
fn context_window_skips_blank_keys_and_unknown_windows() {
    let mut hs = config("ratio");
    hs.context_window_tokens_overrides =
        vec![("  ".to_string(), 5), ("".to_string(), 6), ("gpt".to_string(), 0)];
    assert_eq!(resolve_context_window_tokens(&hs, "gpt-4o"), None);
    hs.context_window_tokens_default = 9;
    assert_eq!(resolve_context_window_tokens(&hs, "gpt-4o"), Some(9));
    assert_eq!(resolve_context_window_tokens(&hs, ""), Some(9));
}

#[test]
fn chars_strategy_triggers_at_the_threshold() {
    let mut hs = config("chars");
    hs.trigger_on_history_size_chars = 500;
    hs.context_window_tokens_default = 10;
    assert_eq!(evaluate_trigger(&hs, "m", 499), TriggerDecision::NotTriggered);
    assert_eq!(
        evaluate_trigger(&hs, "m", 500),
        TriggerDecision::TriggerChars { threshold_chars: 500 }
    );
}

#[test]
fn ratio_strategy_derives_thresholds_from_the_window() {
    let mut hs = config("ratio");
    hs.context_window_tokens_default = 10000;
    hs.max_tokens = 10;
    assert_eq!(evaluate_trigger(&hs, "m", 31996), TriggerDecision::NotTriggered);
    assert_eq!(
        evaluate_trigger(&hs, "m", 31997),
        TriggerDecision::TriggerRatio {
            context_window_tokens: 10000,
            threshold_chars: 32000,
            target_tail_budget_chars: 20000 - (100 + 40 + 4096),
            approx_total_tokens: 8000,
        }
    );
}

#[test]
fn ratio_strategy_rounds_the_threshold_up_and_the_target_down() {
    let mut hs = config("ratio");
    hs.context_window_tokens_default = 1001;
    hs.trigger_on_context_ratio = Ratio::new(1, 2).unwrap();
    hs.target_context_ratio = Ratio::new(1, 2).unwrap();
    // overhead 4236 exceeds the target budget of 2000 bytes
    assert_eq!(
        evaluate_trigger(&hs, "m", 4000),
        TriggerDecision::TriggerRatio {
            context_window_tokens: 1001,
            threshold_chars: 501 * 4,
            target_tail_budget_chars: 0,
            approx_total_tokens: 1000,
        }
    );
}

#[test]
fn ratio_strategy_without_a_window_falls_back_to_chars() {
    let mut hs = config("ratio");
    hs.trigger_on_history_size_chars = 500;
    assert_eq!(evaluate_trigger(&hs, "m", 499), TriggerDecision::NotTriggered);
    assert_eq!(
        evaluate_trigger(&hs, "m", 500),
        TriggerDecision::TriggerChars { threshold_chars: 500 }
    );
}

#[test]
fn auto_strategy_clamps_the_window() {
    let mut hs = config("anything");
    hs.context_window_tokens_default = 10000;
    hs.trigger_on_history_size_chars = 4000;
    // the window is clamped to 1000 tokens: triggered from 800 tokens on
    assert_eq!(evaluate_trigger(&hs, "m", 3196), TriggerDecision::NotTriggered);
    assert_eq!(
        evaluate_trigger(&hs, "m", 3197),
        TriggerDecision::TriggerRatio {
            context_window_tokens: 1000,
            threshold_chars: 3200,
            target_tail_budget_chars: 0,
            approx_total_tokens: 800,
        }
    );
    // a cap of zero tokens clamps nothing
    hs.trigger_on_history_size_chars = 3;
    assert_eq!(
        evaluate_trigger(&hs, "m", 31997),
        TriggerDecision::TriggerRatio {
            context_window_tokens: 10000,
            threshold_chars: 32000,
            target_tail_budget_chars: 15764,
            approx_total_tokens: 8000,
        }
    );
}

#[test]
fn auto_strategy_without_a_window_falls_back_to_chars() {
    let mut hs = config("auto");
    hs.trigger_on_history_size_chars = 500;
    assert_eq!(evaluate_trigger(&hs, "m", 10), TriggerDecision::NotTriggered);
    assert_eq!(
        evaluate_trigger(&hs, "m", 501),
        TriggerDecision::TriggerChars { threshold_chars: 500 }
    );
}
