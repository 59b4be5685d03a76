use history_compaction::abridge::build_abridged_history_text;
use history_compaction::config::AbridgedHistoryParams;
use history_compaction::protocol::{
    AugmentChatHistory, NodeIn, ToolResultContentNode, ToolResultNode, ToolUse,
    REQUEST_NODE_TOOL_RESULT, RESPONSE_NODE_TOOL_USE, TOOL_RESULT_CONTENT_NODE_TEXT,
};
use history_compaction::split::{
    adjust_tail_to_avoid_tool_result_orphans, split_history_for_summary,
};

fn empty_node(id: i32, node_type: i32) -> NodeIn {
    NodeIn {
        id,
        node_type,
        content: String::new(),
        text_node: None,
        tool_result_node: None,
        image_node: None,
        image_id_node: None,
        ide_state_node: None,
        edit_events_node: None,
        checkpoint_ref_node: None,
        change_personality_node: None,
        file_node: None,
        file_id_node: None,
        history_summary_node: None,
        tool_use: None,
        thinking: None,
    }
}

fn tool_use_node(tool_name: &str, input_json: &str) -> NodeIn {
    let mut n = empty_node(1, RESPONSE_NODE_TOOL_USE);
    n.tool_use = Some(ToolUse {
        tool_use_id: "tool-1".to_string(),
        tool_name: tool_name.to_string(),
        input_json: input_json.to_string(),
        mcp_server_name: String::new(),
        mcp_tool_name: String::new(),
    });
    n
}

fn tool_result_node() -> NodeIn {
    let mut n = empty_node(2, REQUEST_NODE_TOOL_RESULT);
    n.tool_result_node = Some(ToolResultNode {
        tool_use_id: "tool-1".to_string(),
        content: "OK".to_string(),
        content_nodes: vec![ToolResultContentNode {
            node_type: TOOL_RESULT_CONTENT_NODE_TEXT,
            text_content: "OK".to_string(),
            image_content: None,
        }],
        is_error: false,
    });
    n
}

#[test]
fn abridged_history_includes_actions_and_response() {
    let ex1 = AugmentChatHistory {
        response_text: "".to_string(),
        request_message: "view file".to_string(),
        request_id: "r1".to_string(),
        request_nodes: Vec::new(),
        structured_request_nodes: Vec::new(),
        nodes: Vec::new(),
        response_nodes: vec![tool_use_node("view", r#"{"path":"src/main.rs"}"#)],
        structured_output_nodes: Vec::new(),
    };
    let ex2 = AugmentChatHistory {
        response_text: "here is file".to_string(),
        request_message: "".to_string(),
        request_id: "r2".to_string(),
        request_nodes: vec![tool_result_node()],
        structured_request_nodes: Vec::new(),
        nodes: Vec::new(),
        response_nodes: Vec::new(),
        structured_output_nodes: Vec::new(),
    };

    let params = AbridgedHistoryParams::default();
    let (txt, _dropped) = build_abridged_history_text(&[ex1, ex2], &params, None);
    assert!(txt.contains("<agent_actions_summary>"));
    assert!(txt.contains("<files_viewed>"));
    assert!(txt.contains("src/main.rs"));
    assert!(txt.contains("<agent_response>"));
    assert!(txt.contains("here is file"));
}

#[test]
fn split_history_respects_min_tail_exchanges() {
    let mk = |rid: &str| AugmentChatHistory {
        response_text: "a".to_string(),
        request_message: "b".to_string(),
        request_id: rid.to_string(),
        request_nodes: Vec::new(),
        structured_request_nodes: Vec::new(),
        nodes: Vec::new(),
        response_nodes: Vec::new(),
        structured_output_nodes: Vec::new(),
    };
    let history = vec![mk("r1"), mk("r2"), mk("r3"), mk("r4"), mk("r5")];
    let split = split_history_for_summary(&history, 0, 1, 2);
    assert!(split.tail.len() >= 2);
    assert_eq!(split.head.len() + split.tail.len(), history.len());
}

#[test]
fn tail_adjustment_avoids_tool_result_as_first_tail_exchange() {
    let mk = |rid: &str, has_tool_result: bool| AugmentChatHistory {
        response_text: String::new(),
        request_message: rid.to_string(),
        request_id: rid.to_string(),
        request_nodes: if has_tool_result {
            vec![tool_result_node()]
        } else {
            Vec::new()
        },
        structured_request_nodes: Vec::new(),
        nodes: Vec::new(),
        response_nodes: Vec::new(),
        structured_output_nodes: Vec::new(),
    };
    let history = vec![mk("r1", false), mk("r2", true), mk("r3", false)];
    let start = adjust_tail_to_avoid_tool_result_orphans(&history, 1);
    assert_eq!(start, 0);
}
