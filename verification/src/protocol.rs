//! The chat protocol's data: nodes, exchanges and requests, each with the
//! mathematical value that contracts speak of.

use vstd::prelude::*;

verus! {

/// Tag of a request node that holds text.
pub const REQUEST_NODE_TEXT: i32 = 0;

/// Tag of a request node that holds a tool result.
pub const REQUEST_NODE_TOOL_RESULT: i32 = 1;

/// Tag of a request node that holds an image.
pub const REQUEST_NODE_IMAGE: i32 = 2;

/// Tag of a request node that refers to an image.
pub const REQUEST_NODE_IMAGE_ID: i32 = 3;

/// Tag of a request node that holds IDE state.
pub const REQUEST_NODE_IDE_STATE: i32 = 4;

/// Tag of a request node that holds edit events.
pub const REQUEST_NODE_EDIT_EVENTS: i32 = 5;

/// Tag of a request node that refers to a checkpoint.
pub const REQUEST_NODE_CHECKPOINT_REF: i32 = 6;

/// Tag of a request node that changes the personality.
pub const REQUEST_NODE_CHANGE_PERSONALITY: i32 = 7;

/// Tag of a request node that holds a file.
pub const REQUEST_NODE_FILE: i32 = 8;

/// Tag of a request node that refers to a file.
pub const REQUEST_NODE_FILE_ID: i32 = 9;

/// Tag of a request node that holds a history summary.
pub const REQUEST_NODE_HISTORY_SUMMARY: i32 = 10;

/// Tag of a response node that holds a complete tool use.
pub const RESPONSE_NODE_TOOL_USE: i32 = 5;

/// Tag of a response node that starts a tool use.
pub const RESPONSE_NODE_TOOL_USE_START: i32 = 7;

/// Tag of a text segment of a tool result.
pub const TOOL_RESULT_CONTENT_NODE_TEXT: i32 = 1;

/// Tag of an image segment of a tool result.
pub const TOOL_RESULT_CONTENT_NODE_IMAGE: i32 = 2;

/// The payload of a text node.
#[derive(Debug)]
pub struct TextNode {
    /// The text.
    pub content: String,
}

/// The value of a [`TextNode`].
pub struct TextNodeView {
    pub content: Seq<char>,
}

impl DeepView for TextNode {
    type V = TextNodeView;

    open spec fn deep_view(&self) -> TextNodeView {
        TextNodeView {
            content: self.content@,
        }
    }
}

impl View for TextNode {
    type V = TextNodeView;

    open spec fn view(&self) -> TextNodeView {
        self.deep_view()
    }
}

impl Clone for TextNode {
    fn clone(&self) -> (r: Self)
        ensures
            r@ == self@,
    {
        TextNode {
            content: self.content.clone(),
        }
    }
}

/// The payload of an image node.
#[derive(Debug)]
pub struct ImageNode {
    /// The image, encoded as text.
    pub image_data: String,
    /// The image format's tag.
    pub format: i32,
}

/// The value of a [`ImageNode`].
pub struct ImageNodeView {
    pub image_data: Seq<char>,
    pub format: i32,
}

impl DeepView for ImageNode {
    type V = ImageNodeView;

    open spec fn deep_view(&self) -> ImageNodeView {
        ImageNodeView {
            image_data: self.image_data@,
            format: self.format,
        }
    }
}

impl View for ImageNode {
    type V = ImageNodeView;

    open spec fn view(&self) -> ImageNodeView {
        self.deep_view()
    }
}

impl Clone for ImageNode {
    fn clone(&self) -> (r: Self)
        ensures
            r@ == self@,
    {
        ImageNode {
            image_data: self.image_data.clone(),
            format: self.format,
        }
    }
}

/// One segment of a tool result: text or an image.
#[derive(Debug)]
pub struct ToolResultContentNode {
    /// The segment's tag.
    pub node_type: i32,
    /// The segment's text.
    pub text_content: String,
    /// The segment's image.
    pub image_content: Option<ImageNode>,
}

/// The value of a [`ToolResultContentNode`].
pub struct ToolResultContentNodeView {
    pub node_type: i32,
    pub text_content: Seq<char>,
    pub image_content: Option<ImageNodeView>,
}

impl DeepView for ToolResultContentNode {
    type V = ToolResultContentNodeView;

    open spec fn deep_view(&self) -> ToolResultContentNodeView {
        ToolResultContentNodeView {
            node_type: self.node_type,
            text_content: self.text_content@,
            image_content: self.image_content.deep_view(),
        }
    }
}

impl View for ToolResultContentNode {
    type V = ToolResultContentNodeView;

    open spec fn view(&self) -> ToolResultContentNodeView {
        self.deep_view()
    }
}

impl Clone for ToolResultContentNode {
    fn clone(&self) -> (r: Self)
        ensures
            r@ == self@,
    {
        ToolResultContentNode {
            node_type: self.node_type,
            text_content: self.text_content.clone(),
            image_content: self.image_content.clone(),
        }
    }
}

/// The payload of a tool-result node.
#[derive(Debug)]
pub struct ToolResultNode {
    /// The tool use that this answers.
    pub tool_use_id: String,
    /// The result as one text.
    pub content: String,
    /// The result by segments.
    pub content_nodes: Vec<ToolResultContentNode>,
    /// Whether the tool failed.
    pub is_error: bool,
}

/// The value of a [`ToolResultNode`].
pub struct ToolResultNodeView {
    pub tool_use_id: Seq<char>,
    pub content: Seq<char>,
    pub content_nodes: Seq<ToolResultContentNodeView>,
    pub is_error: bool,
}

impl DeepView for ToolResultNode {
    type V = ToolResultNodeView;

    open spec fn deep_view(&self) -> ToolResultNodeView {
        ToolResultNodeView {
            tool_use_id: self.tool_use_id@,
            content: self.content@,
            content_nodes: self.content_nodes.deep_view(),
            is_error: self.is_error,
        }
    }
}

impl View for ToolResultNode {
    type V = ToolResultNodeView;

    open spec fn view(&self) -> ToolResultNodeView {
        self.deep_view()
    }
}

impl Clone for ToolResultNode {
    fn clone(&self) -> (r: Self)
        ensures
            r@ == self@,
    {
        ToolResultNode {
            tool_use_id: self.tool_use_id.clone(),
            content: self.content.clone(),
            content_nodes: self.content_nodes.clone(),
            is_error: self.is_error,
        }
    }
}

/// The payload of a tool-use node.
#[derive(Debug)]
pub struct ToolUse {
    /// The identifier of this use.
    pub tool_use_id: String,
    /// The tool that is called.
    pub tool_name: String,
    /// The tool's input, as JSON text.
    pub input_json: String,
    /// The MCP server, where one is used.
    pub mcp_server_name: String,
    /// The tool's name on the MCP server.
    pub mcp_tool_name: String,
}

/// The value of a [`ToolUse`].
pub struct ToolUseView {
    pub tool_use_id: Seq<char>,
    pub tool_name: Seq<char>,
    pub input_json: Seq<char>,
    pub mcp_server_name: Seq<char>,
    pub mcp_tool_name: Seq<char>,
}

impl DeepView for ToolUse {
    type V = ToolUseView;

    open spec fn deep_view(&self) -> ToolUseView {
        ToolUseView {
            tool_use_id: self.tool_use_id@,
            tool_name: self.tool_name@,
            input_json: self.input_json@,
            mcp_server_name: self.mcp_server_name@,
            mcp_tool_name: self.mcp_tool_name@,
        }
    }
}

impl View for ToolUse {
    type V = ToolUseView;

    open spec fn view(&self) -> ToolUseView {
        self.deep_view()
    }
}

impl Clone for ToolUse {
    fn clone(&self) -> (r: Self)
        ensures
            r@ == self@,
    {
        ToolUse {
            tool_use_id: self.tool_use_id.clone(),
            tool_name: self.tool_name.clone(),
            input_json: self.input_json.clone(),
            mcp_server_name: self.mcp_server_name.clone(),
            mcp_tool_name: self.mcp_tool_name.clone(),
        }
    }
}

/// The payload of a thinking node.
#[derive(Debug)]
pub struct ThinkingNode {
    /// The summary of the thinking.
    pub summary: String,
}

/// The value of a [`ThinkingNode`].
pub struct ThinkingNodeView {
    pub summary: Seq<char>,
}

impl DeepView for ThinkingNode {
    type V = ThinkingNodeView;

    open spec fn deep_view(&self) -> ThinkingNodeView {
        ThinkingNodeView {
            summary: self.summary@,
        }
    }
}

impl View for ThinkingNode {
    type V = ThinkingNodeView;

    open spec fn view(&self) -> ThinkingNodeView {
        self.deep_view()
    }
}

impl Clone for ThinkingNode {
    fn clone(&self) -> (r: Self)
        ensures
            r@ == self@,
    {
        ThinkingNode {
            summary: self.summary.clone(),
        }
    }
}

/// A node of a request or of a response: a tag and optional payloads.
/// The payloads that this library only measures are held as compact JSON text.
#[derive(Debug)]
pub struct NodeIn {
    /// The node's number.
    pub id: i32,
    /// The node's tag.
    pub node_type: i32,
    /// Untyped text content.
    pub content: String,
    /// Text.
    pub text_node: Option<TextNode>,
    /// A tool result.
    pub tool_result_node: Option<ToolResultNode>,
    /// An image.
    pub image_node: Option<ImageNode>,
    /// An image reference, as JSON text.
    pub image_id_node: Option<String>,
    /// IDE state, as JSON text.
    pub ide_state_node: Option<String>,
    /// Edit events, as JSON text.
    pub edit_events_node: Option<String>,
    /// A checkpoint reference, as JSON text.
    pub checkpoint_ref_node: Option<String>,
    /// A change of personality, as JSON text.
    pub change_personality_node: Option<String>,
    /// A file, as JSON text.
    pub file_node: Option<String>,
    /// A file reference, as JSON text.
    pub file_id_node: Option<String>,
    /// A history summary, as JSON text.
    pub history_summary_node: Option<String>,
    /// A tool use.
    pub tool_use: Option<ToolUse>,
    /// Thinking.
    pub thinking: Option<ThinkingNode>,
}

/// The value of a [`NodeIn`].
pub struct NodeInView {
    pub id: i32,
    pub node_type: i32,
    pub content: Seq<char>,
    pub text_node: Option<TextNodeView>,
    pub tool_result_node: Option<ToolResultNodeView>,
    pub image_node: Option<ImageNodeView>,
    pub image_id_node: Option<Seq<char>>,
    pub ide_state_node: Option<Seq<char>>,
    pub edit_events_node: Option<Seq<char>>,
    pub checkpoint_ref_node: Option<Seq<char>>,
    pub change_personality_node: Option<Seq<char>>,
    pub file_node: Option<Seq<char>>,
    pub file_id_node: Option<Seq<char>>,
    pub history_summary_node: Option<Seq<char>>,
    pub tool_use: Option<ToolUseView>,
    pub thinking: Option<ThinkingNodeView>,
}

impl DeepView for NodeIn {
    type V = NodeInView;

    open spec fn deep_view(&self) -> NodeInView {
        NodeInView {
            id: self.id,
            node_type: self.node_type,
            content: self.content@,
            text_node: self.text_node.deep_view(),
            tool_result_node: self.tool_result_node.deep_view(),
            image_node: self.image_node.deep_view(),
            image_id_node: self.image_id_node.deep_view(),
            ide_state_node: self.ide_state_node.deep_view(),
            edit_events_node: self.edit_events_node.deep_view(),
            checkpoint_ref_node: self.checkpoint_ref_node.deep_view(),
            change_personality_node: self.change_personality_node.deep_view(),
            file_node: self.file_node.deep_view(),
            file_id_node: self.file_id_node.deep_view(),
            history_summary_node: self.history_summary_node.deep_view(),
            tool_use: self.tool_use.deep_view(),
            thinking: self.thinking.deep_view(),
        }
    }
}

impl View for NodeIn {
    type V = NodeInView;

    open spec fn view(&self) -> NodeInView {
        self.deep_view()
    }
}

impl Clone for NodeIn {
    fn clone(&self) -> (r: Self)
        ensures
            r@ == self@,
    {
        NodeIn {
            id: self.id,
            node_type: self.node_type,
            content: self.content.clone(),
            text_node: self.text_node.clone(),
            tool_result_node: self.tool_result_node.clone(),
            image_node: self.image_node.clone(),
            image_id_node: self.image_id_node.clone(),
            ide_state_node: self.ide_state_node.clone(),
            edit_events_node: self.edit_events_node.clone(),
            checkpoint_ref_node: self.checkpoint_ref_node.clone(),
            change_personality_node: self.change_personality_node.clone(),
            file_node: self.file_node.clone(),
            file_id_node: self.file_id_node.clone(),
            history_summary_node: self.history_summary_node.clone(),
            tool_use: self.tool_use.clone(),
            thinking: self.thinking.clone(),
        }
    }
}

/// One exchange of a conversation: a request and the response to it.
#[derive(Debug)]
pub struct AugmentChatHistory {
    /// The response as plain text.
    pub response_text: String,
    /// The request as plain text.
    pub request_message: String,
    /// The exchange's identifier.
    pub request_id: String,
    /// Request nodes.
    pub request_nodes: Vec<NodeIn>,
    /// Request nodes, second list.
    pub structured_request_nodes: Vec<NodeIn>,
    /// Request nodes, third list.
    pub nodes: Vec<NodeIn>,
    /// Response nodes.
    pub response_nodes: Vec<NodeIn>,
    /// Response nodes, second list.
    pub structured_output_nodes: Vec<NodeIn>,
}

/// The value of a [`AugmentChatHistory`].
pub struct AugmentChatHistoryView {
    pub response_text: Seq<char>,
    pub request_message: Seq<char>,
    pub request_id: Seq<char>,
    pub request_nodes: Seq<NodeInView>,
    pub structured_request_nodes: Seq<NodeInView>,
    pub nodes: Seq<NodeInView>,
    pub response_nodes: Seq<NodeInView>,
    pub structured_output_nodes: Seq<NodeInView>,
}

impl DeepView for AugmentChatHistory {
    type V = AugmentChatHistoryView;

    open spec fn deep_view(&self) -> AugmentChatHistoryView {
        AugmentChatHistoryView {
            response_text: self.response_text@,
            request_message: self.request_message@,
            request_id: self.request_id@,
            request_nodes: self.request_nodes.deep_view(),
            structured_request_nodes: self.structured_request_nodes.deep_view(),
            nodes: self.nodes.deep_view(),
            response_nodes: self.response_nodes.deep_view(),
            structured_output_nodes: self.structured_output_nodes.deep_view(),
        }
    }
}

impl View for AugmentChatHistory {
    type V = AugmentChatHistoryView;

    open spec fn view(&self) -> AugmentChatHistoryView {
        self.deep_view()
    }
}

impl Clone for AugmentChatHistory {
    fn clone(&self) -> (r: Self)
        ensures
            r@ == self@,
    {
        AugmentChatHistory {
            response_text: self.response_text.clone(),
            request_message: self.request_message.clone(),
            request_id: self.request_id.clone(),
            request_nodes: self.request_nodes.clone(),
            structured_request_nodes: self.structured_request_nodes.clone(),
            nodes: self.nodes.clone(),
            response_nodes: self.response_nodes.clone(),
            structured_output_nodes: self.structured_output_nodes.clone(),
        }
    }
}

/// A tool that a request offers to the model.
#[derive(Debug)]
pub struct ToolDefinition {
    /// The tool's name.
    pub name: String,
    /// What the tool does.
    pub description: String,
    /// The schema of its input, as JSON text.
    pub input_schema_json: String,
}

/// The value of a [`ToolDefinition`].
pub struct ToolDefinitionView {
    pub name: Seq<char>,
    pub description: Seq<char>,
    pub input_schema_json: Seq<char>,
}

impl DeepView for ToolDefinition {
    type V = ToolDefinitionView;

    open spec fn deep_view(&self) -> ToolDefinitionView {
        ToolDefinitionView {
            name: self.name@,
            description: self.description@,
            input_schema_json: self.input_schema_json@,
        }
    }
}

impl View for ToolDefinition {
    type V = ToolDefinitionView;

    open spec fn view(&self) -> ToolDefinitionView {
        self.deep_view()
    }
}

impl Clone for ToolDefinition {
    fn clone(&self) -> (r: Self)
        ensures
            r@ == self@,
    {
        ToolDefinition {
            name: self.name.clone(),
            description: self.description.clone(),
            input_schema_json: self.input_schema_json.clone(),
        }
    }
}

/// A chat request as the client sends it.
#[derive(Debug)]
pub struct AugmentRequest {
    /// The model asked for.
    pub model: Option<String>,
    /// The conversation so far, oldest first.
    pub chat_history: Vec<AugmentChatHistory>,
    /// The current user message.
    pub message: String,
    /// Agent memories.
    pub agent_memories: String,
    /// The chat mode.
    pub mode: String,
    /// Text before the cursor.
    pub prefix: String,
    /// Text after the cursor.
    pub suffix: String,
    /// The language of the file at hand.
    pub lang: String,
    /// The path of the file at hand.
    pub path: String,
    /// The user's guidelines.
    pub user_guidelines: String,
    /// The tools on offer.
    pub tool_definitions: Vec<ToolDefinition>,
    /// Nodes of the current message.
    pub nodes: Vec<NodeIn>,
    /// Nodes of the current message, second list.
    pub structured_request_nodes: Vec<NodeIn>,
    /// Nodes of the current message, third list.
    pub request_nodes: Vec<NodeIn>,
    /// The conversation that this request belongs to.
    pub conversation_id: Option<String>,
}

/// The value of a [`AugmentRequest`].
pub struct AugmentRequestView {
    pub model: Option<Seq<char>>,
    pub chat_history: Seq<AugmentChatHistoryView>,
    pub message: Seq<char>,
    pub agent_memories: Seq<char>,
    pub mode: Seq<char>,
    pub prefix: Seq<char>,
    pub suffix: Seq<char>,
    pub lang: Seq<char>,
    pub path: Seq<char>,
    pub user_guidelines: Seq<char>,
    pub tool_definitions: Seq<ToolDefinitionView>,
    pub nodes: Seq<NodeInView>,
    pub structured_request_nodes: Seq<NodeInView>,
    pub request_nodes: Seq<NodeInView>,
    pub conversation_id: Option<Seq<char>>,
}

impl DeepView for AugmentRequest {
    type V = AugmentRequestView;

    open spec fn deep_view(&self) -> AugmentRequestView {
        AugmentRequestView {
            model: self.model.deep_view(),
            chat_history: self.chat_history.deep_view(),
            message: self.message@,
            agent_memories: self.agent_memories@,
            mode: self.mode@,
            prefix: self.prefix@,
            suffix: self.suffix@,
            lang: self.lang@,
            path: self.path@,
            user_guidelines: self.user_guidelines@,
            tool_definitions: self.tool_definitions.deep_view(),
            nodes: self.nodes.deep_view(),
            structured_request_nodes: self.structured_request_nodes.deep_view(),
            request_nodes: self.request_nodes.deep_view(),
            conversation_id: self.conversation_id.deep_view(),
        }
    }
}

impl View for AugmentRequest {
    type V = AugmentRequestView;

    open spec fn view(&self) -> AugmentRequestView {
        self.deep_view()
    }
}

impl Clone for AugmentRequest {
    fn clone(&self) -> (r: Self)
        ensures
            r@ == self@,
    {
        AugmentRequest {
            model: self.model.clone(),
            chat_history: self.chat_history.clone(),
            message: self.message.clone(),
            agent_memories: self.agent_memories.clone(),
            mode: self.mode.clone(),
            prefix: self.prefix.clone(),
            suffix: self.suffix.clone(),
            lang: self.lang.clone(),
            path: self.path.clone(),
            user_guidelines: self.user_guidelines.clone(),
            tool_definitions: self.tool_definitions.clone(),
            nodes: self.nodes.clone(),
            structured_request_nodes: self.structured_request_nodes.clone(),
            request_nodes: self.request_nodes.clone(),
            conversation_id: self.conversation_id.clone(),
        }
    }
}

/// A history cut in two: the head to summarise and the tail to keep.
#[derive(Debug)]
pub struct HistorySplit {
    /// The older exchanges.
    pub head: Vec<AugmentChatHistory>,
    /// The newer exchanges.
    pub tail: Vec<AugmentChatHistory>,
}

/// The value of a [`HistorySplit`].
pub struct HistorySplitView {
    pub head: Seq<AugmentChatHistoryView>,
    pub tail: Seq<AugmentChatHistoryView>,
}

impl DeepView for HistorySplit {
    type V = HistorySplitView;

    open spec fn deep_view(&self) -> HistorySplitView {
        HistorySplitView {
            head: self.head.deep_view(),
            tail: self.tail.deep_view(),
        }
    }
}

impl View for HistorySplit {
    type V = HistorySplitView;

    open spec fn view(&self) -> HistorySplitView {
        self.deep_view()
    }
}

impl Clone for HistorySplit {
    fn clone(&self) -> (r: Self)
        ensures
            r@ == self@,
    {
        HistorySplit {
            head: self.head.clone(),
            tail: self.tail.clone(),
        }
    }
}

} // verus!
