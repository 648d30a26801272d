//! Data shapes of the chat client around the synchronization core: message
//! and tool-call classifications, the model catalog served by the local
//! model runner, and application settings.  The synchronization protocol
//! itself treats records opaquely and does not read these; they are plain
//! data, with defaults pinned by contract.

use vstd::prelude::*;

verus! {

/// Who authored a chat message.
#[derive(Debug, Clone, PartialEq)]
pub enum MessageRole {
    User,
    Assistant,
    System,
    Tool,
}

/// Delivery state of a chat message.
#[derive(Debug, Clone, PartialEq)]
pub enum MessageStatus {
    Sent,
    Sending,
    Queued,
    Failed,
    Draft,
}

impl Default for MessageStatus {
    fn default() -> (res: Self)
        ensures
            res is Sent,
    {
        MessageStatus::Sent
    }
}

/// A file attached to a message.
#[derive(Debug, Clone)]
pub struct Attachment {
    pub id: String,
    pub name: String,
    pub mime_type: String,
    pub data: Vec<u8>,
    pub size: u64,
}

/// Progress of a tool call issued by the assistant.
#[derive(Debug, Clone, PartialEq)]
pub enum ToolCallStatus {
    Pending,
    Running,
    Completed,
    Failed,
}

/// One model known to the local model runner.
#[derive(Debug, Clone)]
pub struct OllamaModel {
    pub name: String,
    pub modified_at: Option<String>,
    pub size: Option<u64>,
    pub digest: Option<String>,
    pub details: Option<OllamaModelDetails>,
}

/// Details the runner reports about a model.
#[derive(Debug, Clone)]
pub struct OllamaModelDetails {
    pub format: Option<String>,
    pub family: Option<String>,
    pub families: Option<Vec<String>>,
    pub parameter_size: Option<String>,
    pub quantization_level: Option<String>,
}

/// The runner's model listing.
#[derive(Debug, Clone)]
pub struct OllamaTagsResponse {
    pub models: Vec<OllamaModel>,
}

/// One message in the runner's chat wire format.
#[derive(Debug, Clone)]
pub struct OllamaChatMessage {
    pub role: String,
    pub content: String,
    pub images: Option<Vec<String>>,
}

/// One chunk, or the whole body, of a chat reply from the runner.
#[derive(Debug, Clone)]
pub struct OllamaChatResponse {
    pub model: Option<String>,
    pub message: Option<OllamaChatMessage>,
    pub done: Option<bool>,
    pub done_reason: Option<String>,
    pub total_duration: Option<u64>,
    pub load_duration: Option<u64>,
    pub prompt_eval_count: Option<u32>,
    pub prompt_eval_duration: Option<u64>,
    pub eval_count: Option<u32>,
    pub eval_duration: Option<u64>,
}

/// Which hosted API a cloud provider entry speaks to.
#[derive(Debug, Clone, PartialEq)]
pub enum CloudProviderType {
    OpenAI,
    Anthropic,
    Google,
}

/// Settings for assistant tool use.
#[derive(Debug, Clone)]
pub struct ToolConfig {
    pub enabled: bool,
    pub web_search_enabled: bool,
    pub jina_api_key: Option<String>,
    pub max_search_results: u32,
    pub cache_search_results: bool,
    pub max_tool_calls: u32,
}

impl Default for ToolConfig {
    fn default() -> (res: Self)
        ensures
            res.enabled,
            !res.web_search_enabled,
            res.jina_api_key is None,
            res.max_search_results == 5,
            res.cache_search_results,
            res.max_tool_calls == 10,
    {
        ToolConfig {
            enabled: true,
            web_search_enabled: false,
            jina_api_key: None,
            max_search_results: 5,
            cache_search_results: true,
            max_tool_calls: 10,
        }
    }
}

/// The user interface theme.
#[derive(Debug, Clone, PartialEq)]
pub enum Theme {
    Light,
    Dark,
    System,
}

/// Application-wide settings.
#[derive(Debug, Clone)]
pub struct AppSettings {
    pub theme: Theme,
    pub default_model: Option<String>,
    pub default_connection_id: Option<String>,
    pub tool_config: ToolConfig,
    pub developer_mode: bool,
}

impl Default for AppSettings {
    fn default() -> (res: Self)
        ensures
            res.theme is System,
            res.default_model is None,
            res.default_connection_id is None,
            res.tool_config.enabled,
            !res.tool_config.web_search_enabled,
            res.tool_config.jina_api_key is None,
            res.tool_config.max_search_results == 5,
            res.tool_config.cache_search_results,
            res.tool_config.max_tool_calls == 10,
            !res.developer_mode,
    {
        AppSettings {
            theme: Theme::System,
            default_model: None,
            default_connection_id: None,
            tool_config: ToolConfig::default(),
            developer_mode: false,
        }
    }
}

} // verus!
