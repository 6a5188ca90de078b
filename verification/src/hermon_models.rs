//! The payloads of the Hermon API: agents, model routing, telemetry,
//! conversations and drive objects. JSON documents are carried as
//! `serde_json::Value`; a sampling temperature is carried as the bit
//! pattern of its `f64`.
use vstd::prelude::*;
use std::collections::HashMap;
use crate::hermon::RequestOptions;
use crate::hermon_types::{
    AgentContext, AgentParameters, AgentType, AgentVisibility, AiUsage, ConversationStatus, DriveObjectType,
    DriveVisibility, MessageRole, ModelRef, SyncChangeType, ToolInvocationStatus,
};
use crate::hermon::HermonError;
use crate::text::{chars_of, string_of};

verus! {

/// The model an agent runs on.
#[derive(Debug, Clone)]
pub struct AgentModelConfig {
    pub provider_id: String,
    pub model_id: String,
    pub fallback_model_id: Option<String>,
    /// Sampling temperature, the bit pattern of an `f64`.
    pub temperature_bits: Option<u64>,
    pub max_output_tokens: Option<u32>,
}

/// A tool an agent may call.
#[derive(Debug, Clone)]
pub struct AgentToolRef {
    pub tool_id: String,
    pub config: Option<serde_json::Value>,
    pub requires_approval: bool,
}

/// A registered agent.
#[derive(Debug, Clone)]
pub struct Agent {
    pub id: String,
    pub name: String,
    pub slug: String,
    pub description: Option<String>,
    pub model: AgentModelConfig,
    pub tools: Vec<AgentToolRef>,
    pub system_prompt: Option<String>,
    pub instructions: Option<String>,
    pub agent_type: AgentType,
    pub capabilities: Vec<String>,
    pub max_turns: Option<u32>,
    pub parameters: Option<AgentParameters>,
    pub metadata: Option<HashMap<String, serde_json::Value>>,
    pub owner_id: String,
    pub org_id: Option<String>,
    pub visibility: AgentVisibility,
    pub created_at: String,
    pub updated_at: String,
}

/// What registering an agent sends.
#[derive(Debug, Clone)]
pub struct CreateAgentRequest {
    pub name: String,
    pub slug: String,
    pub description: Option<String>,
    pub model: AgentModelConfig,
    pub tools: Option<Vec<AgentToolRef>>,
    pub system_prompt: Option<String>,
    pub instructions: Option<String>,
    pub agent_type: AgentType,
    pub capabilities: Option<Vec<String>>,
    pub max_turns: Option<u32>,
    pub parameters: Option<AgentParameters>,
    pub metadata: Option<HashMap<String, serde_json::Value>>,
    pub visibility: Option<AgentVisibility>,
}

/// The fields of an agent to change; `None` leaves one as it is.
#[derive(Debug, Clone)]
pub struct UpdateAgentRequest {
    pub name: Option<String>,
    pub description: Option<String>,
    pub model: Option<AgentModelConfig>,
    pub tools: Option<Vec<AgentToolRef>>,
    pub system_prompt: Option<String>,
    pub instructions: Option<String>,
    pub capabilities: Option<Vec<String>>,
    pub max_turns: Option<u32>,
    pub parameters: Option<AgentParameters>,
    pub metadata: Option<HashMap<String, serde_json::Value>>,
    pub visibility: Option<AgentVisibility>,
}

impl Default for UpdateAgentRequest {
    fn default() -> (r: Self)
        ensures
            r.name is None && r.description is None && r.model is None && r.tools is None && r.system_prompt is None
                && r.instructions is None && r.capabilities is None && r.max_turns is None && r.parameters is None
                && r.metadata is None && r.visibility is None,
    {
        UpdateAgentRequest {
            name: None,
            description: None,
            model: None,
            tools: None,
            system_prompt: None,
            instructions: None,
            capabilities: None,
            max_turns: None,
            parameters: None,
            metadata: None,
            visibility: None,
        }
    }
}

/// The answer to a tool approval request.
#[derive(Debug, Clone)]
pub struct ToolApprovalResponse {
    pub tool_id: String,
    pub approved: bool,
    pub modified_input: Option<serde_json::Value>,
}

/// One event of an agent invocation's stream.
#[derive(Debug, Clone)]
pub enum AgentStreamEvent {
    InvocationStarted { invocation_id: String, conversation_id: String },
    ContentDelta { delta: String },
    ThinkingDelta { delta: String },
    ToolStarted { tool_id: String, tool_name: String, input: serde_json::Value },
    ToolCompleted { tool_id: String, result: serde_json::Value, is_error: bool },
    ToolApprovalRequired { tool_id: String, tool_name: String, input: serde_json::Value, description: String },
    DelegationStarted { target_agent_id: String, target_agent_name: String, reason: String },
    DelegationCompleted { target_agent_id: String, result: serde_json::Value },
    InvocationCompleted { message: AiMessage, finish_reason: String, usage: Option<AiUsage> },
    Error { code: String, message: String },
    Done,
}

/// A request to the model router.
#[derive(Debug, Clone)]
pub struct AiSendRequest {
    pub session_id: String,
    pub model: ModelRef,
    pub messages: Vec<AiMessage>,
    pub tools: Option<Vec<AiToolDefinition>>,
    pub parameters: Option<AiRequestParameters>,
}

/// A message to or from a model: its blocks as JSON documents.
#[derive(Debug, Clone)]
pub struct AiMessage {
    pub id: String,
    pub role: String,
    pub blocks: Vec<serde_json::Value>,
    pub created_at: String,
}

/// A tool a model may call, with its input schema.
#[derive(Debug, Clone)]
pub struct AiToolDefinition {
    pub name: String,
    pub description: String,
    pub input_schema: serde_json::Value,
}

/// Sampling settings of a model request.
#[derive(Debug, Clone)]
pub struct AiRequestParameters {
    /// Sampling temperature, the bit pattern of an `f64`.
    pub temperature_bits: Option<u64>,
    pub max_output_tokens: Option<u32>,
    pub stop_sequences: Option<Vec<String>>,
}

impl Default for AiRequestParameters {
    fn default() -> (r: Self)
        ensures
            r.temperature_bits is None && r.max_output_tokens is None && r.stop_sequences is None,
    {
        AiRequestParameters { temperature_bits: None, max_output_tokens: None, stop_sequences: None }
    }
}

/// One event of a model response stream.
#[derive(Debug, Clone)]
pub enum AiStreamEvent {
    ResponseStarted { response_id: String },
    ContentDelta { delta: serde_json::Value },
    ContentCompleted { block: serde_json::Value },
    ToolUseStarted { tool: serde_json::Value },
    ToolUseCompleted { invocation: serde_json::Value },
    Usage { usage: AiUsage },
    ResponseCompleted { message: AiMessage, finish_reason: String },
    Error { code: String, message: String },
    Done,
}

/// One telemetry event.
#[derive(Debug, Clone)]
pub struct TelemetryEvent {
    pub id: String,
    pub event_type: String,
    pub ts: String,
    pub level: String,
    pub attributes: Option<HashMap<String, serde_json::Value>>,
}

/// Telemetry events sent together.
#[derive(Debug, Clone)]
pub struct TelemetryBatch {
    pub events: Vec<TelemetryEvent>,
}

/// A conversation with an agent.
#[derive(Debug, Clone)]
pub struct Conversation {
    pub id: String,
    pub agent_id: String,
    pub user_id: String,
    pub org_id: Option<String>,
    pub title: Option<String>,
    pub status: ConversationStatus,
    pub message_count: u32,
    pub total_tokens: u64,
    pub last_message_at: Option<String>,
    pub metadata: Option<HashMap<String, serde_json::Value>>,
    pub created_at: String,
    pub updated_at: String,
}

/// One message of a conversation.
#[derive(Debug, Clone)]
pub struct ConversationMessage {
    pub id: String,
    pub conversation_id: String,
    pub role: MessageRole,
    pub content: Vec<MessageBlock>,
    pub tool_invocations: Option<Vec<ToolInvocation>>,
    pub usage: Option<AiUsage>,
    pub metadata: Option<HashMap<String, serde_json::Value>>,
    pub created_at: String,
}

/// A block of message content.
#[derive(Debug, Clone)]
pub enum MessageBlock {
    Text { text: String },
    Code { code: String, language: Option<String> },
    Thinking { text: String },
    ToolUse { tool_id: String, tool_name: String, input: serde_json::Value },
    ToolResult { tool_id: String, content: serde_json::Value, is_error: bool },
    FileRef { path: String, content: Option<String> },
    Image { url: Option<String>, base64: Option<String>, media_type: String },
}

/// A tool call made while answering.
#[derive(Debug, Clone)]
pub struct ToolInvocation {
    pub id: String,
    pub tool_name: String,
    pub input: serde_json::Value,
    pub output: Option<serde_json::Value>,
    pub status: ToolInvocationStatus,
    pub duration_ms: Option<u64>,
    pub created_at: String,
}

/// What opening a conversation sends.
#[derive(Debug, Clone)]
pub struct CreateConversationRequest {
    pub agent_id: String,
    pub title: Option<String>,
    pub metadata: Option<HashMap<String, serde_json::Value>>,
}

/// What sending a message sends.
#[derive(Debug, Clone)]
pub struct SendMessageRequest {
    pub content: String,
    pub context: Option<Vec<AgentContext>>,
    pub metadata: Option<HashMap<String, serde_json::Value>>,
}

/// An object of the drive.
#[derive(Debug, Clone)]
pub struct DriveObject {
    pub id: String,
    pub name: String,
    pub object_type: DriveObjectType,
    pub owner_id: String,
    pub org_id: Option<String>,
    pub parent_id: Option<String>,
    pub visibility: DriveVisibility,
    pub description: Option<String>,
    pub tags: Option<Vec<String>>,
    pub metadata: Option<HashMap<String, serde_json::Value>>,
    pub content_hash: Option<String>,
    pub size_bytes: Option<u64>,
    pub created_at: String,
    pub updated_at: String,
    pub deleted_at: Option<String>,
}

/// What creating a drive object sends.
#[derive(Debug, Clone)]
pub struct CreateDriveObjectRequest {
    pub name: String,
    pub object_type: DriveObjectType,
    pub parent_id: Option<String>,
    pub description: Option<String>,
    pub tags: Option<Vec<String>>,
    pub metadata: Option<HashMap<String, serde_json::Value>>,
    pub visibility: Option<DriveVisibility>,
    pub content: Option<serde_json::Value>,
}

/// The fields of a drive object to change; `None` leaves one as it is.
#[derive(Debug, Clone)]
pub struct UpdateDriveObjectRequest {
    pub name: Option<String>,
    pub description: Option<String>,
    pub parent_id: Option<String>,
    pub tags: Option<Vec<String>>,
    pub metadata: Option<HashMap<String, serde_json::Value>>,
    pub visibility: Option<DriveVisibility>,
    pub content: Option<serde_json::Value>,
}

impl Default for UpdateDriveObjectRequest {
    fn default() -> (r: Self)
        ensures
            r.name is None && r.description is None && r.parent_id is None && r.tags is None && r.metadata is None
                && r.visibility is None && r.content is None,
    {
        UpdateDriveObjectRequest {
            name: None,
            description: None,
            parent_id: None,
            tags: None,
            metadata: None,
            visibility: None,
            content: None,
        }
    }
}

/// A page of drive changes since a cursor.
#[derive(Debug, Clone)]
pub struct DriveSyncState {
    pub cursor: String,
    pub has_more: bool,
    pub changes: Vec<DriveSyncChange>,
}

/// One change of the drive.
#[derive(Debug, Clone)]
pub struct DriveSyncChange {
    pub object_id: String,
    pub change_type: SyncChangeType,
    pub timestamp: String,
    pub object: Option<DriveObject>,
}

/// A drive object's content.
#[derive(Debug, Clone)]
pub struct DriveObjectContent {
    pub object_id: String,
    pub content_type: String,
    pub content: serde_json::Value,
    pub version: u64,
}

/// The outcome of fetching one resource: a 404 means it is not there.
pub open spec fn lookup_outcome<T>(r: Result<T, HermonError>, o: Result<Option<T>, HermonError>) -> bool {
    match r {
        Ok(v) => o == Ok::<Option<T>, HermonError>(Some(v)),
        Err(HermonError::Server { status, .. }) if status == 404 => o == Ok::<Option<T>, HermonError>(None),
        Err(e) => o == Err::<Option<T>, HermonError>(e),
    }
}

/// Turn the result of fetching one resource into "found or not": a
/// server error with status 404 becomes `None`.
pub fn found_or_none<T>(r: Result<T, HermonError>) -> (o: Result<Option<T>, HermonError>)
    ensures
        lookup_outcome(r, o),
{
    match r {
        Ok(v) => Ok(Some(v)),
        Err(e) => {
            if let HermonError::Server { status, .. } = &e {
                if *status == 404 {
                    return Ok(None);
                }
            }
            Err(e)
        },
    }
}

/// The request of a drive sync: `GET /v1/drive/sync`, with the
/// `cursor` query parameter when resuming.
pub fn sync_request(cursor: Option<&str>) -> (r: RequestOptions)
    ensures
        r.method == crate::hermon::HttpMethod::Get && r.path@ == "/v1/drive/sync"@ && r.body is None,
        r.idempotent && !r.skip_auth,
        match cursor {
            None => r.query is None,
            Some(c) => r.query matches Some(q) && q@.len() == 1 && q@[0].0@ == "cursor"@ && q@[0].1@ == c@,
        },
{
    let opts = RequestOptions::get("/v1/drive/sync");
    match cursor {
        None => opts,
        Some(c) => {
            let mut params: Vec<(String, String)> = Vec::new();
            params.push((string_of(&chars_of("cursor")), string_of(&chars_of(c))));
            opts.with_query(params)
        },
    }
}

} // verus!
