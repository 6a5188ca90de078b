//! Plain data exchanged with the Hermon API, and the names its enums
//! carry on the wire.
use vstd::prelude::*;
use std::collections::HashMap;

verus! {

/// Host platform of a registered device.
#[derive(Debug, Clone, Copy, PartialEq, Eq, Hash, Structural)]
pub enum Platform {
    Macos,
    Windows,
    Linux,
}

/// The snake_case name of a `Platform` on the wire.
pub open spec fn platform_wire(v: Platform) -> Seq<char> {
    match v {
        Platform::Macos => "macos"@,
        Platform::Windows => "windows"@,
        Platform::Linux => "linux"@,
    }
}

impl Platform {
    /// The snake_case name this value has on the wire.
    pub fn wire_name(&self) -> (r: &'static str)
        ensures
            r@ == platform_wire(*self),
    {
        match self {
            Platform::Macos => "macos",
            Platform::Windows => "windows",
            Platform::Linux => "linux",
        }
    }
}

/// What an agent is for.
#[derive(Debug, Clone, Copy, PartialEq, Eq, Hash, Structural)]
pub enum AgentType {
    Chat,
    Coding,
    Orchestrator,
    Worker,
    Sdlc,
    Custom,
}

/// The snake_case name of a `AgentType` on the wire.
pub open spec fn agent_type_wire(v: AgentType) -> Seq<char> {
    match v {
        AgentType::Chat => "chat"@,
        AgentType::Coding => "coding"@,
        AgentType::Orchestrator => "orchestrator"@,
        AgentType::Worker => "worker"@,
        AgentType::Sdlc => "sdlc"@,
        AgentType::Custom => "custom"@,
    }
}

impl AgentType {
    /// The snake_case name this value has on the wire.
    pub fn wire_name(&self) -> (r: &'static str)
        ensures
            r@ == agent_type_wire(*self),
    {
        match self {
            AgentType::Chat => "chat",
            AgentType::Coding => "coding",
            AgentType::Orchestrator => "orchestrator",
            AgentType::Worker => "worker",
            AgentType::Sdlc => "sdlc",
            AgentType::Custom => "custom",
        }
    }
}

/// Who may see an agent.
#[derive(Debug, Clone, Copy, PartialEq, Eq, Hash, Structural)]
pub enum AgentVisibility {
    Private,
    Org,
    Public,
    System,
}

/// The snake_case name of a `AgentVisibility` on the wire.
pub open spec fn agent_visibility_wire(v: AgentVisibility) -> Seq<char> {
    match v {
        AgentVisibility::Private => "private"@,
        AgentVisibility::Org => "org"@,
        AgentVisibility::Public => "public"@,
        AgentVisibility::System => "system"@,
    }
}

impl AgentVisibility {
    /// The snake_case name this value has on the wire.
    pub fn wire_name(&self) -> (r: &'static str)
        ensures
            r@ == agent_visibility_wire(*self),
    {
        match self {
            AgentVisibility::Private => "private",
            AgentVisibility::Org => "org",
            AgentVisibility::Public => "public",
            AgentVisibility::System => "system",
        }
    }
}

/// Kind of context attached to an invocation.
#[derive(Debug, Clone, Copy, PartialEq, Eq, Hash, Structural)]
pub enum AgentContextType {
    File,
    Terminal,
    Selection,
    Diff,
    Error,
    Url,
    Custom,
}

/// The snake_case name of a `AgentContextType` on the wire.
pub open spec fn agent_context_type_wire(v: AgentContextType) -> Seq<char> {
    match v {
        AgentContextType::File => "file"@,
        AgentContextType::Terminal => "terminal"@,
        AgentContextType::Selection => "selection"@,
        AgentContextType::Diff => "diff"@,
        AgentContextType::Error => "error"@,
        AgentContextType::Url => "url"@,
        AgentContextType::Custom => "custom"@,
    }
}

impl AgentContextType {
    /// The snake_case name this value has on the wire.
    pub fn wire_name(&self) -> (r: &'static str)
        ensures
            r@ == agent_context_type_wire(*self),
    {
        match self {
            AgentContextType::File => "file",
            AgentContextType::Terminal => "terminal",
            AgentContextType::Selection => "selection",
            AgentContextType::Diff => "diff",
            AgentContextType::Error => "error",
            AgentContextType::Url => "url",
            AgentContextType::Custom => "custom",
        }
    }
}

/// Lifecycle state of a conversation.
#[derive(Debug, Clone, Copy, PartialEq, Eq, Hash, Structural)]
pub enum ConversationStatus {
    Active,
    Completed,
    Archived,
    Error,
}

/// The snake_case name of a `ConversationStatus` on the wire.
pub open spec fn conversation_status_wire(v: ConversationStatus) -> Seq<char> {
    match v {
        ConversationStatus::Active => "active"@,
        ConversationStatus::Completed => "completed"@,
        ConversationStatus::Archived => "archived"@,
        ConversationStatus::Error => "error"@,
    }
}

impl ConversationStatus {
    /// The snake_case name this value has on the wire.
    pub fn wire_name(&self) -> (r: &'static str)
        ensures
            r@ == conversation_status_wire(*self),
    {
        match self {
            ConversationStatus::Active => "active",
            ConversationStatus::Completed => "completed",
            ConversationStatus::Archived => "archived",
            ConversationStatus::Error => "error",
        }
    }
}

/// Author of a conversation message.
#[derive(Debug, Clone, Copy, PartialEq, Eq, Hash, Structural)]
pub enum MessageRole {
    User,
    Assistant,
    System,
    Tool,
}

/// The snake_case name of a `MessageRole` on the wire.
pub open spec fn message_role_wire(v: MessageRole) -> Seq<char> {
    match v {
        MessageRole::User => "user"@,
        MessageRole::Assistant => "assistant"@,
        MessageRole::System => "system"@,
        MessageRole::Tool => "tool"@,
    }
}

impl MessageRole {
    /// The snake_case name this value has on the wire.
    pub fn wire_name(&self) -> (r: &'static str)
        ensures
            r@ == message_role_wire(*self),
    {
        match self {
            MessageRole::User => "user",
            MessageRole::Assistant => "assistant",
            MessageRole::System => "system",
            MessageRole::Tool => "tool",
        }
    }
}

/// State of a tool invocation.
#[derive(Debug, Clone, Copy, PartialEq, Eq, Hash, Structural)]
pub enum ToolInvocationStatus {
    Pending,
    Running,
    Completed,
    Failed,
    Cancelled,
    ApprovalRequired,
}

/// The snake_case name of a `ToolInvocationStatus` on the wire.
pub open spec fn tool_invocation_status_wire(v: ToolInvocationStatus) -> Seq<char> {
    match v {
        ToolInvocationStatus::Pending => "pending"@,
        ToolInvocationStatus::Running => "running"@,
        ToolInvocationStatus::Completed => "completed"@,
        ToolInvocationStatus::Failed => "failed"@,
        ToolInvocationStatus::Cancelled => "cancelled"@,
        ToolInvocationStatus::ApprovalRequired => "approval_required"@,
    }
}

impl ToolInvocationStatus {
    /// The snake_case name this value has on the wire.
    pub fn wire_name(&self) -> (r: &'static str)
        ensures
            r@ == tool_invocation_status_wire(*self),
    {
        match self {
            ToolInvocationStatus::Pending => "pending",
            ToolInvocationStatus::Running => "running",
            ToolInvocationStatus::Completed => "completed",
            ToolInvocationStatus::Failed => "failed",
            ToolInvocationStatus::Cancelled => "cancelled",
            ToolInvocationStatus::ApprovalRequired => "approval_required",
        }
    }
}

/// Kind of a drive object.
#[derive(Debug, Clone, Copy, PartialEq, Eq, Hash, Structural)]
pub enum DriveObjectType {
    Folder,
    Workflow,
    AgentWorkflow,
    Notebook,
    AiFact,
    AiFactCollection,
    EnvVarCollection,
    McpServer,
    McpServerCollection,
    AgentConfig,
    File,
    PromptTemplate,
    Snippet,
}

/// The snake_case name of a `DriveObjectType` on the wire.
pub open spec fn drive_object_type_wire(v: DriveObjectType) -> Seq<char> {
    match v {
        DriveObjectType::Folder => "folder"@,
        DriveObjectType::Workflow => "workflow"@,
        DriveObjectType::AgentWorkflow => "agent_workflow"@,
        DriveObjectType::Notebook => "notebook"@,
        DriveObjectType::AiFact => "ai_fact"@,
        DriveObjectType::AiFactCollection => "ai_fact_collection"@,
        DriveObjectType::EnvVarCollection => "env_var_collection"@,
        DriveObjectType::McpServer => "mcp_server"@,
        DriveObjectType::McpServerCollection => "mcp_server_collection"@,
        DriveObjectType::AgentConfig => "agent_config"@,
        DriveObjectType::File => "file"@,
        DriveObjectType::PromptTemplate => "prompt_template"@,
        DriveObjectType::Snippet => "snippet"@,
    }
}

impl DriveObjectType {
    /// The snake_case name this value has on the wire.
    pub fn wire_name(&self) -> (r: &'static str)
        ensures
            r@ == drive_object_type_wire(*self),
    {
        match self {
            DriveObjectType::Folder => "folder",
            DriveObjectType::Workflow => "workflow",
            DriveObjectType::AgentWorkflow => "agent_workflow",
            DriveObjectType::Notebook => "notebook",
            DriveObjectType::AiFact => "ai_fact",
            DriveObjectType::AiFactCollection => "ai_fact_collection",
            DriveObjectType::EnvVarCollection => "env_var_collection",
            DriveObjectType::McpServer => "mcp_server",
            DriveObjectType::McpServerCollection => "mcp_server_collection",
            DriveObjectType::AgentConfig => "agent_config",
            DriveObjectType::File => "file",
            DriveObjectType::PromptTemplate => "prompt_template",
            DriveObjectType::Snippet => "snippet",
        }
    }
}

/// Who may see a drive object.
#[derive(Debug, Clone, Copy, PartialEq, Eq, Hash, Structural)]
pub enum DriveVisibility {
    Private,
    Org,
    Public,
}

/// The snake_case name of a `DriveVisibility` on the wire.
pub open spec fn drive_visibility_wire(v: DriveVisibility) -> Seq<char> {
    match v {
        DriveVisibility::Private => "private"@,
        DriveVisibility::Org => "org"@,
        DriveVisibility::Public => "public"@,
    }
}

impl DriveVisibility {
    /// The snake_case name this value has on the wire.
    pub fn wire_name(&self) -> (r: &'static str)
        ensures
            r@ == drive_visibility_wire(*self),
    {
        match self {
            DriveVisibility::Private => "private",
            DriveVisibility::Org => "org",
            DriveVisibility::Public => "public",
        }
    }
}

/// Kind of a drive sync change.
#[derive(Debug, Clone, Copy, PartialEq, Eq, Hash, Structural)]
pub enum SyncChangeType {
    Created,
    Updated,
    Deleted,
    Moved,
}

/// The snake_case name of a `SyncChangeType` on the wire.
pub open spec fn sync_change_type_wire(v: SyncChangeType) -> Seq<char> {
    match v {
        SyncChangeType::Created => "created"@,
        SyncChangeType::Updated => "updated"@,
        SyncChangeType::Deleted => "deleted"@,
        SyncChangeType::Moved => "moved"@,
    }
}

impl SyncChangeType {
    /// The snake_case name this value has on the wire.
    pub fn wire_name(&self) -> (r: &'static str)
        ensures
            r@ == sync_change_type_wire(*self),
    {
        match self {
            SyncChangeType::Created => "created",
            SyncChangeType::Updated => "updated",
            SyncChangeType::Deleted => "deleted",
            SyncChangeType::Moved => "moved",
        }
    }
}

/// A device registering with the control plane.
#[derive(Debug, Clone)]
pub struct DeviceRegistration {
    pub device_id: String,
    pub name: String,
    pub platform: Platform,
    pub client_version: String,
}

/// Tokens issued by a login or refresh.
#[derive(Debug, Clone)]
pub struct AuthTokens {
    pub access_token: String,
    pub refresh_token: String,
    pub expires_at: i64,
}

/// Email and password login.
#[derive(Debug, Clone)]
pub struct LoginRequest {
    pub email: String,
    pub password: String,
    pub device_id: String,
}

/// Account creation.
#[derive(Debug, Clone)]
pub struct SignupRequest {
    pub email: String,
    pub password: String,
    pub display_name: Option<String>,
}

/// Tokens and identities of a new account.
#[derive(Debug, Clone)]
pub struct SignupResponse {
    pub access_token: String,
    pub refresh_token: String,
    pub user_id: String,
    pub org_id: String,
}

/// Login with an API token.
#[derive(Debug, Clone)]
pub struct ApiTokenLoginRequest {
    pub token: String,
    pub device_id: String,
}

/// Refresh of an access token.
#[derive(Debug, Clone)]
pub struct RefreshRequest {
    pub refresh_token: String,
}

/// A device session.
#[derive(Debug, Clone)]
pub struct Session {
    pub id: String,
    pub user_id: String,
    pub device_id: String,
    pub org_id: String,
    pub created_at: String,
    pub expires_at: String,
}

/// A user account.
#[derive(Debug, Clone)]
pub struct User {
    pub id: String,
    pub email: String,
    pub display_name: String,
    pub org_id: String,
    pub role: String,
    pub created_at: String,
}

/// An organisation.
#[derive(Debug, Clone)]
pub struct Org {
    pub id: String,
    pub name: String,
    pub slug: String,
    pub plan: String,
    pub created_at: String,
}

/// Membership of a user in an organisation.
#[derive(Debug, Clone)]
pub struct OrgMember {
    pub user_id: String,
    pub org_id: String,
    pub role: String,
    pub joined_at: String,
}

/// Execution limits of an agent.
#[derive(Debug, Clone)]
pub struct AgentParameters {
    pub max_context_tokens: Option<u64>,
    pub timeout_seconds: Option<u32>,
    pub retry_on_error: Option<bool>,
    pub parallel_tool_calls: Option<bool>,
}

impl Default for AgentParameters {
    fn default() -> (r: Self)
        ensures
            r.max_context_tokens is None,
            r.timeout_seconds is None,
            r.retry_on_error is None,
            r.parallel_tool_calls is None,
    {
        AgentParameters { max_context_tokens: None, timeout_seconds: None, retry_on_error: None, parallel_tool_calls: None }
    }
}

/// One invocation of an agent.
#[derive(Debug, Clone)]
pub struct InvokeAgentRequest {
    pub conversation_id: Option<String>,
    pub message: String,
    pub context: Option<Vec<AgentContext>>,
    pub parameters: Option<AgentParameters>,
}

/// Context attached to an invocation.
#[derive(Debug, Clone)]
pub struct AgentContext {
    pub context_type: AgentContextType,
    pub content: String,
    pub metadata: Option<HashMap<String, String>>,
}

/// Filters of an agent listing.
#[derive(Debug, Clone)]
pub struct AgentFilters {
    pub agent_type: Option<AgentType>,
    pub visibility: Option<AgentVisibility>,
    pub search: Option<String>,
}

impl Default for AgentFilters {
    fn default() -> (r: Self)
        ensures
            r.agent_type is None,
            r.visibility is None,
            r.search is None,
    {
        AgentFilters { agent_type: None, visibility: None, search: None }
    }
}

/// A model of a provider.
#[derive(Debug, Clone)]
pub struct ModelRef {
    pub provider_id: String,
    pub model_id: String,
}

/// Token usage of a response.
#[derive(Debug, Clone)]
pub struct AiUsage {
    pub input_tokens: u64,
    pub output_tokens: u64,
    pub cached_input_tokens: Option<u64>,
    pub reasoning_tokens: Option<u64>,
}

/// A model the router offers.
#[derive(Debug, Clone)]
pub struct AiModel {
    pub id: String,
    pub provider_id: String,
    pub display_name: String,
    pub context_window: Option<u64>,
    pub max_output_tokens: Option<u64>,
    pub capabilities: Vec<String>,
}

/// Filters of a model listing.
#[derive(Debug, Clone)]
pub struct ModelFilters {
    pub provider_id: Option<String>,
    pub capability: Option<String>,
}

impl Default for ModelFilters {
    fn default() -> (r: Self)
        ensures
            r.provider_id is None,
            r.capability is None,
    {
        ModelFilters { provider_id: None, capability: None }
    }
}

/// Filters of a conversation listing.
#[derive(Debug, Clone)]
pub struct ConversationFilters {
    pub agent_id: Option<String>,
    pub status: Option<ConversationStatus>,
    pub search: Option<String>,
}

impl Default for ConversationFilters {
    fn default() -> (r: Self)
        ensures
            r.agent_id is None,
            r.status is None,
            r.search is None,
    {
        ConversationFilters { agent_id: None, status: None, search: None }
    }
}

/// A conversation as listed.
#[derive(Debug, Clone)]
pub struct ConversationSummary {
    pub id: String,
    pub agent_id: String,
    pub agent_name: String,
    pub title: Option<String>,
    pub status: ConversationStatus,
    pub message_count: u32,
    pub last_message_preview: Option<String>,
    pub last_message_at: Option<String>,
    pub created_at: String,
}

/// Filters of a drive listing.
#[derive(Debug, Clone)]
pub struct DriveListFilters {
    pub parent_id: Option<String>,
    pub object_type: Option<DriveObjectType>,
    pub visibility: Option<DriveVisibility>,
    pub search: Option<String>,
    pub tags: Option<Vec<String>>,
    pub include_deleted: Option<bool>,
}

impl Default for DriveListFilters {
    fn default() -> (r: Self)
        ensures
            r.parent_id is None,
            r.object_type is None,
            r.visibility is None,
            r.search is None,
            r.tags is None,
            r.include_deleted is None,
    {
        DriveListFilters { parent_id: None, object_type: None, visibility: None, search: None, tags: None, include_deleted: None }
    }
}

/// Pagination of a listing.
#[derive(Debug, Clone)]
pub struct PageParams {
    pub offset: Option<u64>,
    pub limit: Option<u64>,
}

impl Default for PageParams {
    fn default() -> (r: Self)
        ensures
            r.offset is None,
            r.limit is None,
    {
        PageParams { offset: None, limit: None }
    }
}

} // verus!
