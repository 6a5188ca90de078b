//! The operations of the Hermon API behind the client's namespaces:
//! for each, the request it sends (method, path, query, whether it may
//! be retried, whether it carries credentials) and what becomes of the
//! response. The body, where an operation has one, is the JSON of its
//! input and is attached by the caller.
use vstd::prelude::*;
use crate::hermon::{idempotent_method, HttpMethod, RequestOptions};
use crate::hermon_requests::{pairs_view, QueryPair};
use crate::text::{append_str, chars_of, string_of};

verus! {

/// One operation of the Hermon API.
#[derive(Debug, Clone)]
pub enum HermonCall {
    /// Liveness of the server.
    Health,
    /// The server's version.
    Version,
    /// Register a device.
    Register,
    /// Create a user account.
    Signup,
    /// Log in with email and password.
    Login,
    /// Log in with an API token.
    LoginWithApiToken,
    /// The current session.
    Session,
    /// The current user.
    Me,
    /// Revoke the current session.
    Logout,
    CreateAgent,
    GetAgent { agent_id: String },
    GetAgentBySlug { slug: String },
    UpdateAgent { agent_id: String },
    DeleteAgent { agent_id: String },
    InvokeAgent { agent_id: String },
    ApproveTool { agent_id: String, invocation_id: String },
    ListBuiltinAgents,
    CloneAgent { agent_id: String },
    SendAi,
    GetModel { model_id: String },
    CreateConversation,
    GetConversation { conversation_id: String },
    SendMessage { conversation_id: String },
    ArchiveConversation { conversation_id: String },
    DeleteConversation { conversation_id: String },
    UpdateConversationTitle { conversation_id: String },
    ForkConversation { conversation_id: String },
    ExportConversation { conversation_id: String, format: String },
    CreateDriveObject,
    GetDriveObject { object_id: String },
    UpdateDriveObject { object_id: String },
    DeleteDriveObject { object_id: String },
    GetDriveContent { object_id: String },
    PutDriveContent { object_id: String },
    MoveDriveObject { object_id: String },
    RestoreDriveObject { object_id: String },
    DuplicateDriveObject { object_id: String },
    GetOrg { org_id: String },
    GetUser { user_id: String },
    GetSession { session_id: String },
    RevokeSession { session_id: String },
    RevokeAllSessions,
    IngestTelemetry,
}

/// What the caller does with a response.
#[derive(Debug, Clone, Copy, PartialEq, Eq, Structural)]
pub enum ResponseUse {
    /// Decode the JSON body as the operation's result.
    Decode,
    /// Decode it; a 404 means the resource is not there.
    DecodeOrMissing,
    /// Decode the token pair and keep it in the token store.
    KeepTokens,
    /// Decode the signup response and keep its tokens, which expire
    /// fifteen minutes after the response arrives.
    KeepSignupTokens,
    /// Read the body as a stream of server-sent events.
    Stream,
    /// Only the status counts; the body is not read.
    StatusOnly,
    /// Decode the body as JSON and discard it.
    Discard,
    /// Decode the body as JSON, discard it, and forget every token.
    DiscardAndClearTokens,
}

/// The method of `c`.
pub open spec fn call_method(c: HermonCall) -> HttpMethod {
    match c {
        HermonCall::Health | HermonCall::Version | HermonCall::Session | HermonCall::Me | HermonCall::GetAgent { .. } | HermonCall::GetAgentBySlug { .. }
        | HermonCall::ListBuiltinAgents | HermonCall::GetModel { .. } | HermonCall::GetConversation { .. }
        | HermonCall::ExportConversation { .. } | HermonCall::GetDriveObject { .. }
        | HermonCall::GetDriveContent { .. } | HermonCall::GetOrg { .. } | HermonCall::GetUser { .. }
        | HermonCall::GetSession { .. } => HttpMethod::Get,
        HermonCall::UpdateAgent { .. } | HermonCall::UpdateConversationTitle { .. }
        | HermonCall::UpdateDriveObject { .. } | HermonCall::PutDriveContent { .. } => HttpMethod::Put,
        HermonCall::DeleteAgent { .. } | HermonCall::DeleteConversation { .. } | HermonCall::DeleteDriveObject { .. }
        | HermonCall::RevokeSession { .. } => HttpMethod::Delete,
        _ => HttpMethod::Post,
    }
}

/// The path of `c`.
pub open spec fn call_path(c: HermonCall) -> Seq<char> {
    match c {
        HermonCall::Health => "/healthz/live"@,
        HermonCall::Version => "/info/version"@,
        HermonCall::Register | HermonCall::Signup => "/v1/auth/register"@,
        HermonCall::Login => "/v1/auth/login"@,
        HermonCall::LoginWithApiToken => "/v1/auth/login/token"@,
        HermonCall::Session => "/v1/auth/session"@,
        HermonCall::Me => "/v1/auth/me"@,
        HermonCall::Logout => "/v1/auth/logout"@,
        HermonCall::CreateAgent => "/v1/agents"@,
        HermonCall::GetAgent { agent_id } => "/v1/agents/"@ + agent_id@,
        HermonCall::GetAgentBySlug { slug } => "/v1/agents/slug/"@ + slug@,
        HermonCall::UpdateAgent { agent_id } => "/v1/agents/"@ + agent_id@,
        HermonCall::DeleteAgent { agent_id } => "/v1/agents/"@ + agent_id@,
        HermonCall::InvokeAgent { agent_id } => "/v1/agents/"@ + agent_id@ + "/invoke"@,
        HermonCall::ApproveTool { agent_id, invocation_id } => "/v1/agents/"@ + agent_id@ + "/invocations/"@
            + invocation_id@ + "/approve"@,
        HermonCall::ListBuiltinAgents => "/v1/agents/builtin"@,
        HermonCall::CloneAgent { agent_id } => "/v1/agents/"@ + agent_id@ + "/clone"@,
        HermonCall::SendAi => "/v1/ai/send"@,
        HermonCall::GetModel { model_id } => "/v1/ai/models/"@ + model_id@,
        HermonCall::CreateConversation => "/v1/conversations"@,
        HermonCall::GetConversation { conversation_id } => "/v1/conversations/"@ + conversation_id@,
        HermonCall::SendMessage { conversation_id } => "/v1/conversations/"@ + conversation_id@ + "/messages"@,
        HermonCall::ArchiveConversation { conversation_id } => "/v1/conversations/"@ + conversation_id@
            + "/archive"@,
        HermonCall::DeleteConversation { conversation_id } => "/v1/conversations/"@ + conversation_id@,
        HermonCall::UpdateConversationTitle { conversation_id } => "/v1/conversations/"@ + conversation_id@,
        HermonCall::ForkConversation { conversation_id } => "/v1/conversations/"@ + conversation_id@ + "/fork"@,
        HermonCall::ExportConversation { conversation_id, .. } => "/v1/conversations/"@ + conversation_id@
            + "/export"@,
        HermonCall::CreateDriveObject => "/v1/drive/objects"@,
        HermonCall::GetDriveObject { object_id } => "/v1/drive/objects/"@ + object_id@,
        HermonCall::UpdateDriveObject { object_id } => "/v1/drive/objects/"@ + object_id@,
        HermonCall::DeleteDriveObject { object_id } => "/v1/drive/objects/"@ + object_id@,
        HermonCall::GetDriveContent { object_id } => "/v1/drive/objects/"@ + object_id@ + "/content"@,
        HermonCall::PutDriveContent { object_id } => "/v1/drive/objects/"@ + object_id@ + "/content"@,
        HermonCall::MoveDriveObject { object_id } => "/v1/drive/objects/"@ + object_id@ + "/move"@,
        HermonCall::RestoreDriveObject { object_id } => "/v1/drive/objects/"@ + object_id@ + "/restore"@,
        HermonCall::DuplicateDriveObject { object_id } => "/v1/drive/objects/"@ + object_id@ + "/duplicate"@,
        HermonCall::GetOrg { org_id } => "/v1/orgs/"@ + org_id@,
        HermonCall::GetUser { user_id } => "/v1/users/"@ + user_id@,
        HermonCall::GetSession { session_id } => "/v1/sessions/"@ + session_id@,
        HermonCall::RevokeSession { session_id } => "/v1/sessions/"@ + session_id@,
        HermonCall::RevokeAllSessions => "/v1/sessions/revoke-all"@,
        HermonCall::IngestTelemetry => "/v1/telemetry/ingest"@,
    }
}

/// The query of `c`: only an export names its format.
pub open spec fn call_query(c: HermonCall) -> Option<Seq<QueryPair>> {
    match c {
        HermonCall::ExportConversation { format, .. } => Some(seq![("format"@, format@)]),
        _ => None,
    }
}

/// Whether `c` may be retried: an idempotent method, or a telemetry
/// batch, which the server deduplicates.
pub open spec fn call_idempotent(c: HermonCall) -> bool {
    idempotent_method(call_method(c)) || c is IngestTelemetry
}

/// Whether `c` is sent without credentials: the probes of the server
/// and the calls that obtain credentials.
pub open spec fn call_skips_auth(c: HermonCall) -> bool {
    c is Health || c is Version || c is Register || c is Signup || c is Login || c is LoginWithApiToken
}

/// What becomes of the response to `c`.
pub open spec fn call_response(c: HermonCall) -> ResponseUse {
    match c {
        HermonCall::Register | HermonCall::Login | HermonCall::LoginWithApiToken => ResponseUse::KeepTokens,
        HermonCall::Signup => ResponseUse::KeepSignupTokens,
        HermonCall::Logout => ResponseUse::DiscardAndClearTokens,
        HermonCall::GetAgent { .. } | HermonCall::GetAgentBySlug { .. } | HermonCall::GetModel { .. }
        | HermonCall::GetConversation { .. } | HermonCall::GetDriveObject { .. } => ResponseUse::DecodeOrMissing,
        HermonCall::InvokeAgent { .. } | HermonCall::SendAi | HermonCall::SendMessage { .. } => ResponseUse::Stream,
        HermonCall::DeleteAgent { .. } | HermonCall::ApproveTool { .. } | HermonCall::DeleteConversation { .. }
        | HermonCall::DeleteDriveObject { .. } => ResponseUse::StatusOnly,
        HermonCall::RevokeSession { .. } | HermonCall::RevokeAllSessions | HermonCall::IngestTelemetry => {
            ResponseUse::Discard
        },
        _ => ResponseUse::Decode,
    }
}

/// A request and what to do with its response.
pub struct CallPlan {
    pub request: RequestOptions,
    pub response: ResponseUse,
}

/// `c`'s plan: its request as the table above gives it, with no body
/// yet, and the use of its response.
pub open spec fn plans(p: CallPlan, c: HermonCall) -> bool {
    &&& p.request.method == call_method(c)
    &&& p.request.path@ == call_path(c)
    &&& p.request.body is None
    &&& p.request.idempotent == call_idempotent(c)
    &&& p.request.skip_auth == call_skips_auth(c)
    &&& match call_query(c) {
        Some(q) => p.request.query matches Some(v) && pairs_view(v@) == q,
        None => p.request.query is None,
    }
    &&& p.response == call_response(c)
}

/// `prefix`, then `id`.
fn under(prefix: &str, id: &String) -> (r: String)
    ensures
        r@ == prefix@ + id@,
{
    let mut v = chars_of(prefix);
    append_str(&mut v, id.as_str());
    string_of(&v)
}

/// `prefix`, then `id`, then `suffix`.
fn under_then(prefix: &str, id: &String, suffix: &str) -> (r: String)
    ensures
        r@ == prefix@ + id@ + suffix@,
{
    let mut v = chars_of(prefix);
    append_str(&mut v, id.as_str());
    append_str(&mut v, suffix);
    string_of(&v)
}

fn get_of(path: String) -> (r: RequestOptions)
    ensures
        r.method == HttpMethod::Get && r.path@ == path@ && r.query is None && r.body is None,
        r.idempotent && !r.skip_auth,
{
    RequestOptions::get(path.as_str())
}

fn post_of(path: String) -> (r: RequestOptions)
    ensures
        r.method == HttpMethod::Post && r.path@ == path@ && r.query is None && r.body is None,
        !r.idempotent && !r.skip_auth,
{
    RequestOptions::post(path.as_str())
}

fn put_of(path: String) -> (r: RequestOptions)
    ensures
        r.method == HttpMethod::Put && r.path@ == path@ && r.query is None && r.body is None,
        r.idempotent && !r.skip_auth,
{
    RequestOptions::put(path.as_str())
}

fn delete_of(path: String) -> (r: RequestOptions)
    ensures
        r.method == HttpMethod::Delete && r.path@ == path@ && r.query is None && r.body is None,
        r.idempotent && !r.skip_auth,
{
    RequestOptions::delete(path.as_str())
}

/// The request of `call`, without a body.
fn call_request(call: &HermonCall) -> (r: RequestOptions)
    ensures
        r.method == call_method(*call),
        r.path@ == call_path(*call),
        r.body is None,
        r.idempotent == call_idempotent(*call),
        r.skip_auth == call_skips_auth(*call),
        match call_query(*call) {
            Some(q) => r.query matches Some(v) && pairs_view(v@) == q,
            None => r.query is None,
        },
{
    match call {
        HermonCall::Health => RequestOptions::get("/healthz/live").with_skip_auth(true),
        HermonCall::Version => RequestOptions::get("/info/version").with_skip_auth(true),
        HermonCall::Register | HermonCall::Signup => RequestOptions::post("/v1/auth/register").with_skip_auth(true),
        HermonCall::Login => RequestOptions::post("/v1/auth/login").with_skip_auth(true),
        HermonCall::LoginWithApiToken => RequestOptions::post("/v1/auth/login/token").with_skip_auth(true),
        HermonCall::Session => RequestOptions::get("/v1/auth/session"),
        HermonCall::Me => RequestOptions::get("/v1/auth/me"),
        HermonCall::Logout => RequestOptions::post("/v1/auth/logout"),
        HermonCall::CreateAgent => RequestOptions::post("/v1/agents"),
        HermonCall::GetAgent { agent_id } => get_of(under("/v1/agents/", agent_id)),
        HermonCall::GetAgentBySlug { slug } => get_of(under("/v1/agents/slug/", slug)),
        HermonCall::UpdateAgent { agent_id } => put_of(under("/v1/agents/", agent_id)),
        HermonCall::DeleteAgent { agent_id } => delete_of(under("/v1/agents/", agent_id)),
        HermonCall::InvokeAgent { agent_id } => post_of(under_then("/v1/agents/", agent_id, "/invoke")),
        HermonCall::ApproveTool { agent_id, invocation_id } => {
            let mut v = chars_of("/v1/agents/");
            append_str(&mut v, agent_id.as_str());
            append_str(&mut v, "/invocations/");
            append_str(&mut v, invocation_id.as_str());
            append_str(&mut v, "/approve");
            post_of(string_of(&v))
        },
        HermonCall::ListBuiltinAgents => RequestOptions::get("/v1/agents/builtin"),
        HermonCall::CloneAgent { agent_id } => post_of(under_then("/v1/agents/", agent_id, "/clone")),
        HermonCall::SendAi => RequestOptions::post("/v1/ai/send"),
        HermonCall::GetModel { model_id } => get_of(under("/v1/ai/models/", model_id)),
        HermonCall::CreateConversation => RequestOptions::post("/v1/conversations"),
        HermonCall::GetConversation { conversation_id } => get_of(under("/v1/conversations/", conversation_id)),
        HermonCall::SendMessage { conversation_id } => {
            post_of(under_then("/v1/conversations/", conversation_id, "/messages"))
        },
        HermonCall::ArchiveConversation { conversation_id } => {
            post_of(under_then("/v1/conversations/", conversation_id, "/archive"))
        },
        HermonCall::DeleteConversation { conversation_id } => {
            delete_of(under("/v1/conversations/", conversation_id))
        },
        HermonCall::UpdateConversationTitle { conversation_id } => {
            put_of(under("/v1/conversations/", conversation_id))
        },
        HermonCall::ForkConversation { conversation_id } => {
            post_of(under_then("/v1/conversations/", conversation_id, "/fork"))
        },
        HermonCall::ExportConversation { conversation_id, format } => {
            let mut q: Vec<(String, String)> = Vec::new();
            q.push((string_of(&chars_of("format")), format.clone()));
            assert(pairs_view(q@) =~= seq![("format"@, format@)]);
            get_of(under_then("/v1/conversations/", conversation_id, "/export")).with_query(q)
        },
        HermonCall::CreateDriveObject => RequestOptions::post("/v1/drive/objects"),
        HermonCall::GetDriveObject { object_id } => get_of(under("/v1/drive/objects/", object_id)),
        HermonCall::UpdateDriveObject { object_id } => put_of(under("/v1/drive/objects/", object_id)),
        HermonCall::DeleteDriveObject { object_id } => delete_of(under("/v1/drive/objects/", object_id)),
        HermonCall::GetDriveContent { object_id } => get_of(under_then("/v1/drive/objects/", object_id, "/content")),
        HermonCall::PutDriveContent { object_id } => put_of(under_then("/v1/drive/objects/", object_id, "/content")),
        HermonCall::MoveDriveObject { object_id } => post_of(under_then("/v1/drive/objects/", object_id, "/move")),
        HermonCall::RestoreDriveObject { object_id } => {
            post_of(under_then("/v1/drive/objects/", object_id, "/restore"))
        },
        HermonCall::DuplicateDriveObject { object_id } => {
            post_of(under_then("/v1/drive/objects/", object_id, "/duplicate"))
        },
        HermonCall::GetOrg { org_id } => get_of(under("/v1/orgs/", org_id)),
        HermonCall::GetUser { user_id } => get_of(under("/v1/users/", user_id)),
        HermonCall::GetSession { session_id } => get_of(under("/v1/sessions/", session_id)),
        HermonCall::RevokeSession { session_id } => delete_of(under("/v1/sessions/", session_id)),
        HermonCall::RevokeAllSessions => RequestOptions::post("/v1/sessions/revoke-all"),
        HermonCall::IngestTelemetry => RequestOptions::post("/v1/telemetry/ingest").with_idempotent(true),
    }
}

/// What becomes of the response to `call`.
fn response_use(call: &HermonCall) -> (r: ResponseUse)
    ensures
        r == call_response(*call),
{
    match call {
        HermonCall::Register | HermonCall::Login | HermonCall::LoginWithApiToken => ResponseUse::KeepTokens,
        HermonCall::Signup => ResponseUse::KeepSignupTokens,
        HermonCall::Logout => ResponseUse::DiscardAndClearTokens,
        HermonCall::GetAgent { .. } | HermonCall::GetAgentBySlug { .. } | HermonCall::GetModel { .. }
        | HermonCall::GetConversation { .. } | HermonCall::GetDriveObject { .. } => ResponseUse::DecodeOrMissing,
        HermonCall::InvokeAgent { .. } | HermonCall::SendAi | HermonCall::SendMessage { .. } => ResponseUse::Stream,
        HermonCall::DeleteAgent { .. } | HermonCall::ApproveTool { .. } | HermonCall::DeleteConversation { .. }
        | HermonCall::DeleteDriveObject { .. } => ResponseUse::StatusOnly,
        HermonCall::RevokeSession { .. } | HermonCall::RevokeAllSessions | HermonCall::IngestTelemetry => {
            ResponseUse::Discard
        },
        _ => ResponseUse::Decode,
    }
}

/// The plan of one API operation.
pub fn plan_call(call: &HermonCall) -> (p: CallPlan)
    ensures
        plans(p, *call),
{
    CallPlan { request: call_request(call), response: response_use(call) }
}

/// When the tokens of a signup answered at `now_ms` expire: fifteen
/// minutes later.
pub fn signup_expires_at(now_ms: i64) -> (r: i64)
    requires
        now_ms <= i64::MAX - 900_000,
    ensures
        r == now_ms + 900_000,
{
    now_ms + 15 * 60 * 1000
}

/// A call that keeps tokens is sent without credentials, every other
/// call without them only probes the server, and logout alone forgets
/// the tokens.
pub proof fn lemma_credentials_flow(c: HermonCall)
    ensures
        (call_response(c) is KeepTokens || call_response(c) is KeepSignupTokens) ==> call_skips_auth(c),
        call_skips_auth(c) ==> (call_response(c) is KeepTokens || call_response(c) is KeepSignupTokens
            || c is Health || c is Version),
        call_response(c) is DiscardAndClearTokens <==> c is Logout,
{
}

/// Only reads treat a 404 as "not there", and every stream is opened by
/// a POST that is never retried.
pub proof fn lemma_reads_and_streams(c: HermonCall)
    ensures
        call_response(c) is DecodeOrMissing ==> call_method(c) == HttpMethod::Get,
        call_response(c) is Stream ==> call_method(c) == HttpMethod::Post && !call_idempotent(c),
{
}

} // verus!
