use wish_core::hermon::{HttpMethod, RequestOptions};
use wish_core::hermon_calls::{plan_call, signup_expires_at, HermonCall, ResponseUse};
use wish_core::hermon_requests::{
    children_request, list_agents_request, list_conversations_request, list_drive_request, list_models_request,
    list_page_request, members_request, messages_request,
};
use wish_core::hermon_types::{
    AgentFilters, AgentType, AgentVisibility, ConversationFilters, ConversationStatus, DriveListFilters,
    DriveObjectType, DriveVisibility, ModelFilters, PageParams,
};

fn query(r: &RequestOptions) -> Vec<(String, String)> {
    r.query.clone().unwrap_or_default()
}

fn pair(k: &str, v: &str) -> (String, String) {
    (k.to_string(), v.to_string())
}

#[test]
fn agent_listing_puts_filters_before_the_page() {
    let r = list_agents_request(
        Some(AgentFilters {
            agent_type: Some(AgentType::Orchestrator),
            visibility: Some(AgentVisibility::System),
            search: Some("plan".to_string()),
        }),
        Some(PageParams { offset: Some(20), limit: Some(10) }),
    );
    assert_eq!(r.method, HttpMethod::Get);
    assert_eq!(r.path, "/v1/agents");
    assert_eq!(
        query(&r),
        vec![
            pair("agentType", "orchestrator"),
            pair("visibility", "system"),
            pair("search", "plan"),
            pair("offset", "20"),
            pair("limit", "10"),
        ]
    );
}

#[test]
fn listing_without_parameters_has_no_query() {
    let r = list_agents_request(None, None);
    assert!(r.query.is_none());
    let r = list_conversations_request(Some(ConversationFilters { agent_id: None, status: None, search: None }), None);
    assert!(r.query.is_none());
    assert_eq!(r.path, "/v1/conversations");
    let r = list_models_request(None);
    assert!(r.query.is_none());
    assert_eq!(r.path, "/v1/ai/models");
}

#[test]
fn conversation_and_model_listings_name_their_filters() {
    let r = list_conversations_request(
        Some(ConversationFilters {
            agent_id: Some("ag1".to_string()),
            status: Some(ConversationStatus::Archived),
            search: None,
        }),
        Some(PageParams { offset: None, limit: Some(5) }),
    );
    assert_eq!(query(&r), vec![pair("agentId", "ag1"), pair("status", "archived"), pair("limit", "5")]);
    let r = list_models_request(Some(ModelFilters {
        provider_id: Some("openai".to_string()),
        capability: Some("vision".to_string()),
    }));
    assert_eq!(query(&r), vec![pair("providerId", "openai"), pair("capability", "vision")]);
}

#[test]
fn drive_listing_joins_tags_with_commas() {
    let r = list_drive_request(
        Some(DriveListFilters {
            parent_id: Some("root".to_string()),
            object_type: Some(DriveObjectType::Folder),
            visibility: Some(DriveVisibility::Org),
            search: None,
            tags: Some(vec!["a".to_string(), "b".to_string(), "c".to_string()]),
            include_deleted: Some(false),
        }),
        None,
    );
    assert_eq!(r.path, "/v1/drive/objects");
    assert_eq!(
        query(&r),
        vec![
            pair("parentId", "root"),
            pair("objectType", "folder"),
            pair("visibility", "org"),
            pair("tags", "a,b,c"),
            pair("includeDeleted", "false"),
        ]
    );
}

#[test]
fn page_listings_of_sessions_members_messages_and_children() {
    let r = list_page_request("/v1/sessions", Some(0), None);
    assert_eq!(r.path, "/v1/sessions");
    assert_eq!(query(&r), vec![pair("offset", "0")]);
    let r = members_request("org_7", None, Some(50));
    assert_eq!(r.path, "/v1/orgs/org_7/members");
    assert_eq!(query(&r), vec![pair("limit", "50")]);
    let r = messages_request("c9", Some(PageParams { offset: Some(3), limit: None }));
    assert_eq!(r.path, "/v1/conversations/c9/messages");
    assert_eq!(query(&r), vec![pair("offset", "3")]);
    let r = messages_request("c9", None);
    assert!(r.query.is_none());
    let r = children_request("folder_1", Some(PageParams { offset: None, limit: Some(2) }));
    assert_eq!(r.path, "/v1/drive/objects");
    assert_eq!(query(&r), vec![pair("parentId", "folder_1"), pair("limit", "2")]);
}

#[test]
fn login_calls_skip_auth_and_keep_tokens() {
    let p = plan_call(&HermonCall::Login);
    assert_eq!(p.request.method, HttpMethod::Post);
    assert_eq!(p.request.path, "/v1/auth/login");
    assert!(p.request.skip_auth);
    assert!(!p.request.idempotent);
    assert_eq!(p.response, ResponseUse::KeepTokens);
    let p = plan_call(&HermonCall::Signup);
    assert_eq!(p.request.path, "/v1/auth/register");
    assert!(p.request.skip_auth);
    assert_eq!(p.response, ResponseUse::KeepSignupTokens);
    let p = plan_call(&HermonCall::LoginWithApiToken);
    assert_eq!(p.request.path, "/v1/auth/login/token");
    let p = plan_call(&HermonCall::Logout);
    assert!(!p.request.skip_auth);
    assert_eq!(p.response, ResponseUse::DiscardAndClearTokens);
}

#[test]
fn resource_paths_embed_their_ids() {
    let p = plan_call(&HermonCall::GetAgentBySlug { slug: "wish-coder".to_string() });
    assert_eq!(p.request.method, HttpMethod::Get);
    assert_eq!(p.request.path, "/v1/agents/slug/wish-coder");
    assert_eq!(p.response, ResponseUse::DecodeOrMissing);
    let p = plan_call(&HermonCall::ApproveTool { agent_id: "a1".to_string(), invocation_id: "i2".to_string() });
    assert_eq!(p.request.path, "/v1/agents/a1/invocations/i2/approve");
    assert_eq!(p.response, ResponseUse::StatusOnly);
    let p = plan_call(&HermonCall::UpdateConversationTitle { conversation_id: "c1".to_string() });
    assert_eq!(p.request.method, HttpMethod::Put);
    assert_eq!(p.request.path, "/v1/conversations/c1");
    assert!(p.request.idempotent);
    let p = plan_call(&HermonCall::DeleteDriveObject { object_id: "o1".to_string() });
    assert_eq!(p.request.method, HttpMethod::Delete);
    assert_eq!(p.request.path, "/v1/drive/objects/o1");
    let p = plan_call(&HermonCall::DuplicateDriveObject { object_id: "o1".to_string() });
    assert_eq!(p.request.path, "/v1/drive/objects/o1/duplicate");
    assert_eq!(p.response, ResponseUse::Decode);
    let p = plan_call(&HermonCall::GetUser { user_id: "u5".to_string() });
    assert_eq!(p.request.path, "/v1/users/u5");
}

#[test]
fn streams_are_posts_and_export_names_its_format() {
    for call in [
        HermonCall::InvokeAgent { agent_id: "a".to_string() },
        HermonCall::SendAi,
        HermonCall::SendMessage { conversation_id: "c".to_string() },
    ] {
        let p = plan_call(&call);
        assert_eq!(p.request.method, HttpMethod::Post);
        assert_eq!(p.response, ResponseUse::Stream);
        assert!(p.request.body.is_none());
    }
    let p = plan_call(&HermonCall::ExportConversation {
        conversation_id: "c3".to_string(),
        format: "markdown".to_string(),
    });
    assert_eq!(p.request.path, "/v1/conversations/c3/export");
    assert_eq!(query(&p.request), vec![pair("format", "markdown")]);
}

#[test]
fn telemetry_is_a_retryable_post() {
    let p = plan_call(&HermonCall::IngestTelemetry);
    assert_eq!(p.request.method, HttpMethod::Post);
    assert_eq!(p.request.path, "/v1/telemetry/ingest");
    assert!(p.request.idempotent);
    assert!(p.request.should_retry());
    assert_eq!(p.response, ResponseUse::Discard);
    let p = plan_call(&HermonCall::RevokeAllSessions);
    assert!(!p.request.should_retry());
}

#[test]
fn signup_tokens_expire_fifteen_minutes_later() {
    assert_eq!(signup_expires_at(1_000), 901_000);
    assert_eq!(signup_expires_at(0), 900_000);
}

#[test]
fn health_and_version_are_unauthenticated_reads() {
    let p = plan_call(&HermonCall::Health);
    assert_eq!(p.request.method, HttpMethod::Get);
    assert_eq!(p.request.path, "/healthz/live");
    assert!(p.request.skip_auth);
    assert_eq!(p.response, ResponseUse::Decode);
    let p = plan_call(&HermonCall::Version);
    assert_eq!(p.request.path, "/info/version");
    assert!(p.request.skip_auth);
}
