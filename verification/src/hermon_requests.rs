//! The requests behind the listing endpoints of the Hermon API: which
//! path each one reads, and which query parameters its filters and
//! pagination become.
use vstd::prelude::*;
use crate::codegraph::opt_view;
use crate::hermon::RequestOptions;
use crate::hermon_types::{
    agent_type_wire, agent_visibility_wire, conversation_status_wire, drive_object_type_wire,
    drive_visibility_wire, AgentFilters, ConversationFilters, DriveListFilters, ModelFilters, PageParams,
};
use crate::text::{append_decimal, append_str, chars_of, decimal, joined, string_of};

verus! {

/// A query parameter as text.
pub type QueryPair = (Seq<char>, Seq<char>);

pub open spec fn pairs_view(v: Seq<(String, String)>) -> Seq<QueryPair> {
    v.map_values(|p: (String, String)| (p.0@, p.1@))
}

/// One parameter when the value is present, none otherwise.
pub open spec fn opt_pair(key: Seq<char>, value: Option<Seq<char>>) -> Seq<QueryPair> {
    match value {
        Some(v) => seq![(key, v)],
        None => Seq::empty(),
    }
}

pub open spec fn opt_decimal(n: Option<u64>) -> Option<Seq<char>> {
    match n {
        Some(x) => Some(decimal(x as nat)),
        None => None,
    }
}

/// `offset`, then `limit`, each when given.
pub open spec fn page_pairs(page: Option<PageParams>) -> Seq<QueryPair> {
    match page {
        Some(p) => opt_pair("offset"@, opt_decimal(p.offset)) + opt_pair("limit"@, opt_decimal(p.limit)),
        None => Seq::empty(),
    }
}

pub open spec fn agent_pairs(f: Option<AgentFilters>) -> Seq<QueryPair> {
    match f {
        Some(f) => opt_pair(
            "agentType"@,
            match f.agent_type {
                Some(t) => Some(agent_type_wire(t)),
                None => None,
            },
        ) + opt_pair(
            "visibility"@,
            match f.visibility {
                Some(v) => Some(agent_visibility_wire(v)),
                None => None,
            },
        ) + opt_pair("search"@, opt_view(f.search)),
        None => Seq::empty(),
    }
}

pub open spec fn conversation_pairs(f: Option<ConversationFilters>) -> Seq<QueryPair> {
    match f {
        Some(f) => opt_pair("agentId"@, opt_view(f.agent_id)) + opt_pair(
            "status"@,
            match f.status {
                Some(s) => Some(conversation_status_wire(s)),
                None => None,
            },
        ) + opt_pair("search"@, opt_view(f.search)),
        None => Seq::empty(),
    }
}

pub open spec fn bool_text(b: bool) -> Seq<char> {
    if b {
        "true"@
    } else {
        "false"@
    }
}

pub open spec fn drive_pairs(f: Option<DriveListFilters>) -> Seq<QueryPair> {
    match f {
        Some(f) => opt_pair("parentId"@, opt_view(f.parent_id)) + opt_pair(
            "objectType"@,
            match f.object_type {
                Some(t) => Some(drive_object_type_wire(t)),
                None => None,
            },
        ) + opt_pair(
            "visibility"@,
            match f.visibility {
                Some(v) => Some(drive_visibility_wire(v)),
                None => None,
            },
        ) + opt_pair("search"@, opt_view(f.search)) + opt_pair(
            "tags"@,
            match f.tags {
                Some(t) => Some(joined(t@.map_values(|s: String| s@), ","@)),
                None => None,
            },
        ) + opt_pair(
            "includeDeleted"@,
            match f.include_deleted {
                Some(b) => Some(bool_text(b)),
                None => None,
            },
        ),
        None => Seq::empty(),
    }
}

pub open spec fn model_pairs(f: ModelFilters) -> Seq<QueryPair> {
    opt_pair("providerId"@, opt_view(f.provider_id)) + opt_pair("capability"@, opt_view(f.capability))
}

/// A GET of `path` carrying `pairs` as its query, or no query at all
/// when there are none.
pub open spec fn lists(r: RequestOptions, path: Seq<char>, pairs: Seq<QueryPair>) -> bool {
    &&& r.path@ == path
    &&& r.method == crate::hermon::HttpMethod::Get
    &&& r.idempotent && !r.skip_auth && r.body is None
    &&& match r.query {
        Some(q) => pairs.len() > 0 && pairs_view(q@) == pairs,
        None => pairs.len() == 0,
    }
}

fn push_pair(v: &mut Vec<(String, String)>, key: &str, value: String)
    ensures
        pairs_view(final(v)@) == pairs_view(old(v)@).push((key@, value@)),
{
    let k = string_of(&chars_of(key));
    v.push((k, value));
    assert(pairs_view(v@) =~= pairs_view(old(v)@).push((key@, value@)));
}

fn decimal_string(n: u64) -> (r: String)
    ensures
        r@ == decimal(n as nat),
{
    let mut v: Vec<char> = Vec::new();
    append_decimal(&mut v, n);
    assert(v@ =~= decimal(n as nat));
    string_of(&v)
}

fn push_page(v: &mut Vec<(String, String)>, page: Option<PageParams>)
    ensures
        pairs_view(final(v)@) == pairs_view(old(v)@) + page_pairs(page),
{
    let ghost start = pairs_view(v@);
    if let Some(p) = page {
        if let Some(o) = p.offset {
            push_pair(v, "offset", decimal_string(o));
        }
        let ghost mid = pairs_view(v@);
        if let Some(l) = p.limit {
            push_pair(v, "limit", decimal_string(l));
        }
        assert(pairs_view(v@) =~= start + page_pairs(page));
    } else {
        assert(pairs_view(v@) =~= start + page_pairs(page));
    }
}

fn join_with_commas(tags: &Vec<String>) -> (r: String)
    ensures
        r@ == joined(tags@.map_values(|s: String| s@), ","@),
{
    let ghost parts = tags@.map_values(|s: String| s@);
    let mut out: Vec<char> = Vec::new();
    let mut i: usize = 0;
    proof {
        reveal_strlit(",");
    }
    assert(parts.take(0) =~= Seq::<Seq<char>>::empty());
    while i < tags.len()
        invariant
            i <= tags@.len(),
            parts == tags@.map_values(|s: String| s@),
            out@ == joined(parts.take(i as int), ","@),
            ","@ == seq![','],
        decreases tags.len() - i,
    {
        assert(parts.take(i + 1).drop_last() =~= parts.take(i as int));
        let ghost before = out@;
        if i > 0 {
            out.push(',');
        }
        let t = chars_of(tags[i].as_str());
        let mut k: usize = 0;
        let ghost mid = out@;
        while k < t.len()
            invariant
                k <= t@.len(),
                out@ == mid + t@.take(k as int),
            decreases t.len() - k,
        {
            out.push(t[k]);
            assert(t@.take(k + 1) =~= t@.take(k as int).push(t@[k as int]));
            k = k + 1;
        }
        proof {
            assert(t@.take(t@.len() as int) =~= t@);
            assert(parts.take(i + 1)[i as int] == t@);
            if i == 0 {
                assert(parts.take(1) =~= seq![t@]);
                assert(before =~= Seq::<char>::empty());
            }
            assert(out@ =~= joined(parts.take(i + 1), ","@));
        }
        i = i + 1;
    }
    assert(parts.take(tags@.len() as int) =~= parts);
    string_of(&out)
}

fn listing(path: &str, params: Vec<(String, String)>) -> (r: RequestOptions)
    ensures
        lists(r, path@, pairs_view(params@)),
{
    let opts = RequestOptions::get(path);
    if params.len() > 0 {
        opts.with_query(params)
    } else {
        opts
    }
}

/// The request of an agent listing.
pub fn list_agents_request(filters: Option<AgentFilters>, page: Option<PageParams>) -> (r: RequestOptions)
    ensures
        lists(r, "/v1/agents"@, agent_pairs(filters) + page_pairs(page)),
{
    let mut params: Vec<(String, String)> = Vec::new();
    let ghost f0 = filters;
    if let Some(f) = filters {
        if let Some(t) = f.agent_type {
            push_pair(&mut params, "agentType", string_of(&chars_of(t.wire_name())));
        }
        if let Some(v) = f.visibility {
            push_pair(&mut params, "visibility", string_of(&chars_of(v.wire_name())));
        }
        if let Some(s) = f.search {
            push_pair(&mut params, "search", s);
        }
    }
    assert(pairs_view(params@) =~= agent_pairs(f0));
    push_page(&mut params, page);
    listing("/v1/agents", params)
}

/// The request of a conversation listing.
pub fn list_conversations_request(filters: Option<ConversationFilters>, page: Option<PageParams>) -> (r:
    RequestOptions)
    ensures
        lists(r, "/v1/conversations"@, conversation_pairs(filters) + page_pairs(page)),
{
    let mut params: Vec<(String, String)> = Vec::new();
    let ghost f0 = filters;
    if let Some(f) = filters {
        if let Some(a) = f.agent_id {
            push_pair(&mut params, "agentId", a);
        }
        if let Some(s) = f.status {
            push_pair(&mut params, "status", string_of(&chars_of(s.wire_name())));
        }
        if let Some(s) = f.search {
            push_pair(&mut params, "search", s);
        }
    }
    assert(pairs_view(params@) =~= conversation_pairs(f0));
    push_page(&mut params, page);
    listing("/v1/conversations", params)
}

/// The request of a drive listing.
pub fn list_drive_request(filters: Option<DriveListFilters>, page: Option<PageParams>) -> (r: RequestOptions)
    ensures
        lists(r, "/v1/drive/objects"@, drive_pairs(filters) + page_pairs(page)),
{
    let mut params: Vec<(String, String)> = Vec::new();
    let ghost f0 = filters;
    if let Some(f) = filters {
        if let Some(p) = f.parent_id {
            push_pair(&mut params, "parentId", p);
        }
        if let Some(t) = f.object_type {
            push_pair(&mut params, "objectType", string_of(&chars_of(t.wire_name())));
        }
        if let Some(v) = f.visibility {
            push_pair(&mut params, "visibility", string_of(&chars_of(v.wire_name())));
        }
        if let Some(s) = f.search {
            push_pair(&mut params, "search", s);
        }
        if let Some(tags) = f.tags {
            push_pair(&mut params, "tags", join_with_commas(&tags));
        }
        if let Some(d) = f.include_deleted {
            push_pair(&mut params, "includeDeleted", string_of(&chars_of(if d { "true" } else { "false" })));
        }
    }
    assert(pairs_view(params@) =~= drive_pairs(f0));
    push_page(&mut params, page);
    listing("/v1/drive/objects", params)
}

/// The request of a model listing.
pub fn list_models_request(filters: Option<ModelFilters>) -> (r: RequestOptions)
    ensures
        lists(r, "/v1/ai/models"@, match filters {
            Some(f) => model_pairs(f),
            None => Seq::empty(),
        }),
{
    let mut params: Vec<(String, String)> = Vec::new();
    let ghost f0 = filters;
    if let Some(f) = filters {
        if let Some(p) = f.provider_id {
            push_pair(&mut params, "providerId", p);
        }
        if let Some(c) = f.capability {
            push_pair(&mut params, "capability", c);
        }
    }
    assert(pairs_view(params@) =~= match f0 {
        Some(f) => model_pairs(f),
        None => Seq::empty(),
    });
    listing("/v1/ai/models", params)
}

/// The request of a paginated listing of `path` (organisations,
/// sessions, members).
pub fn list_page_request(path: &str, offset: Option<u64>, limit: Option<u64>) -> (r: RequestOptions)
    ensures
        lists(r, path@, opt_pair("offset"@, opt_decimal(offset)) + opt_pair("limit"@, opt_decimal(limit))),
{
    let mut params: Vec<(String, String)> = Vec::new();
    push_page(&mut params, Some(PageParams { offset, limit }));
    assert(pairs_view(params@) =~= opt_pair("offset"@, opt_decimal(offset)) + opt_pair(
        "limit"@,
        opt_decimal(limit),
    ));
    listing(path, params)
}

/// The request of a page of a conversation's messages:
/// `GET /v1/conversations/{id}/messages` with the page as its query.
pub fn messages_request(conversation_id: &str, page: Option<PageParams>) -> (r: RequestOptions)
    ensures
        lists(r, "/v1/conversations/"@ + conversation_id@ + "/messages"@, page_pairs(page)),
{
    let mut path = chars_of("/v1/conversations/");
    append_str(&mut path, conversation_id);
    append_str(&mut path, "/messages");
    let mut params: Vec<(String, String)> = Vec::new();
    push_page(&mut params, page);
    assert(pairs_view(params@) =~= page_pairs(page));
    let p = string_of(&path);
    listing(p.as_str(), params)
}

/// The request of a page of an organisation's members:
/// `GET /v1/orgs/{id}/members` with `offset` and `limit` when given.
pub fn members_request(org_id: &str, offset: Option<u64>, limit: Option<u64>) -> (r: RequestOptions)
    ensures
        lists(
            r,
            "/v1/orgs/"@ + org_id@ + "/members"@,
            opt_pair("offset"@, opt_decimal(offset)) + opt_pair("limit"@, opt_decimal(limit)),
        ),
{
    let mut path = chars_of("/v1/orgs/");
    append_str(&mut path, org_id);
    append_str(&mut path, "/members");
    let p = string_of(&path);
    list_page_request(p.as_str(), offset, limit)
}

/// The request of a page of a folder's children: a drive listing
/// filtered by parent.
pub fn children_request(folder_id: &str, page: Option<PageParams>) -> (r: RequestOptions)
    ensures
        lists(r, "/v1/drive/objects"@, seq![("parentId"@, folder_id@)] + page_pairs(page)),
{
    let filters = DriveListFilters { parent_id: Some(string_of(&chars_of(folder_id))), ..Default::default() };
    let ghost f = filters;
    let r = list_drive_request(Some(filters), page);
    assert(drive_pairs(Some(f)) =~= seq![("parentId"@, folder_id@)]);
    r
}

} // verus!
