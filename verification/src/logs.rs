//! The operational-log resource family: listings, single entries, and
//! the traffic statistics series.

use vstd::prelude::*;
use vstd::string::*;
use crate::client::Client;
use crate::error::ApiError;
use crate::httpc::{
    Httpc, Transport, HttpRequest, Method, pair_views, base_header_views, opt_pair,
};
use crate::json::{
    JsonValue, json_parse, parse_json_text, sfield_str, sfield_i32, sfield_datetime,
    sfield_opt_str, obj_get, path_disp, path_child, path_index, dec_matches, DecodeDetail,
    field_str, field_i32, field_datetime, field_opt_str, lookup, disp_of, child_of, index_of,
    smsg_missing, msg_missing,
};
use crate::strutil::{
    str_concat, snippet_rep, snippet_of, dec_rep_signed, i32_to_string, lemma_empty_str_view,
};
use crate::strutil::clone_opt;

verus! {

/// Scopes builder creation to the request-log resource.
pub struct LogsManager<'a, A> {
    pub client: &'a Client<A>,
}

/// A log listing request: immutable, every setter returns a fresh
/// builder.
#[derive(Debug, Clone)]
pub struct LogListRequestBuilder<'a, A> {
    pub client: &'a Client<A>,
    pub page: i32,
    pub per_page: i32,
    pub sort: Option<String>,
    pub filter: Option<String>,
}

/// A single log entry view request.
#[derive(Debug, Clone)]
pub struct LogViewRequestBuilder<'a, A> {
    pub client: &'a Client<A>,
    pub id: String,
}

/// A traffic statistics request.
#[derive(Debug, Clone)]
pub struct LogStatisticsRequestBuilder<'a, A> {
    pub client: &'a Client<A>,
    pub filter: Option<String>,
}

/// One request-log entry.
#[derive(Debug, Clone, PartialEq)]
pub struct LogListItem {
    pub id: String,
    pub created: String,
    pub updated: String,
    pub url: String,
    pub method: String,
    pub status: i32,
    pub ip: Option<String>,
    pub referer: String,
    pub user_agent: String,
    pub meta: Vec<(String, String)>,
}

/// One page of log entries.
#[derive(Debug, Clone, PartialEq)]
pub struct LogList {
    pub page: i32,
    pub per_page: i32,
    pub total_items: i32,
    pub items: Vec<LogListItem>,
}

/// One point of the traffic statistics series.
#[derive(Debug, Clone, PartialEq)]
pub struct LogStatDataPoint {
    pub total: i32,
    pub date: String,
}

// ---------------------------------------------------------------------------
// Decoding.
// ---------------------------------------------------------------------------

/// The entries of the `meta` object: every value must be a string.
pub open spec fn sdec_meta_entries(
    fs: Seq<(String, JsonValue)>,
    p: Seq<char>,
    i: int,
) -> Result<Seq<(String, String)>, (Seq<char>, Seq<char>)>
    decreases fs.len() - i,
{
    if i < 0 || i >= fs.len() {
        Ok(Seq::empty())
    } else {
        match fs[i].1 {
            JsonValue::Str(s) => match sdec_meta_entries(fs, p, i + 1) {
                Err(e) => Err(e),
                Ok(rest) => Ok(seq![(fs[i].0, s)] + rest),
            },
            _ => Err((path_child(p, fs[i].0@), "expected a string"@)),
        }
    }
}

pub fn decode_meta_entries(fs: &Vec<(String, JsonValue)>, p: &str, i: usize) -> (r: Result<
    Vec<(String, String)>,
    DecodeDetail,
>)
    requires
        i <= fs@.len(),
    ensures
        match r {
            Ok(d) => sdec_meta_entries(fs@, p@, i as int) matches Ok(s) && s == d@,
            Err(e) => sdec_meta_entries(fs@, p@, i as int) matches Err(s) && e.path@ == s.0
                && e.message@ == s.1,
        },
    decreases fs@.len() - i,
{
    if i == fs.len() {
        let r: Vec<(String, String)> = Vec::new();
        proof {
            assert(r@ =~= Seq::<(String, String)>::empty());
        }
        Ok(r)
    } else {
        match &fs[i].1 {
            JsonValue::Str(s) => {
                let sv = s.clone();
                let mut rest = match decode_meta_entries(fs, p, i + 1) {
                    Ok(rest) => rest,
                    Err(e) => {
                        return Err(e);
                    },
                };
                let key = fs[i].0.clone();
                rest.insert(0, (key, sv));
                proof {
                    let sdec = sdec_meta_entries(fs@, p@, i as int);
                    assert(sdec is Ok);
                    assert(rest@ =~= sdec->Ok_0);
                }
                Ok(rest)
            },
            _ => Err(
                DecodeDetail {
                    path: child_of(p, fs[i].0.as_str()),
                    message: "expected a string".to_owned(),
                },
            ),
        }
    }
}

/// The decoded `meta` entries keep the object's keys, in order.
pub proof fn lemma_meta_entries_keys(fs: Seq<(String, JsonValue)>, p: Seq<char>, i: int)
    requires
        0 <= i <= fs.len(),
    ensures
        sdec_meta_entries(fs, p, i) matches Ok(s) ==> s.len() == fs.len() - i && (forall|k: int|
            0 <= k < s.len() ==> (#[trigger] s[k]).0 == fs[i + k].0),
    decreases fs.len() - i,
{
    if i < fs.len() {
        lemma_meta_entries_keys(fs, p, i + 1);
    }
}

/// A `meta` object with pairwise distinct keys decodes to entries
/// with pairwise distinct keys: the uniqueness the wire map offers is
/// kept by [`decode_meta_entries`].
pub proof fn lemma_meta_entries_distinct(fs: Seq<(String, JsonValue)>, p: Seq<char>)
    requires
        crate::json::distinct_keys(fs),
    ensures
        sdec_meta_entries(fs, p, 0) matches Ok(s) ==> crate::json::distinct_keys(s),
{
    lemma_meta_entries_keys(fs, p, 0);
}

/// One log entry:
/// `{id, created, updated, url, method, status, ip, referer, userAgent, meta}`.
/// The timestamps must be RFC 3339 date-times; `ip` may be absent or
/// null; every `meta` value must be a string.
pub open spec fn sdec_log_item(v: JsonValue, p: Seq<char>) -> Result<
    (String, String, String, String, String, i32, Option<String>, String, String, Seq<
        (String, String),
    >),
    (Seq<char>, Seq<char>),
> {
    match v {
        JsonValue::Obj(fs) => match sfield_str(fs@, "id"@, p) {
            Err(e) => Err(e),
            Ok(id) => match sfield_datetime(fs@, "created"@, p) {
                Err(e) => Err(e),
                Ok(created) => match sfield_datetime(fs@, "updated"@, p) {
                    Err(e) => Err(e),
                    Ok(updated) => match sfield_str(fs@, "url"@, p) {
                        Err(e) => Err(e),
                        Ok(url) => match sfield_str(fs@, "method"@, p) {
                            Err(e) => Err(e),
                            Ok(method) => match sfield_i32(fs@, "status"@, p) {
                                Err(e) => Err(e),
                                Ok(status) => match sfield_opt_str(fs@, "ip"@, p) {
                                    Err(e) => Err(e),
                                    Ok(ip) => match sfield_str(fs@, "referer"@, p) {
                                        Err(e) => Err(e),
                                        Ok(referer) => match sfield_str(fs@, "userAgent"@, p) {
                                            Err(e) => Err(e),
                                            Ok(user_agent) => match obj_get(fs@, "meta"@) {
                                                Option::None => Err(
                                                    (path_disp(p), smsg_missing("meta"@)),
                                                ),
                                                Option::Some(JsonValue::Obj(ms)) => match
                                                    sdec_meta_entries(
                                                    ms@,
                                                    path_child(p, "meta"@),
                                                    0,
                                                ) {
                                                    Err(e) => Err(e),
                                                    Ok(meta) => Ok(
                                                        (
                                                            id,
                                                            created,
                                                            updated,
                                                            url,
                                                            method,
                                                            status,
                                                            ip,
                                                            referer,
                                                            user_agent,
                                                            meta,
                                                        ),
                                                    ),
                                                },
                                                Option::Some(_) => Err(
                                                    (
                                                        path_child(p, "meta"@),
                                                        "expected an object"@,
                                                    ),
                                                ),
                                            },
                                        },
                                    },
                                },
                            },
                        },
                    },
                },
            },
        },
        _ => Err((path_disp(p), "expected an object"@)),
    }
}

pub fn decode_log_item(v: &JsonValue, p: &str) -> (r: Result<LogListItem, DecodeDetail>)
    ensures
        match r {
            Ok(it) => sdec_log_item(*v, p@) matches Ok(t) && t == (
                it.id,
                it.created,
                it.updated,
                it.url,
                it.method,
                it.status,
                it.ip,
                it.referer,
                it.user_agent,
                it.meta@,
            ),
            Err(e) => sdec_log_item(*v, p@) matches Err(s) && e.path@ == s.0 && e.message@ == s.1,
        },
{
    match v {
        JsonValue::Obj(fs) => {
            let id = match field_str(fs, "id", p) {
                Ok(x) => x,
                Err(e) => {
                    return Err(e);
                },
            };
            let created = match field_datetime(fs, "created", p) {
                Ok(x) => x,
                Err(e) => {
                    return Err(e);
                },
            };
            let updated = match field_datetime(fs, "updated", p) {
                Ok(x) => x,
                Err(e) => {
                    return Err(e);
                },
            };
            let url = match field_str(fs, "url", p) {
                Ok(x) => x,
                Err(e) => {
                    return Err(e);
                },
            };
            let method = match field_str(fs, "method", p) {
                Ok(x) => x,
                Err(e) => {
                    return Err(e);
                },
            };
            let status = match field_i32(fs, "status", p) {
                Ok(x) => x,
                Err(e) => {
                    return Err(e);
                },
            };
            let ip = match field_opt_str(fs, "ip", p) {
                Ok(x) => x,
                Err(e) => {
                    return Err(e);
                },
            };
            let referer = match field_str(fs, "referer", p) {
                Ok(x) => x,
                Err(e) => {
                    return Err(e);
                },
            };
            let user_agent = match field_str(fs, "userAgent", p) {
                Ok(x) => x,
                Err(e) => {
                    return Err(e);
                },
            };
            match lookup(fs, "meta") {
                Option::None => Err(
                    DecodeDetail { path: disp_of(p), message: msg_missing("meta") },
                ),
                Option::Some(JsonValue::Obj(ms)) => {
                    let child = child_of(p, "meta");
                    match decode_meta_entries(ms, child.as_str(), 0) {
                        Ok(meta) => Ok(
                            LogListItem {
                                id,
                                created,
                                updated,
                                url,
                                method,
                                status,
                                ip,
                                referer,
                                user_agent,
                                meta,
                            },
                        ),
                        Err(e) => Err(e),
                    }
                },
                Option::Some(_) => Err(
                    DecodeDetail {
                        path: child_of(p, "meta"),
                        message: "expected an object".to_owned(),
                    },
                ),
            }
        },
        _ => Err(DecodeDetail { path: disp_of(p), message: "expected an object".to_owned() }),
    }
}

/// One decoded log entry agrees with its document value.
pub open spec fn log_item_matches(v: JsonValue, pth: Seq<char>, it: LogListItem) -> bool {
    sdec_log_item(v, pth) matches Ok(t) && t == (
        it.id,
        it.created,
        it.updated,
        it.url,
        it.method,
        it.status,
        it.ip,
        it.referer,
        it.user_agent,
        it.meta@,
    )
}

/// The first failure among a listing's items, if any.
pub open spec fn slog_items_err(a: Seq<JsonValue>, p: Seq<char>, i: int) -> Option<
    (Seq<char>, Seq<char>),
>
    decreases a.len() - i,
{
    if i < 0 || i >= a.len() {
        Option::None
    } else {
        match sdec_log_item(a[i], path_index(p, i as nat)) {
            Err(e) => Option::Some(e),
            Ok(_) => slog_items_err(a, p, i + 1),
        }
    }
}

/// The decoded items agree with the document, element by element.
pub open spec fn slog_items_ok(a: Seq<JsonValue>, p: Seq<char>, items: Seq<LogListItem>) -> bool {
    &&& items.len() == a.len()
    &&& forall|j: int|
        0 <= j < a.len() ==> #[trigger] log_item_matches(a[j], path_index(p, j as nat), items[j])
}

#[verifier::rlimit(50)]
pub fn decode_log_items(a: &Vec<JsonValue>, p: &str) -> (r: Result<Vec<LogListItem>, DecodeDetail>)
    ensures
        match r {
            Ok(items) => slog_items_err(a@, p@, 0) is None && slog_items_ok(a@, p@, items@),
            Err(e) => slog_items_err(a@, p@, 0) matches Some(s) && e.path@ == s.0 && e.message@
                == s.1,
        },
{
    let mut items: Vec<LogListItem> = Vec::new();
    let mut i: usize = 0;
    while i < a.len()
        invariant
            i <= a@.len(),
            items@.len() == i,
            forall|j: int|
                0 <= j < i ==> #[trigger] log_item_matches(a@[j], path_index(p@, j as nat),
                items@[j]),
            slog_items_err(a@, p@, 0) == slog_items_err(a@, p@, i as int),
        decreases a@.len() - i,
    {
        let child = index_of(p, i);
        match decode_log_item(&a[i], child.as_str()) {
            Ok(it) => {
                let ghost items0 = items@;
                items.push(it);
                proof {
                    assert(items@ == items0.push(it));
                    assert(items@[i as int] == it);
                    assert(log_item_matches(a@[i as int], path_index(p@, i as nat), it));
                    assert forall|j: int| 0 <= j < i implies #[trigger] log_item_matches(
                        a@[j],
                        path_index(p@, j as nat),
                        items@[j],
                    ) by {
                        assert(items@[j] == items0[j]);
                    }
                }
            },
            Err(e) => {
                return Err(e);
            },
        }
        i = i + 1;
    }
    proof {
        assert(slog_items_err(a@, p@, i as int) is None);
    }
    Ok(items)
}

/// A whole listing page: `{page, perPage, totalItems, items}`. The
/// first failure, if any.
pub open spec fn slog_list_err(v: JsonValue) -> Option<(Seq<char>, Seq<char>)> {
    match v {
        JsonValue::Obj(fs) => match sfield_i32(fs@, "page"@, Seq::empty()) {
            Err(e) => Option::Some(e),
            Ok(_) => match sfield_i32(fs@, "perPage"@, Seq::empty()) {
                Err(e) => Option::Some(e),
                Ok(_) => match sfield_i32(fs@, "totalItems"@, Seq::empty()) {
                    Err(e) => Option::Some(e),
                    Ok(_) => match obj_get(fs@, "items"@) {
                        Option::None => Option::Some(
                            (path_disp(Seq::empty()), smsg_missing("items"@)),
                        ),
                        Option::Some(JsonValue::Arr(a)) => slog_items_err(a@, "items"@, 0),
                        Option::Some(_) => Option::Some(("items"@, "expected an array"@)),
                    },
                },
            },
        },
        _ => Option::Some((path_disp(Seq::empty()), "expected an object"@)),
    }
}

/// What a decoded listing page holds when nothing failed.
pub open spec fn slog_list_ok(v: JsonValue, r: LogList) -> bool {
    &&& v matches JsonValue::Obj(fs)
    &&& sfield_i32(v->Obj_0@, "page"@, Seq::empty()) matches Ok(x) && x == r.page
    &&& sfield_i32(v->Obj_0@, "perPage"@, Seq::empty()) matches Ok(x) && x == r.per_page
    &&& sfield_i32(v->Obj_0@, "totalItems"@, Seq::empty()) matches Ok(x) && x == r.total_items
    &&& obj_get(v->Obj_0@, "items"@) matches Some(it) && it matches JsonValue::Arr(a)
        && slog_items_ok(a@, "items"@, r.items@)
}

pub fn decode_log_list(v: &JsonValue) -> (r: Result<LogList, DecodeDetail>)
    ensures
        match r {
            Ok(ll) => slog_list_err(*v) is None && slog_list_ok(*v, ll),
            Err(e) => slog_list_err(*v) matches Some(s) && e.path@ == s.0 && e.message@ == s.1,
        },
{
    proof {
        lemma_empty_str_view();
    }
    match v {
        JsonValue::Obj(fs) => {
            let page = match field_i32(fs, "page", "") {
                Ok(x) => x,
                Err(e) => {
                    return Err(e);
                },
            };
            let per_page = match field_i32(fs, "perPage", "") {
                Ok(x) => x,
                Err(e) => {
                    return Err(e);
                },
            };
            let total_items = match field_i32(fs, "totalItems", "") {
                Ok(x) => x,
                Err(e) => {
                    return Err(e);
                },
            };
            match lookup(fs, "items") {
                Option::None => Err(
                    DecodeDetail { path: disp_of(""), message: msg_missing("items") },
                ),
                Option::Some(JsonValue::Arr(a)) => match decode_log_items(a, "items") {
                    Ok(items) => Ok(LogList { page, per_page, total_items, items }),
                    Err(e) => Err(e),
                },
                Option::Some(_) => Err(
                    DecodeDetail {
                        path: "items".to_owned(),
                        message: "expected an array".to_owned(),
                    },
                ),
            }
        },
        _ => Err(DecodeDetail { path: disp_of(""), message: "expected an object".to_owned() }),
    }
}

/// One statistics point: `{total, date}`.
pub open spec fn sdec_stat(v: JsonValue, p: Seq<char>) -> Result<
    LogStatDataPoint,
    (Seq<char>, Seq<char>),
> {
    match v {
        JsonValue::Obj(fs) => match sfield_i32(fs@, "total"@, p) {
            Err(e) => Err(e),
            Ok(total) => match sfield_str(fs@, "date"@, p) {
                Err(e) => Err(e),
                Ok(date) => Ok(LogStatDataPoint { total, date }),
            },
        },
        _ => Err((path_disp(p), "expected an object"@)),
    }
}

pub fn decode_stat(v: &JsonValue, p: &str) -> (r: Result<LogStatDataPoint, DecodeDetail>)
    ensures
        dec_matches(r, sdec_stat(*v, p@)),
{
    match v {
        JsonValue::Obj(fs) => {
            let total = match field_i32(fs, "total", p) {
                Ok(x) => x,
                Err(e) => {
                    return Err(e);
                },
            };
            let date = match field_str(fs, "date", p) {
                Ok(x) => x,
                Err(e) => {
                    return Err(e);
                },
            };
            Ok(LogStatDataPoint { total, date })
        },
        _ => Err(DecodeDetail { path: disp_of(p), message: "expected an object".to_owned() }),
    }
}

/// The statistics series: a top-level array of points.
pub open spec fn sdec_stats(a: Seq<JsonValue>, i: int) -> Result<
    Seq<LogStatDataPoint>,
    (Seq<char>, Seq<char>),
>
    decreases a.len() - i,
{
    if i < 0 || i >= a.len() {
        Ok(Seq::empty())
    } else {
        match sdec_stat(a[i], path_index(Seq::empty(), i as nat)) {
            Err(e) => Err(e),
            Ok(pt) => match sdec_stats(a, i + 1) {
                Err(e) => Err(e),
                Ok(rest) => Ok(seq![pt] + rest),
            },
        }
    }
}

pub fn decode_stats(a: &Vec<JsonValue>, i: usize) -> (r: Result<
    Vec<LogStatDataPoint>,
    DecodeDetail,
>)
    requires
        i <= a@.len(),
    ensures
        match r {
            Ok(d) => sdec_stats(a@, i as int) matches Ok(s) && s == d@,
            Err(e) => sdec_stats(a@, i as int) matches Err(s) && e.path@ == s.0 && e.message@
                == s.1,
        },
    decreases a@.len() - i,
{
    proof {
        lemma_empty_str_view();
    }
    if i == a.len() {
        let r: Vec<LogStatDataPoint> = Vec::new();
        proof {
            assert(r@ =~= Seq::<LogStatDataPoint>::empty());
        }
        Ok(r)
    } else {
        let child = index_of("", i);
        let pt = match decode_stat(&a[i], child.as_str()) {
            Ok(pt) => pt,
            Err(e) => {
                return Err(e);
            },
        };
        let mut rest = match decode_stats(a, i + 1) {
            Ok(rest) => rest,
            Err(e) => {
                return Err(e);
            },
        };
        rest.insert(0, pt);
        proof {
            let s = sdec_stats(a@, i as int);
            assert(s is Ok);
            assert(rest@ =~= s->Ok_0);
        }
        Ok(rest)
    }
}

// ---------------------------------------------------------------------------
// Builders.
// ---------------------------------------------------------------------------

/// The query a statistics request sends: the filter, when set.
pub open spec fn stats_query(filter: Option<String>) -> Seq<(Seq<char>, Seq<char>)> {
    opt_pair("filter"@, filter)
}

impl<'a, A> LogStatisticsRequestBuilder<'a, A> {
    /// What a finished statistics call can be, given the status and
    /// body of the response that came back.
    pub open spec fn call_outcome(&self, st: u16, b: String, r: Result<
        Vec<LogStatDataPoint>,
        ApiError,
    >) -> bool {
        if !(200 <= st < 300) {
            r matches Err(ApiError::Http { status, url, body_snippet }) && status == st && url@
                == self.client.base_url@ + "/api/logs/requests/stats"@ && body_snippet@
                == snippet_rep(b@)
        } else {
            match json_parse(b@) {
                Option::Some(v) => match r {
                    Ok(pts) => v matches JsonValue::Arr(a) && sdec_stats(v->Arr_0@, 0)
                        matches Ok(se) && se == pts@,
                    Err(e) => e matches ApiError::Decode { path, message, body_snippet }
                        && body_snippet@ == snippet_rep(b@) && (match v {
                        JsonValue::Arr(a) => sdec_stats(a@, 0) matches Err(se) && path@ == se.0
                            && message@ == se.1,
                        _ => path@ == "."@ && message@ == "expected an array"@,
                    }),
                },
                Option::None => r matches Err(ApiError::Decode { path, message, body_snippet })
                    && path@ == "."@ && body_snippet@ == snippet_rep(b@),
            }
        }
    }

    /// A new builder with the filter set; this builder is left as it
    /// was.
    pub fn filter(&self, filter_query: &str) -> (r: Self)
        ensures
            r.client == self.client,
            r.filter matches Some(f) && f@ == filter_query@,
    {
        Self { client: self.client, filter: Option::Some(filter_query.to_owned()) }
    }

    /// The request this builder stands for.
    pub fn request(&self) -> (r: HttpRequest)
        ensures
            r.method == Method::Get,
            r.url@ == self.client.base_url@ + "/api/logs/requests/stats"@,
            pair_views(r.query@) == stats_query(self.filter),
            pair_views(r.headers@) == base_header_views(self.client.auth_token, false),
            r.body is None,
    {
        let url = str_concat(self.client.base_url.as_str(), "/api/logs/requests/stats");
        let mut q: Vec<(String, String)> = Vec::new();
        match &self.filter {
            Option::Some(f) => {
                q.push(("filter".to_owned(), f.clone()));
            },
            Option::None => {},
        }
        proof {
            assert(pair_views(q@) =~= stats_query(self.filter));
        }
        Httpc::build_get(self.client, url, Option::Some(q))
    }

    /// Classifies a statistics answer: a non-2xx status is an HTTP
    /// failure; a 2xx body is decoded.
    pub fn classify(status: u16, url: &str, body: &str) -> (r: Result<
        Vec<LogStatDataPoint>,
        ApiError,
    >)
        ensures
            if !(200 <= status < 300) {
                r matches Err(ApiError::Http { status: st, url: u, body_snippet }) && st == status
                    && u@ == url@ && body_snippet@ == snippet_rep(body@)
            } else { match json_parse(body@) {
                Option::Some(v) => match r {
                    Ok(pts) => v matches JsonValue::Arr(a) && sdec_stats(v->Arr_0@, 0)
                        matches Ok(s) && s == pts@,
                    Err(e) => e matches ApiError::Decode { path, message, body_snippet }
                        && body_snippet@ == snippet_rep(body@) && (match v {
                        JsonValue::Arr(a) => sdec_stats(a@, 0) matches Err(s) && path@ == s.0
                            && message@ == s.1,
                        _ => path@ == "."@ && message@ == "expected an array"@,
                    }),
                },
                Option::None => r matches Err(ApiError::Decode { path, message, body_snippet })
                    && path@ == "."@ && body_snippet@ == snippet_rep(body@),
            } },
    {
        if !(200 <= status && status < 300) {
            return Err(
                ApiError::Http { status, url: url.to_owned(), body_snippet: snippet_of(body) },
            );
        }
        match parse_json_text(body) {
            Ok(v) => match &v {
                JsonValue::Arr(a) => match decode_stats(a, 0) {
                    Ok(pts) => Ok(pts),
                    Err(d) => Err(
                        ApiError::Decode {
                            path: d.path,
                            message: d.message,
                            body_snippet: snippet_of(body),
                        },
                    ),
                },
                _ => Err(
                    ApiError::Decode {
                        path: ".".to_owned(),
                        message: "expected an array".to_owned(),
                        body_snippet: snippet_of(body),
                    },
                ),
            },
            Err(m) => Err(
                ApiError::Decode {
                    path: ".".to_owned(),
                    message: m,
                    body_snippet: snippet_of(body),
                },
            ),
        }
    }

    /// Fetches the series: whatever the transport produced, the
    /// result is that response's classification, or the transport's
    /// own failure.
    pub fn call<T: Transport>(&self, t: &mut T) -> (r: Result<Vec<LogStatDataPoint>, ApiError>)
        ensures
            (exists|st: u16, b: String| #[trigger] self.call_outcome(st, b, r)) || r matches Err(
                ApiError::Transport(_),
            ),
    {
        let req = self.request();
        let url = req.url.clone();
        match t.send(&req) {
            Ok(resp) => {
                let r = Self::classify(resp.status, url.as_str(), resp.body.as_str());
                proof {
                    assert(self.call_outcome(resp.status, resp.body, r));
                }
                r
            },
            Err(e) => Err(ApiError::Transport(e)),
        }
    }
}

impl<'a, A> LogViewRequestBuilder<'a, A> {
    /// What a finished view call can be, given the status and body of
    /// the response that came back.
    pub open spec fn call_outcome(&self, st: u16, b: String, r: Result<LogListItem, ApiError>)
        -> bool {
        if !(200 <= st < 300) {
            r matches Err(ApiError::Http { status, url, body_snippet }) && status == st && url@
                == self.client.base_url@ + "/api/logs/requests/"@ + self.id@ && body_snippet@
                == snippet_rep(b@)
        } else {
            match json_parse(b@) {
                Option::Some(v) => match r {
                    Ok(it) => log_item_matches(v, Seq::empty(), it),
                    Err(e) => e matches ApiError::Decode { path, message, body_snippet }
                        && sdec_log_item(v, Seq::empty()) matches Err(se) && path@ == se.0
                        && message@ == se.1 && body_snippet@ == snippet_rep(b@),
                },
                Option::None => r matches Err(ApiError::Decode { path, message, body_snippet })
                    && path@ == "."@ && body_snippet@ == snippet_rep(b@),
            }
        }
    }

    /// The request this builder stands for.
    pub fn request(&self) -> (r: HttpRequest)
        ensures
            r.method == Method::Get,
            r.url@ == self.client.base_url@ + "/api/logs/requests/"@ + self.id@,
            r.query@.len() == 0,
            pair_views(r.headers@) == base_header_views(self.client.auth_token, false),
            r.body is None,
    {
        let url0 = str_concat(self.client.base_url.as_str(), "/api/logs/requests/");
        let url = str_concat(url0.as_str(), self.id.as_str());
        Httpc::build_get(self.client, url, Option::None)
    }

    /// Classifies a single-entry answer: a non-2xx status is an HTTP
    /// failure; a 2xx body is decoded.
    pub fn classify(status: u16, url: &str, body: &str) -> (r: Result<LogListItem, ApiError>)
        ensures
            if !(200 <= status < 300) {
                r matches Err(ApiError::Http { status: st, url: u, body_snippet }) && st == status
                    && u@ == url@ && body_snippet@ == snippet_rep(body@)
            } else { match json_parse(body@) {
                Option::Some(v) => match r {
                    Ok(it) => log_item_matches(v, Seq::empty(), it),
                    Err(e) => e matches ApiError::Decode { path, message, body_snippet }
                        && sdec_log_item(v, Seq::empty()) matches Err(s) && path@ == s.0
                        && message@ == s.1 && body_snippet@ == snippet_rep(body@),
                },
                Option::None => r matches Err(ApiError::Decode { path, message, body_snippet })
                    && path@ == "."@ && body_snippet@ == snippet_rep(body@),
            } },
    {
        proof {
            lemma_empty_str_view();
        }
        if !(200 <= status && status < 300) {
            return Err(
                ApiError::Http { status, url: url.to_owned(), body_snippet: snippet_of(body) },
            );
        }
        match parse_json_text(body) {
            Ok(v) => match decode_log_item(&v, "") {
                Ok(it) => Ok(it),
                Err(d) => Err(
                    ApiError::Decode {
                        path: d.path,
                        message: d.message,
                        body_snippet: snippet_of(body),
                    },
                ),
            },
            Err(m) => Err(
                ApiError::Decode {
                    path: ".".to_owned(),
                    message: m,
                    body_snippet: snippet_of(body),
                },
            ),
        }
    }

    /// Fetches the entry: whatever the transport produced, the
    /// result is that response's classification, or the transport's
    /// own failure.
    pub fn call<T: Transport>(&self, t: &mut T) -> (r: Result<LogListItem, ApiError>)
        ensures
            (exists|st: u16, b: String| #[trigger] self.call_outcome(st, b, r)) || r matches Err(
                ApiError::Transport(_),
            ),
    {
        let req = self.request();
        let url = req.url.clone();
        match t.send(&req) {
            Ok(resp) => {
                let r = Self::classify(resp.status, url.as_str(), resp.body.as_str());
                proof {
                    assert(self.call_outcome(resp.status, resp.body, r));
                }
                r
            },
            Err(e) => Err(ApiError::Transport(e)),
        }
    }
}

/// The query a log listing sends, in order: the optional sort and
/// filter, then `perPage` and `page`.
pub open spec fn log_list_query(
    sort: Option<String>,
    filter: Option<String>,
    per_page: i32,
    page: i32,
) -> Seq<(Seq<char>, Seq<char>)> {
    opt_pair("sort"@, sort) + opt_pair("filter"@, filter) + seq![
        ("perPage"@, dec_rep_signed(per_page as int)),
        ("page"@, dec_rep_signed(page as int)),
    ]
}

impl<'a, A> LogListRequestBuilder<'a, A> {
    /// What a finished listing call can be, given the status and body
    /// of the response that came back.
    pub open spec fn call_outcome(&self, st: u16, b: String, r: Result<LogList, ApiError>)
        -> bool {
        if !(200 <= st < 300) {
            r matches Err(ApiError::Http { status, url, body_snippet }) && status == st && url@
                == self.client.base_url@ + "/api/logs/requests"@ && body_snippet@ == snippet_rep(
                b@,
            )
        } else {
            match json_parse(b@) {
                Option::Some(v) => match r {
                    Ok(ll) => slog_list_err(v) is None && slog_list_ok(v, ll),
                    Err(e) => e matches ApiError::Decode { path, message, body_snippet }
                        && slog_list_err(v) matches Some(se) && path@ == se.0 && message@ == se.1
                        && body_snippet@ == snippet_rep(b@),
                },
                Option::None => r matches Err(ApiError::Decode { path, message, body_snippet })
                    && path@ == "."@ && body_snippet@ == snippet_rep(b@),
            }
        }
    }

    /// A new builder with the page number set; every other option, and
    /// this builder, are left as they were.
    pub fn page(&self, page_count: i32) -> (r: Self)
        ensures
            r.client == self.client,
            r.page == page_count,
            r.per_page == self.per_page,
            r.sort == self.sort,
            r.filter == self.filter,
    {
        Self {
            client: self.client,
            page: page_count,
            per_page: self.per_page,
            sort: clone_opt(&self.sort),
            filter: clone_opt(&self.filter),
        }
    }

    /// A new builder with the page size set.
    pub fn per_page(&self, per_page_count: i32) -> (r: Self)
        ensures
            r.client == self.client,
            r.page == self.page,
            r.per_page == per_page_count,
            r.sort == self.sort,
            r.filter == self.filter,
    {
        Self {
            client: self.client,
            page: self.page,
            per_page: per_page_count,
            sort: clone_opt(&self.sort),
            filter: clone_opt(&self.filter),
        }
    }

    /// A new builder with the filter set.
    pub fn filter(&self, filter_opts: &str) -> (r: Self)
        ensures
            r.client == self.client,
            r.page == self.page,
            r.per_page == self.per_page,
            r.sort == self.sort,
            r.filter matches Some(f) && f@ == filter_opts@,
    {
        Self {
            client: self.client,
            page: self.page,
            per_page: self.per_page,
            sort: clone_opt(&self.sort),
            filter: Option::Some(filter_opts.to_owned()),
        }
    }

    /// A new builder with the sort order set.
    pub fn sort(&self, sort_opts: &str) -> (r: Self)
        ensures
            r.client == self.client,
            r.page == self.page,
            r.per_page == self.per_page,
            r.sort matches Some(s) && s@ == sort_opts@,
            r.filter == self.filter,
    {
        Self {
            client: self.client,
            page: self.page,
            per_page: self.per_page,
            sort: Option::Some(sort_opts.to_owned()),
            filter: clone_opt(&self.filter),
        }
    }

    /// The request this builder stands for.
    pub fn request(&self) -> (r: HttpRequest)
        ensures
            r.method == Method::Get,
            r.url@ == self.client.base_url@ + "/api/logs/requests"@,
            pair_views(r.query@) == log_list_query(
                self.sort,
                self.filter,
                self.per_page,
                self.page,
            ),
            pair_views(r.headers@) == base_header_views(self.client.auth_token, false),
            r.body is None,
    {
        let url = str_concat(self.client.base_url.as_str(), "/api/logs/requests");
        let mut q: Vec<(String, String)> = Vec::new();
        match &self.sort {
            Option::Some(s) => {
                q.push(("sort".to_owned(), s.clone()));
            },
            Option::None => {},
        }
        match &self.filter {
            Option::Some(f) => {
                q.push(("filter".to_owned(), f.clone()));
            },
            Option::None => {},
        }
        q.push(("perPage".to_owned(), i32_to_string(self.per_page)));
        q.push(("page".to_owned(), i32_to_string(self.page)));
        proof {
            assert(pair_views(q@) =~= log_list_query(
                self.sort,
                self.filter,
                self.per_page,
                self.page,
            ));
        }
        Httpc::build_get(self.client, url, Option::Some(q))
    }

    /// Classifies a listing answer: a non-2xx status is an HTTP
    /// failure; a 2xx body is decoded, and a snippet accompanies any
    /// decode failure.
    pub fn classify(status: u16, url: &str, body: &str) -> (r: Result<LogList, ApiError>)
        ensures
            if !(200 <= status < 300) {
                r matches Err(ApiError::Http { status: st, url: u, body_snippet }) && st == status
                    && u@ == url@ && body_snippet@ == snippet_rep(body@)
            } else { match json_parse(body@) {
                Option::Some(v) => match r {
                    Ok(ll) => slog_list_err(v) is None && slog_list_ok(v, ll),
                    Err(e) => e matches ApiError::Decode { path, message, body_snippet }
                        && slog_list_err(v) matches Some(s) && path@ == s.0 && message@ == s.1
                        && body_snippet@ == snippet_rep(body@),
                },
                Option::None => r matches Err(ApiError::Decode { path, message, body_snippet })
                    && path@ == "."@ && body_snippet@ == snippet_rep(body@),
            } },
    {
        if !(200 <= status && status < 300) {
            return Err(
                ApiError::Http { status, url: url.to_owned(), body_snippet: snippet_of(body) },
            );
        }
        match parse_json_text(body) {
            Ok(v) => match decode_log_list(&v) {
                Ok(ll) => Ok(ll),
                Err(d) => Err(
                    ApiError::Decode {
                        path: d.path,
                        message: d.message,
                        body_snippet: snippet_of(body),
                    },
                ),
            },
            Err(m) => Err(
                ApiError::Decode {
                    path: ".".to_owned(),
                    message: m,
                    body_snippet: snippet_of(body),
                },
            ),
        }
    }

    /// Executes the listing: whatever the transport produced, the
    /// result is that response's classification, or the transport's
    /// own failure.
    pub fn call<T: Transport>(&self, t: &mut T) -> (r: Result<LogList, ApiError>)
        ensures
            (exists|st: u16, b: String| #[trigger] self.call_outcome(st, b, r)) || r matches Err(
                ApiError::Transport(_),
            ),
    {
        let req = self.request();
        let url = req.url.clone();
        match t.send(&req) {
            Ok(resp) => {
                let r = Self::classify(resp.status, url.as_str(), resp.body.as_str());
                proof {
                    assert(self.call_outcome(resp.status, resp.body, r));
                }
                r
            },
            Err(e) => Err(ApiError::Transport(e)),
        }
    }
}

impl<'a, A> LogsManager<'a, A> {
    /// A listing builder with the documented defaults: page 1, one
    /// hundred items per page, no sort or filter.
    pub fn list(&self) -> (r: LogListRequestBuilder<'a, A>)
        ensures
            r.client == self.client,
            r.page == 1,
            r.per_page == 100,
            r.sort is None,
            r.filter is None,
    {
        LogListRequestBuilder {
            client: self.client,
            page: 1,
            per_page: 100,
            sort: Option::None,
            filter: Option::None,
        }
    }

    /// A view builder for one log entry.
    pub fn view(&self, id: &str) -> (r: LogViewRequestBuilder<'a, A>)
        ensures
            r.client == self.client,
            r.id@ == id@,
    {
        LogViewRequestBuilder { client: self.client, id: id.to_owned() }
    }

    /// A statistics builder with no filter.
    pub fn statistics(&self) -> (r: LogStatisticsRequestBuilder<'a, A>)
        ensures
            r.client == self.client,
            r.filter is None,
    {
        LogStatisticsRequestBuilder { client: self.client, filter: Option::None }
    }
}

} // verus!
