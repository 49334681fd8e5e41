//! One collection's records: list, view, create, update, destroy, and
//! the bulk-fetch pagination engine. A record is carried as a JSON
//! document, so any schema the caller works with fits through here.

use vstd::prelude::*;
use vstd::string::*;
use vstd::arithmetic::div_mod::lemma_fundamental_div_mod;
use crate::client::Client;
use crate::error::{ApiError, RecordViewError};
use crate::httpc::{
    Httpc, Transport, HttpRequest, Method, pair_views, base_header_views, opt_pair,
};
use crate::json::{
    JsonValue, jeq, json_parse, json_text, parse_json_text, to_json_text, sfield_str, sfield_i32,
    sfield_opt_str, obj_get, path_disp, dec_matches, DecodeDetail, field_str, field_i32,
    field_opt_str, lookup, disp_of, smsg_missing, msg_missing,
};
use crate::strutil::{
    str_concat, snippet_rep, snippet_of, dec_rep_signed, i32_to_string, lemma_empty_str_view,
};
use crate::strutil::clone_opt;

verus! {

/// Scopes builder creation to one collection's records.
#[derive(Debug, Clone)]
pub struct RecordsManager<'a, A> {
    pub client: &'a Client<A>,
    pub name: String,
}

/// A record listing request: immutable, every setter returns a fresh
/// builder.
#[derive(Debug, Clone)]
pub struct RecordsListRequestBuilder<'a, A> {
    pub client: &'a Client<A>,
    pub collection_name: String,
    pub filter: Option<String>,
    pub sort: Option<String>,
    pub expand: Option<String>,
    pub page: i32,
    pub per_page: i32,
}

/// One page of records.
#[derive(Debug)]
pub struct RecordList {
    pub page: i32,
    pub per_page: i32,
    pub total_items: i32,
    pub items: Vec<JsonValue>,
}

/// A single-record view request.
pub struct RecordViewRequestBuilder<'a, A> {
    pub client: &'a Client<A>,
    pub collection_name: String,
    pub identifier: String,
}

/// A record deletion request.
#[derive(Clone, Debug)]
pub struct RecordDestroyRequestBuilder<'a, A> {
    pub identifier: String,
    pub client: &'a Client<A>,
    pub collection_name: String,
}

/// A filtered bulk-deletion request being assembled. The terminal
/// call is not offered yet; the builder only carries its pieces.
#[derive(Debug, Clone)]
pub struct RecordDeleteAllRequestBuilder<'a, A> {
    pub client: &'a Client<A>,
    pub collection_name: String,
    pub filter: Option<String>,
}

/// A record creation request.
#[derive(Debug)]
pub struct RecordCreateRequestBuilder<'a, A> {
    pub client: &'a Client<A>,
    pub collection_name: String,
    pub record: JsonValue,
}

/// The backend's acknowledgment of a creation:
/// `{@collectionName?, @collectionId?, id, updated, created}`.
#[derive(Debug, Clone, PartialEq)]
pub struct CreateResponse {
    pub collection_name: Option<String>,
    pub collection_id: Option<String>,
    pub id: String,
    pub updated: String,
    pub created: String,
}

/// A record update request.
#[derive(Debug)]
pub struct RecordUpdateRequestBuilder<'a, A> {
    pub record: JsonValue,
    pub collection_name: String,
    pub client: &'a Client<A>,
    pub id: String,
}

// ---------------------------------------------------------------------------
// Decoding.
// ---------------------------------------------------------------------------

/// The creation acknowledgment's fields.
pub open spec fn sdec_create(v: JsonValue) -> Result<CreateResponse, (Seq<char>, Seq<char>)> {
    match v {
        JsonValue::Obj(fs) => match sfield_opt_str(fs@, "@collectionName"@, Seq::empty()) {
            Err(e) => Err(e),
            Ok(collection_name) => match sfield_opt_str(fs@, "@collectionId"@, Seq::empty()) {
                Err(e) => Err(e),
                Ok(collection_id) => match sfield_str(fs@, "id"@, Seq::empty()) {
                    Err(e) => Err(e),
                    Ok(id) => match sfield_str(fs@, "updated"@, Seq::empty()) {
                        Err(e) => Err(e),
                        Ok(updated) => match sfield_str(fs@, "created"@, Seq::empty()) {
                            Err(e) => Err(e),
                            Ok(created) => Ok(
                                CreateResponse {
                                    collection_name,
                                    collection_id,
                                    id,
                                    updated,
                                    created,
                                },
                            ),
                        },
                    },
                },
            },
        },
        _ => Err((path_disp(Seq::empty()), "expected an object"@)),
    }
}

pub fn decode_create(v: &JsonValue) -> (r: Result<CreateResponse, DecodeDetail>)
    ensures
        dec_matches(r, sdec_create(*v)),
{
    proof {
        lemma_empty_str_view();
    }
    match v {
        JsonValue::Obj(fs) => {
            let collection_name = match field_opt_str(fs, "@collectionName", "") {
                Ok(x) => x,
                Err(e) => {
                    return Err(e);
                },
            };
            let collection_id = match field_opt_str(fs, "@collectionId", "") {
                Ok(x) => x,
                Err(e) => {
                    return Err(e);
                },
            };
            let id = match field_str(fs, "id", "") {
                Ok(x) => x,
                Err(e) => {
                    return Err(e);
                },
            };
            let updated = match field_str(fs, "updated", "") {
                Ok(x) => x,
                Err(e) => {
                    return Err(e);
                },
            };
            let created = match field_str(fs, "created", "") {
                Ok(x) => x,
                Err(e) => {
                    return Err(e);
                },
            };
            Ok(CreateResponse { collection_name, collection_id, id, updated, created })
        },
        _ => Err(DecodeDetail { path: disp_of(""), message: "expected an object".to_owned() }),
    }
}

/// The decoded items are structurally equivalent copies of the
/// document's array, in order.
pub open spec fn srec_items_ok(a: Seq<JsonValue>, items: Seq<JsonValue>) -> bool {
    &&& items.len() == a.len()
    &&& forall|j: int| 0 <= j < a.len() ==> jeq(#[trigger] items[j], a[j])
}

pub fn copy_record_items(a: &Vec<JsonValue>) -> (r: Vec<JsonValue>)
    ensures
        srec_items_ok(a@, r@),
{
    let mut items: Vec<JsonValue> = Vec::new();
    let mut i: usize = 0;
    while i < a.len()
        invariant
            i <= a@.len(),
            items@.len() == i,
            forall|j: int| 0 <= j < i ==> jeq(#[trigger] items@[j], a@[j]),
        decreases a@.len() - i,
    {
        let c = a[i].deep_copy();
        let ghost items0 = items@;
        items.push(c);
        proof {
            assert(items@[i as int] == c);
            assert forall|j: int| 0 <= j < i implies jeq(#[trigger] items@[j], a@[j]) by {
                assert(items@[j] == items0[j]);
            }
        }
        i = i + 1;
    }
    items
}

/// A record listing page: `{page, perPage, totalItems, items}`. The
/// envelope is typed; the items are arbitrary documents. The first
/// failure, if any.
pub open spec fn srec_list_err(v: JsonValue) -> Option<(Seq<char>, Seq<char>)> {
    match v {
        JsonValue::Obj(fs) => match sfield_i32(fs@, "page"@, Seq::empty()) {
            Err(e) => Option::Some(e),
            Ok(_) => match sfield_i32(fs@, "perPage"@, Seq::empty()) {
                Err(e) => Option::Some(e),
                Ok(_) => match sfield_i32(fs@, "totalItems"@, Seq::empty()) {
                    Err(e) => Option::Some(e),
                    Ok(_) => match obj_get(fs@, "items"@) {
                        Option::None => Option::Some(
                            (path_disp(Seq::empty()), smsg_missing("items"@)),
                        ),
                        Option::Some(JsonValue::Arr(_)) => Option::None,
                        Option::Some(_) => Option::Some(("items"@, "expected an array"@)),
                    },
                },
            },
        },
        _ => Option::Some((path_disp(Seq::empty()), "expected an object"@)),
    }
}

/// What a decoded record page holds when nothing failed.
pub open spec fn srec_list_ok(v: JsonValue, r: RecordList) -> bool {
    &&& v matches JsonValue::Obj(fs)
    &&& sfield_i32(v->Obj_0@, "page"@, Seq::empty()) matches Ok(x) && x == r.page
    &&& sfield_i32(v->Obj_0@, "perPage"@, Seq::empty()) matches Ok(x) && x == r.per_page
    &&& sfield_i32(v->Obj_0@, "totalItems"@, Seq::empty()) matches Ok(x) && x == r.total_items
    &&& obj_get(v->Obj_0@, "items"@) matches Some(it) && it matches JsonValue::Arr(a)
        && srec_items_ok(a@, r.items@)
}

pub fn decode_record_list(v: &JsonValue) -> (r: Result<RecordList, DecodeDetail>)
    ensures
        match r {
            Ok(rl) => srec_list_err(*v) is None && srec_list_ok(*v, rl),
            Err(e) => srec_list_err(*v) matches Some(s) && e.path@ == s.0 && e.message@ == s.1,
        },
{
    proof {
        lemma_empty_str_view();
    }
    match v {
        JsonValue::Obj(fs) => {
            let page = match field_i32(fs, "page", "") {
                Ok(x) => x,
                Err(e) => {
                    return Err(e);
                },
            };
            let per_page = match field_i32(fs, "perPage", "") {
                Ok(x) => x,
                Err(e) => {
                    return Err(e);
                },
            };
            let total_items = match field_i32(fs, "totalItems", "") {
                Ok(x) => x,
                Err(e) => {
                    return Err(e);
                },
            };
            match lookup(fs, "items") {
                Option::None => Err(
                    DecodeDetail { path: disp_of(""), message: msg_missing("items") },
                ),
                Option::Some(JsonValue::Arr(a)) => {
                    let items = copy_record_items(a);
                    Ok(RecordList { page, per_page, total_items, items })
                },
                Option::Some(_) => Err(
                    DecodeDetail {
                        path: "items".to_owned(),
                        message: "expected an array".to_owned(),
                    },
                ),
            }
        },
        _ => Err(DecodeDetail { path: disp_of(""), message: "expected an object".to_owned() }),
    }
}

// ---------------------------------------------------------------------------
// Listing and bulk fetch.
// ---------------------------------------------------------------------------

/// The query a record listing sends, in order: the optional filter,
/// sort and expand, then `perPage` and `page`.
pub open spec fn rec_list_query(
    filter: Option<String>,
    sort: Option<String>,
    expand: Option<String>,
    per_page: i32,
    page: i32,
) -> Seq<(Seq<char>, Seq<char>)> {
    opt_pair("filter"@, filter) + opt_pair("sort"@, sort) + opt_pair("expand"@, expand) + seq![
        ("perPage"@, dec_rep_signed(per_page as int)),
        ("page"@, dec_rep_signed(page as int)),
    ]
}

/// What one listing response classifies to. Only the backend's base
/// URL and the collection's name enter; a builder's page options fix
/// what is requested, not how an answer is read.
pub open spec fn rec_list_call_outcome(
    base: Seq<char>,
    coll: Seq<char>,
    st: u16,
    b: String,
    r: Result<RecordList, ApiError>,
) -> bool {
    if !(200 <= st < 300) {
        r matches Err(ApiError::Http { status, url, body_snippet }) && status == st && url@ == base
            + "/api/collections/"@ + coll + "/records"@ && body_snippet@ == snippet_rep(b@)
    } else {
        match json_parse(b@) {
            Option::Some(v) => match r {
                Ok(rl) => srec_list_err(v) is None && srec_list_ok(v, rl),
                Err(e) => e matches ApiError::Decode { path, message, body_snippet }
                    && srec_list_err(v) matches Some(se) && path@ == se.0 && message@ == se.1
                    && body_snippet@ == snippet_rep(b@),
            },
            Option::None => r matches Err(ApiError::Decode { path, message, body_snippet })
                && path@ == "."@ && body_snippet@ == snippet_rep(b@),
        }
    }
}

impl<'a, A> RecordsListRequestBuilder<'a, A> {
    /// What a finished listing call can be, given the status and body
    /// of the response that came back.
    pub open spec fn call_outcome(&self, st: u16, b: String, r: Result<RecordList, ApiError>)
        -> bool {
        rec_list_call_outcome(self.client.base_url@, self.collection_name@, st, b, r)
    }

    /// The request this builder stands for.
    pub fn request(&self) -> (r: HttpRequest)
        ensures
            r.method == Method::Get,
            r.url@ == self.client.base_url@ + "/api/collections/"@ + self.collection_name@
                + "/records"@,
            pair_views(r.query@) == rec_list_query(
                self.filter,
                self.sort,
                self.expand,
                self.per_page,
                self.page,
            ),
            pair_views(r.headers@) == base_header_views(self.client.auth_token, false),
            r.body is None,
    {
        let url0 = str_concat(self.client.base_url.as_str(), "/api/collections/");
        let url1 = str_concat(url0.as_str(), self.collection_name.as_str());
        let url = str_concat(url1.as_str(), "/records");
        let mut q: Vec<(String, String)> = Vec::new();
        match &self.filter {
            Option::Some(f) => {
                q.push(("filter".to_owned(), f.clone()));
            },
            Option::None => {},
        }
        match &self.sort {
            Option::Some(s) => {
                q.push(("sort".to_owned(), s.clone()));
            },
            Option::None => {},
        }
        match &self.expand {
            Option::Some(x) => {
                q.push(("expand".to_owned(), x.clone()));
            },
            Option::None => {},
        }
        q.push(("perPage".to_owned(), i32_to_string(self.per_page)));
        q.push(("page".to_owned(), i32_to_string(self.page)));
        proof {
            assert(pair_views(q@) =~= rec_list_query(
                self.filter,
                self.sort,
                self.expand,
                self.per_page,
                self.page,
            ));
        }
        Httpc::build_get(self.client, url, Option::Some(q))
    }

    /// Classifies a listing answer: a non-2xx status is an HTTP
    /// failure carrying the URL and a body snippet; a 2xx body is
    /// decoded, and a snippet accompanies any decode failure.
    pub fn classify(status: u16, url: &str, body: &str) -> (r: Result<RecordList, ApiError>)
        ensures
            if !(200 <= status < 300) {
                r matches Err(ApiError::Http { status: st, url: u, body_snippet }) && st == status
                    && u@ == url@ && body_snippet@ == snippet_rep(body@)
            } else {
                match json_parse(body@) {
                    Option::Some(v) => match r {
                        Ok(rl) => srec_list_err(v) is None && srec_list_ok(v, rl),
                        Err(e) => e matches ApiError::Decode { path, message, body_snippet }
                            && srec_list_err(v) matches Some(s) && path@ == s.0 && message@ == s.1
                            && body_snippet@ == snippet_rep(body@),
                    },
                    Option::None => r matches Err(
                        ApiError::Decode { path, message, body_snippet },
                    ) && path@ == "."@ && body_snippet@ == snippet_rep(body@),
                }
            },
    {
        if !(200 <= status && status < 300) {
            return Err(
                ApiError::Http { status, url: url.to_owned(), body_snippet: snippet_of(body) },
            );
        }
        match parse_json_text(body) {
            Ok(v) => match decode_record_list(&v) {
                Ok(rl) => Ok(rl),
                Err(d) => Err(
                    ApiError::Decode {
                        path: d.path,
                        message: d.message,
                        body_snippet: snippet_of(body),
                    },
                ),
            },
            Err(m) => Err(
                ApiError::Decode {
                    path: ".".to_owned(),
                    message: m,
                    body_snippet: snippet_of(body),
                },
            ),
        }
    }

    /// Executes the listing: whatever the transport produced, the
    /// result is that response's classification, or the transport's
    /// own failure.
    pub fn call<T: Transport>(&self, t: &mut T) -> (r: Result<RecordList, ApiError>)
        ensures
            (exists|st: u16, b: String| #[trigger] self.call_outcome(st, b, r)) || r matches Err(
                ApiError::Transport(_),
            ),
    {
        let req = self.request();
        let url = req.url.clone();
        match t.send(&req) {
            Ok(resp) => {
                let r = Self::classify(resp.status, url.as_str(), resp.body.as_str());
                proof {
                    assert(self.call_outcome(resp.status, resp.body, r));
                }
                r
            },
            Err(e) => Err(ApiError::Transport(e)),
        }
    }

    /// Fetches every page of this listing, one thousand records per
    /// page, and concatenates the items in server order. The page
    /// count is fixed by the first page's reported total, so a server
    /// that keeps changing the total cannot prevent termination; a
    /// final count that still disagrees with that total is reported as
    /// a decode failure of `totalItems`. The contract: some sequence
    /// of responses explains the result through
    /// [`rec_get_all_outcome`], and [`lemma_fetch_plan`] turns its
    /// page count into the ceiling law.
    pub fn get_all<T: Transport>(&self, t: &mut T) -> (r: Result<Vec<JsonValue>, ApiError>)
        ensures
            (exists|resps: Seq<(u16, String)>|
                #[trigger] rec_get_all_outcome(
                    self.client.base_url@,
                    self.collection_name@,
                    resps,
                    r,
                )) || r matches Err(ApiError::Transport(_)),
            r matches Ok(items) ==> items@.len() <= i32::MAX,
    {
        let ghost base_v = self.client.base_url@;
        let ghost coll_v = self.collection_name@;
        let ghost mut resps: Seq<(u16, String)> = Seq::empty();
        let ghost mut pages: Seq<RecordList> = Seq::empty();
        let base = self.per_page(1000);
        let pb1 = base.page(1);
        let r1 = pb1.call(t);
        let ghost r1g = r1;
        let first = match r1 {
            Ok(f) => f,
            Err(e) => {
                proof {
                    if !(e matches ApiError::Transport(_)) {
                        let (st, b) = choose|st: u16, b: String| pb1.call_outcome(st, b, r1g);
                        resps = resps.push((st, b));
                        assert(get_all_pages_outcome(
                            base_v,
                            coll_v,
                            resps,
                            pages,
                            Err::<Vec<JsonValue>, ApiError>(e),
                        ));
                        assert(rec_get_all_outcome(
                            base_v,
                            coll_v,
                            resps,
                            Err::<Vec<JsonValue>, ApiError>(e),
                        ));
                    }
                }
                return Err(e);
            },
        };
        let ghost firstg = first;
        proof {
            let (st, b) = choose|st: u16, b: String| pb1.call_outcome(st, b, r1g);
            assert(rec_list_call_outcome(base_v, coll_v, st, b, Ok(firstg)));
            resps = resps.push((st, b));
            pages = pages.push(firstg);
        }
        let total = first.total_items;
        let mut items = first.items;
        let n_pages: i32 = if total <= 0 {
            1
        } else {
            (((total as i64) + 999) / 1000) as i32
        };
        let mut p: i32 = 2;
        proof {
            assert(n_pages == pages_for(total as int, 1000));
            assert(n_pages <= 2147484);
            assert(pages[0] == firstg);
            assert(pages_concat(pages, 1) =~= Seq::<JsonValue>::empty());
            assert(items@ =~= pages_concat(pages, 0));
        }
        while p <= n_pages
            invariant
                2 <= p <= n_pages + 1,
                n_pages <= 2147484,
                base_v == self.client.base_url@,
                coll_v == self.collection_name@,
                base.client == self.client,
                base.collection_name == self.collection_name,
                resps.len() == p - 1,
                pages.len() == p - 1,
                pages[0] == firstg,
                firstg.total_items == total,
                n_pages == pages_for(total as int, 1000),
                items@ == pages_concat(pages, 0),
                forall|i: int|
                    0 <= i < pages.len() ==> #[trigger] rec_list_call_outcome(
                        base_v,
                        coll_v,
                        resps[i].0,
                        resps[i].1,
                        Ok(pages[i]),
                    ),
            decreases n_pages + 1 - p,
        {
            let pbp = base.page(p);
            let rp = pbp.call(t);
            let ghost rpg = rp;
            let mut resp = match rp {
                Ok(x) => x,
                Err(e) => {
                    proof {
                        if !(e matches ApiError::Transport(_)) {
                            let (st, b) = choose|st: u16, b: String|
                                pbp.call_outcome(st, b, rpg);
                            resps = resps.push((st, b));
                            assert(get_all_pages_outcome(
                                base_v,
                                coll_v,
                                resps,
                                pages,
                                Err::<Vec<JsonValue>, ApiError>(e),
                            ));
                            assert(rec_get_all_outcome(
                                base_v,
                                coll_v,
                                resps,
                                Err::<Vec<JsonValue>, ApiError>(e),
                            ));
                        }
                    }
                    return Err(e);
                },
            };
            let ghost respg = resp;
            proof {
                let (st, b) = choose|st: u16, b: String| pbp.call_outcome(st, b, rpg);
                assert(rec_list_call_outcome(base_v, coll_v, st, b, Ok(respg)));
                lemma_pages_concat_push(pages, respg, 0);
                resps = resps.push((st, b));
                pages = pages.push(respg);
            }
            items.append(&mut resp.items);
            p = p + 1;
        }
        if total >= 0 && items.len() == total as usize {
            proof {
                assert(get_all_pages_outcome(
                    base_v,
                    coll_v,
                    resps,
                    pages,
                    Ok::<Vec<JsonValue>, ApiError>(items),
                ));
                assert(rec_get_all_outcome(
                    base_v,
                    coll_v,
                    resps,
                    Ok::<Vec<JsonValue>, ApiError>(items),
                ));
            }
            Ok(items)
        } else {
            let err = ApiError::Decode {
                path: "totalItems".to_owned(),
                message: "reported total does not match the items served".to_owned(),
                body_snippet: "".to_owned(),
            };
            proof {
                assert(get_all_pages_outcome(
                    base_v,
                    coll_v,
                    resps,
                    pages,
                    Err::<Vec<JsonValue>, ApiError>(err),
                ));
                assert(rec_get_all_outcome(
                    base_v,
                    coll_v,
                    resps,
                    Err::<Vec<JsonValue>, ApiError>(err),
                ));
            }
            Err(err)
        }
    }

    /// A new builder with the filter set; every other option, and this
    /// builder, are left as they were.
    pub fn filter(&self, filter_opts: &str) -> (r: Self)
        ensures
            r.client == self.client,
            r.collection_name == self.collection_name,
            r.filter matches Some(f) && f@ == filter_opts@,
            r.sort == self.sort,
            r.expand == self.expand,
            r.page == self.page,
            r.per_page == self.per_page,
    {
        Self {
            client: self.client,
            collection_name: self.collection_name.clone(),
            filter: Option::Some(filter_opts.to_owned()),
            sort: clone_opt(&self.sort),
            expand: clone_opt(&self.expand),
            page: self.page,
            per_page: self.per_page,
        }
    }

    /// A new builder with the sort order set.
    pub fn sort(&self, sort_opts: &str) -> (r: Self)
        ensures
            r.client == self.client,
            r.collection_name == self.collection_name,
            r.filter == self.filter,
            r.sort matches Some(s) && s@ == sort_opts@,
            r.expand == self.expand,
            r.page == self.page,
            r.per_page == self.per_page,
    {
        Self {
            client: self.client,
            collection_name: self.collection_name.clone(),
            filter: clone_opt(&self.filter),
            sort: Option::Some(sort_opts.to_owned()),
            expand: clone_opt(&self.expand),
            page: self.page,
            per_page: self.per_page,
        }
    }

    /// A new builder with the expansion list set.
    pub fn expand(&self, expand_opts: &str) -> (r: Self)
        ensures
            r.client == self.client,
            r.collection_name == self.collection_name,
            r.filter == self.filter,
            r.sort == self.sort,
            r.expand matches Some(x) && x@ == expand_opts@,
            r.page == self.page,
            r.per_page == self.per_page,
    {
        Self {
            client: self.client,
            collection_name: self.collection_name.clone(),
            filter: clone_opt(&self.filter),
            sort: clone_opt(&self.sort),
            expand: Option::Some(expand_opts.to_owned()),
            page: self.page,
            per_page: self.per_page,
        }
    }

    /// A new builder with the page number set.
    pub fn page(&self, page: i32) -> (r: Self)
        ensures
            r.client == self.client,
            r.collection_name == self.collection_name,
            r.filter == self.filter,
            r.sort == self.sort,
            r.expand == self.expand,
            r.page == page,
            r.per_page == self.per_page,
    {
        Self {
            client: self.client,
            collection_name: self.collection_name.clone(),
            filter: clone_opt(&self.filter),
            sort: clone_opt(&self.sort),
            expand: clone_opt(&self.expand),
            page,
            per_page: self.per_page,
        }
    }

    /// A new builder with the page size set.
    pub fn per_page(&self, per_page: i32) -> (r: Self)
        ensures
            r.client == self.client,
            r.collection_name == self.collection_name,
            r.filter == self.filter,
            r.sort == self.sort,
            r.expand == self.expand,
            r.page == self.page,
            r.per_page == per_page,
    {
        Self {
            client: self.client,
            collection_name: self.collection_name.clone(),
            filter: clone_opt(&self.filter),
            sort: clone_opt(&self.sort),
            expand: clone_opt(&self.expand),
            page: self.page,
            per_page,
        }
    }
}

// ---------------------------------------------------------------------------
// The fetch plan and its law.
// ---------------------------------------------------------------------------

/// How many page fetches the bulk fetch issues for a reported total
/// and a page size: one to learn the total, more while pages remain.
pub open spec fn pages_for(total: int, per_page: int) -> int
    recommends
        per_page >= 1,
{
    if total <= 0 {
        1
    } else {
        (total + per_page - 1) / per_page
    }
}

/// What an honest server puts on page `k` (1-based) when `n` items
/// exist and `p` fit a page.
pub open spec fn honest_page_len(n: int, p: int, k: int) -> int {
    if k * p <= n {
        p
    } else if (k - 1) * p < n {
        n - (k - 1) * p
    } else {
        0
    }
}

/// The items served by the first `k` pages together.
pub open spec fn served(n: int, p: int, k: int) -> int
    decreases k,
{
    if k <= 0 {
        0
    } else {
        served(n, p, k - 1) + honest_page_len(n, p, k)
    }
}

/// The first `k` pages of an honest server hold `min(n, k * p)` items.
proof fn lemma_served(n: int, p: int, k: int)
    requires
        1 <= p,
        0 <= k,
    ensures
        served(n, p, k) == if k * p <= n {
            k * p
        } else if n >= 0 {
            n
        } else {
            0
        },
    decreases k,
{
    if k > 0 {
        lemma_served(n, p, k - 1);
        assert(k * p == (k - 1) * p + p) by (nonlinear_arith);
        if k * p <= n {
            assert((k - 1) * p <= n);
            assert(served(n, p, k) == k * p);
        } else if (k - 1) * p < n {
            assert(served(n, p, k - 1) == (k - 1) * p);
            assert(served(n, p, k) == n);
        } else {
            assert((k - 1) * p >= 0) by (nonlinear_arith)
                requires
                    k >= 1,
                    p >= 1,
            ;
            assert(honest_page_len(n, p, k) == 0);
        }
    } else {
        assert(k * p == 0) by (nonlinear_arith)
            requires
                k == 0,
        ;
    }
}

/// The items of the pages from index `i` on, concatenated in order.
pub open spec fn pages_concat(pages: Seq<RecordList>, i: int) -> Seq<JsonValue>
    decreases pages.len() - i,
{
    if i < 0 || i >= pages.len() {
        Seq::empty()
    } else {
        pages[i].items@ + pages_concat(pages, i + 1)
    }
}

proof fn lemma_pages_concat_push(pages: Seq<RecordList>, rl: RecordList, i: int)
    requires
        0 <= i <= pages.len(),
    ensures
        pages_concat(pages.push(rl), i) == pages_concat(pages, i) + rl.items@,
    decreases pages.len() - i,
{
    let pp = pages.push(rl);
    if i >= pages.len() {
        assert(pp[i] == rl);
        assert(pages_concat(pp, i + 1) =~= Seq::<JsonValue>::empty());
        assert(pages_concat(pp, i) =~= pages_concat(pages, i) + rl.items@);
    } else {
        lemma_pages_concat_push(pages, rl, i + 1);
        assert(pp[i] == pages[i]);
        assert(pages_concat(pp, i) =~= pages_concat(pages, i) + rl.items@);
    }
}

/// How one bulk fetch went, as a whole: the responses consumed, the
/// pages they classified to, and the result they force. Every
/// consumed response but possibly the last classifies to a page; the
/// first page's reported total fixes how many pages are fetched; on
/// success the result is the pages' items concatenated in fetch
/// order, owed exactly when that count meets the reported total; the
/// first response that does not classify is returned as the failure,
/// with the items gathered so far discarded.
pub open spec fn get_all_pages_outcome(
    base: Seq<char>,
    coll: Seq<char>,
    resps: Seq<(u16, String)>,
    pages: Seq<RecordList>,
    r: Result<Vec<JsonValue>, ApiError>,
) -> bool {
    &&& resps.len() >= 1
    &&& forall|i: int|
        0 <= i < pages.len() ==> #[trigger] rec_list_call_outcome(
            base,
            coll,
            resps[i].0,
            resps[i].1,
            Ok(pages[i]),
        )
    &&& if pages.len() == resps.len() {
        &&& pages.len() == pages_for(pages[0].total_items as int, 1000)
        &&& {
            let total = pages[0].total_items;
            let cat = pages_concat(pages, 0);
            if total >= 0 && cat.len() == total as int {
                r matches Ok(v) && v@ == cat
            } else {
                r matches Err(ApiError::Decode { path, message, body_snippet }) && path@
                    == "totalItems"@ && message@
                    == "reported total does not match the items served"@ && body_snippet@ == ""@
            }
        }
    } else {
        &&& pages.len() == resps.len() - 1
        &&& (pages.len() == 0 || pages.len() < pages_for(pages[0].total_items as int, 1000))
        &&& match r {
            Ok(_) => false,
            Err(e) => rec_list_call_outcome(
                base,
                coll,
                resps[resps.len() - 1].0,
                resps[resps.len() - 1].1,
                Err(e),
            ),
        }
    }
}

/// Some sequence of classified pages explains the consumed responses
/// and the result.
pub open spec fn rec_get_all_outcome(
    base: Seq<char>,
    coll: Seq<char>,
    resps: Seq<(u16, String)>,
    r: Result<Vec<JsonValue>, ApiError>,
) -> bool {
    exists|pages: Seq<RecordList>| #[trigger] get_all_pages_outcome(base, coll, resps, pages, r)
}

/// The fetch-plan law: for a reported total of `n` items served `p`
/// per page, the engine issues `ceil(n / p)` page fetches, the last
/// page is the only short one, and the pages hold exactly `n` items
/// altogether.
pub proof fn lemma_fetch_plan(n: int, p: int)
    requires
        1 <= n,
        1 <= p,
    ensures
        pages_for(n, p) == (n + p - 1) / p,
        p * (pages_for(n, p) - 1) < n <= p * pages_for(n, p),
        served(n, p, pages_for(n, p)) == n,
{
    let q = (n + p - 1) / p;
    lemma_fundamental_div_mod(n + p - 1, p);
    let r = (n + p - 1) % p;
    assert(n + p - 1 == p * q + r);
    assert(0 <= r < p);
    assert(p * q == n + p - 1 - r);
    assert(n <= p * q);
    assert(p * (q - 1) == p * q - p) by (nonlinear_arith);
    assert(p * (q - 1) < n);
    lemma_served(n, p, q);
    assert(q * p == p * q) by (nonlinear_arith);
    if q * p <= n {
        assert(n == q * p);
        assert(served(n, p, q) == n);
    } else {
        assert(served(n, p, q) == n);
    }
}

// ---------------------------------------------------------------------------
// View, destroy, create, update.
// ---------------------------------------------------------------------------

impl<'a, A> RecordViewRequestBuilder<'a, A> {
    /// The URL this view addresses.
    pub open spec fn url_view(&self) -> Seq<char> {
        self.client.base_url@ + "/api/collections/"@ + self.collection_name@ + "/records/"@
            + self.identifier@
    }

    /// What a finished view call can be, given the status and body of
    /// the response that came back.
    pub open spec fn call_outcome(&self, st: u16, b: String, r: Result<
        JsonValue,
        RecordViewError,
    >) -> bool {
        if st == 404 {
            r matches Err(RecordViewError::NotFound { collection, identifier, body_snippet })
                && collection@ == self.collection_name@ && identifier@ == self.identifier@
                && body_snippet@ == snippet_rep(b@)
        } else if !(200 <= st < 300) {
            r matches Err(RecordViewError::Http { status, url, body_snippet }) && status == st
                && url@ == self.url_view() && body_snippet@ == snippet_rep(b@)
        } else {
            match json_parse(b@) {
                Option::Some(v) => r matches Ok(rv) && rv == v,
                Option::None => r matches Err(
                    RecordViewError::Decode { path, source, body_snippet },
                ) && path@ == "."@ && body_snippet@ == snippet_rep(b@),
            }
        }
    }

    /// The request this builder stands for.
    pub fn request(&self) -> (r: HttpRequest)
        ensures
            r.method == Method::Get,
            r.url@ == self.client.base_url@ + "/api/collections/"@ + self.collection_name@
                + "/records/"@ + self.identifier@,
            r.query@.len() == 0,
            pair_views(r.headers@) == base_header_views(self.client.auth_token, false),
            r.body is None,
    {
        let url0 = str_concat(self.client.base_url.as_str(), "/api/collections/");
        let url1 = str_concat(url0.as_str(), self.collection_name.as_str());
        let url2 = str_concat(url1.as_str(), "/records/");
        let url = str_concat(url2.as_str(), self.identifier.as_str());
        Httpc::build_get(self.client, url, Option::None)
    }

    /// Classifies a single-record answer: 404 names the collection
    /// and identifier; any other non-2xx is an HTTP failure; a 2xx
    /// body must parse as JSON, and comes back whole.
    pub fn classify(&self, status: u16, url: &str, body: &str) -> (r: Result<
        JsonValue,
        RecordViewError,
    >)
        ensures
            if status == 404 {
                r matches Err(RecordViewError::NotFound { collection, identifier, body_snippet })
                    && collection@ == self.collection_name@ && identifier@ == self.identifier@
                    && body_snippet@ == snippet_rep(body@)
            } else if !(200 <= status < 300) {
                r matches Err(RecordViewError::Http { status: st, url: u, body_snippet }) && st
                    == status && u@ == url@ && body_snippet@ == snippet_rep(body@)
            } else {
                match json_parse(body@) {
                    Option::Some(v) => r matches Ok(rv) && rv == v,
                    Option::None => r matches Err(
                        RecordViewError::Decode { path, source, body_snippet },
                    ) && path@ == "."@ && body_snippet@ == snippet_rep(body@),
                }
            },
    {
        if status == 404 {
            return Err(
                RecordViewError::NotFound {
                    collection: self.collection_name.clone(),
                    identifier: self.identifier.clone(),
                    body_snippet: snippet_of(body),
                },
            );
        }
        if !(200 <= status && status < 300) {
            return Err(
                RecordViewError::Http {
                    status,
                    url: url.to_owned(),
                    body_snippet: snippet_of(body),
                },
            );
        }
        match parse_json_text(body) {
            Ok(v) => Ok(v),
            Err(m) => Err(
                RecordViewError::Decode {
                    path: ".".to_owned(),
                    source: m,
                    body_snippet: snippet_of(body),
                },
            ),
        }
    }

    /// Fetches the record: whatever the transport produced, the
    /// result is that response's classification, or the transport's
    /// own failure.
    pub fn call<T: Transport>(&self, t: &mut T) -> (r: Result<JsonValue, RecordViewError>)
        ensures
            (exists|st: u16, b: String| #[trigger] self.call_outcome(st, b, r)) || r matches Err(
                RecordViewError::Transport(_),
            ),
    {
        let req = self.request();
        let url = req.url.clone();
        match t.send(&req) {
            Ok(resp) => {
                let r = self.classify(resp.status, url.as_str(), resp.body.as_str());
                proof {
                    assert(self.call_outcome(resp.status, resp.body, r));
                }
                r
            },
            Err(e) => Err(RecordViewError::Transport(e)),
        }
    }
}

impl<'a, A> RecordDestroyRequestBuilder<'a, A> {
    /// The URL this deletion addresses.
    pub open spec fn url_view(&self) -> Seq<char> {
        self.client.base_url@ + "/api/collections/"@ + self.collection_name@ + "/records/"@
            + self.identifier@
    }

    /// What a finished deletion call can be, given the status and
    /// body of the response that came back.
    pub open spec fn call_outcome(&self, st: u16, b: String, r: Result<(), ApiError>) -> bool {
        &&& st == 204 <==> r is Ok
        &&& st != 204 ==> (r matches Err(ApiError::Http { status, url, body_snippet }) && status
            == st && url@ == self.url_view() && body_snippet@ == snippet_rep(b@))
    }

    /// The request this builder stands for.
    pub fn request(&self) -> (r: HttpRequest)
        ensures
            r.method == Method::Delete,
            r.url@ == self.client.base_url@ + "/api/collections/"@ + self.collection_name@
                + "/records/"@ + self.identifier@,
            r.query@.len() == 0,
            pair_views(r.headers@) == base_header_views(self.client.auth_token, false),
            r.body is None,
    {
        let url0 = str_concat(self.client.base_url.as_str(), "/api/collections/");
        let url1 = str_concat(url0.as_str(), self.collection_name.as_str());
        let url2 = str_concat(url1.as_str(), "/records/");
        let url = str_concat(url2.as_str(), self.identifier.as_str());
        Httpc::build_delete(self.client, url)
    }

    /// Classifies a deletion answer: success is exactly status 204;
    /// every other status, even another 2xx, is a failure.
    pub fn classify(status: u16, url: &str, body: &str) -> (r: Result<(), ApiError>)
        ensures
            status == 204 <==> r is Ok,
            status != 204 ==> (r matches Err(ApiError::Http { status: st, url: u, body_snippet })
                && st == status && u@ == url@ && body_snippet@ == snippet_rep(body@)),
    {
        if status == 204 {
            Ok(())
        } else {
            Err(ApiError::Http { status, url: url.to_owned(), body_snippet: snippet_of(body) })
        }
    }

    /// Deletes the record: success exactly when the transport brought
    /// back a 204, any other response an HTTP failure, and never a
    /// decode failure, as no body is read.
    pub fn call<T: Transport>(&self, t: &mut T) -> (r: Result<(), ApiError>)
        ensures
            (exists|st: u16, b: String| #[trigger] self.call_outcome(st, b, r)) || r matches Err(
                ApiError::Transport(_),
            ),
            !(r matches Err(ApiError::Decode { .. })),
    {
        let req = self.request();
        let url = req.url.clone();
        match t.send(&req) {
            Ok(resp) => {
                let r = Self::classify(resp.status, url.as_str(), resp.body.as_str());
                proof {
                    assert(self.call_outcome(resp.status, resp.body, r));
                }
                r
            },
            Err(e) => Err(ApiError::Transport(e)),
        }
    }
}

impl<'a, A> RecordCreateRequestBuilder<'a, A> {
    /// What a finished creation call can be, given the status and
    /// body of the response that came back.
    pub open spec fn call_outcome(&self, st: u16, b: String, r: Result<CreateResponse, ApiError>)
        -> bool {
        if !(200 <= st < 300) {
            r matches Err(ApiError::Http { status, url, body_snippet }) && status == st && url@
                == self.client.base_url@ + "/api/collections/"@ + self.collection_name@
                + "/records"@ && body_snippet@ == snippet_rep(b@)
        } else { match json_parse(b@) {
            Option::Some(v) => match r {
                Ok(cr) => sdec_create(v) matches Ok(c) && c == cr,
                Err(e) => e matches ApiError::Decode { path, message, body_snippet }
                    && sdec_create(v) matches Err(se) && path@ == se.0 && message@ == se.1
                    && body_snippet@ == snippet_rep(b@),
            },
            Option::None => r matches Err(ApiError::Decode { path, message, body_snippet })
                && path@ == "."@ && body_snippet@ == snippet_rep(b@),
        } }
    }

    /// The request this builder stands for: the record, serialized,
    /// as the body.
    pub fn request(&self) -> (r: HttpRequest)
        ensures
            r.method == Method::Post,
            r.url@ == self.client.base_url@ + "/api/collections/"@ + self.collection_name@
                + "/records"@,
            r.query@.len() == 0,
            pair_views(r.headers@) == base_header_views(self.client.auth_token, true),
            r.body matches Some(b) && b@ == json_text(self.record),
    {
        let url0 = str_concat(self.client.base_url.as_str(), "/api/collections/");
        let url1 = str_concat(url0.as_str(), self.collection_name.as_str());
        let url = str_concat(url1.as_str(), "/records");
        let payload = to_json_text(&self.record);
        Httpc::build_post(self.client, url, payload)
    }

    /// Classifies a creation answer: a non-2xx status is an HTTP
    /// failure; a 2xx body is decoded as the acknowledgment.
    pub fn classify(status: u16, url: &str, body: &str) -> (r: Result<CreateResponse, ApiError>)
        ensures
            if !(200 <= status < 300) {
                r matches Err(ApiError::Http { status: st, url: u, body_snippet }) && st == status
                    && u@ == url@ && body_snippet@ == snippet_rep(body@)
            } else { match json_parse(body@) {
                Option::Some(v) => match r {
                    Ok(cr) => sdec_create(v) matches Ok(c) && c == cr,
                    Err(e) => e matches ApiError::Decode { path, message, body_snippet }
                        && sdec_create(v) matches Err(s) && path@ == s.0 && message@ == s.1
                        && body_snippet@ == snippet_rep(body@),
                },
                Option::None => r matches Err(ApiError::Decode { path, message, body_snippet })
                    && path@ == "."@ && body_snippet@ == snippet_rep(body@),
            } },
    {
        if !(200 <= status && status < 300) {
            return Err(
                ApiError::Http { status, url: url.to_owned(), body_snippet: snippet_of(body) },
            );
        }
        match parse_json_text(body) {
            Ok(v) => match decode_create(&v) {
                Ok(cr) => Ok(cr),
                Err(d) => Err(
                    ApiError::Decode {
                        path: d.path,
                        message: d.message,
                        body_snippet: snippet_of(body),
                    },
                ),
            },
            Err(m) => Err(
                ApiError::Decode {
                    path: ".".to_owned(),
                    message: m,
                    body_snippet: snippet_of(body),
                },
            ),
        }
    }

    /// Creates the record: whatever the transport produced, the
    /// result is that response's classification, or the transport's
    /// own failure.
    pub fn call<T: Transport>(&self, t: &mut T) -> (r: Result<CreateResponse, ApiError>)
        ensures
            (exists|st: u16, b: String| #[trigger] self.call_outcome(st, b, r)) || r matches Err(
                ApiError::Transport(_),
            ),
    {
        let req = self.request();
        let url = req.url.clone();
        match t.send(&req) {
            Ok(resp) => {
                let r = Self::classify(resp.status, url.as_str(), resp.body.as_str());
                proof {
                    assert(self.call_outcome(resp.status, resp.body, r));
                }
                r
            },
            Err(e) => Err(ApiError::Transport(e)),
        }
    }
}

impl<'a, A> RecordUpdateRequestBuilder<'a, A> {
    /// The request this builder stands for: the record, serialized,
    /// as the body of a PATCH.
    pub fn request(&self) -> (r: HttpRequest)
        ensures
            r.method == Method::Patch,
            r.url@ == self.client.base_url@ + "/api/collections/"@ + self.collection_name@
                + "/records/"@ + self.id@,
            r.query@.len() == 0,
            pair_views(r.headers@) == base_header_views(self.client.auth_token, true),
            r.body matches Some(b) && b@ == json_text(self.record),
    {
        let url0 = str_concat(self.client.base_url.as_str(), "/api/collections/");
        let url1 = str_concat(url0.as_str(), self.collection_name.as_str());
        let url2 = str_concat(url1.as_str(), "/records/");
        let url = str_concat(url2.as_str(), self.id.as_str());
        let payload = to_json_text(&self.record);
        Httpc::build_patch(self.client, url, payload)
    }

    /// What a finished update call can be, given the status and body
    /// of the response that came back: the acknowledgment must read,
    /// and the caller's own record comes back.
    pub open spec fn call_outcome(&self, st: u16, b: String, r: Result<JsonValue, ApiError>)
        -> bool {
        if !(200 <= st < 300) {
            r matches Err(ApiError::Http { status, url, body_snippet }) && status == st && url@
                == self.client.base_url@ + "/api/collections/"@ + self.collection_name@
                + "/records/"@ + self.id@ && body_snippet@ == snippet_rep(b@)
        } else {
            match json_parse(b@) {
                Option::Some(v) => match r {
                    Ok(rec) => sdec_create(v) is Ok && jeq(rec, self.record),
                    Err(e) => e matches ApiError::Decode { path, message, body_snippet }
                        && sdec_create(v) matches Err(se) && path@ == se.0 && message@ == se.1
                        && body_snippet@ == snippet_rep(b@),
                },
                Option::None => r matches Err(ApiError::Decode { path, message, body_snippet })
                    && path@ == "."@ && body_snippet@ == snippet_rep(b@),
            }
        }
    }

    /// Updates the record. The server's echoed body is checked as an
    /// acknowledgment and then deliberately discarded: on success the
    /// caller gets its own record back, unchanged.
    pub fn call<T: Transport>(&self, t: &mut T) -> (r: Result<JsonValue, ApiError>)
        ensures
            r matches Ok(rec) ==> jeq(rec, self.record),
            (exists|st: u16, b: String| #[trigger] self.call_outcome(st, b, r)) || r matches Err(
                ApiError::Transport(_),
            ),
    {
        let req = self.request();
        let url = req.url.clone();
        match t.send(&req) {
            Ok(resp) => {
                let r = match RecordCreateRequestBuilder::<'a, A>::classify(
                    resp.status,
                    url.as_str(),
                    resp.body.as_str(),
                ) {
                    Ok(_) => Ok(self.record.deep_copy()),
                    Err(e) => Err(e),
                };
                proof {
                    assert(self.call_outcome(resp.status, resp.body, r));
                }
                r
            },
            Err(e) => Err(ApiError::Transport(e)),
        }
    }
}

impl<'a, A> RecordsManager<'a, A> {
    /// A view builder for one record.
    pub fn view(&self, identifier: &str) -> (r: RecordViewRequestBuilder<'a, A>)
        ensures
            r.client == self.client,
            r.collection_name == self.name,
            r.identifier@ == identifier@,
    {
        RecordViewRequestBuilder {
            identifier: identifier.to_owned(),
            client: self.client,
            collection_name: self.name.clone(),
        }
    }

    /// A deletion builder for one record.
    pub fn destroy(&self, identifier: &str) -> (r: RecordDestroyRequestBuilder<'a, A>)
        ensures
            r.client == self.client,
            r.collection_name == self.name,
            r.identifier@ == identifier@,
    {
        RecordDestroyRequestBuilder {
            identifier: identifier.to_owned(),
            client: self.client,
            collection_name: self.name.clone(),
        }
    }

    /// An update builder for one record, carrying the caller's
    /// document.
    pub fn update(&self, identifier: &str, record: JsonValue) -> (r: RecordUpdateRequestBuilder<
        'a,
        A,
    >)
        ensures
            r.client == self.client,
            r.collection_name == self.name,
            r.id@ == identifier@,
            r.record == record,
    {
        RecordUpdateRequestBuilder {
            client: self.client,
            collection_name: self.name.clone(),
            id: identifier.to_owned(),
            record,
        }
    }

    /// A creation builder carrying the caller's document.
    pub fn create(&self, record: JsonValue) -> (r: RecordCreateRequestBuilder<'a, A>)
        ensures
            r.client == self.client,
            r.collection_name == self.name,
            r.record == record,
    {
        RecordCreateRequestBuilder {
            record,
            client: self.client,
            collection_name: self.name.clone(),
        }
    }

    /// A listing builder with the documented defaults: page 1, one
    /// hundred items per page, no filter, sort or expansion.
    pub fn list(&self) -> (r: RecordsListRequestBuilder<'a, A>)
        ensures
            r.client == self.client,
            r.collection_name == self.name,
            r.filter is None,
            r.sort is None,
            r.expand is None,
            r.page == 1,
            r.per_page == 100,
    {
        RecordsListRequestBuilder {
            client: self.client,
            collection_name: self.name.clone(),
            filter: Option::None,
            sort: Option::None,
            expand: Option::None,
            page: 1,
            per_page: 100,
        }
    }

    /// Fetches every record of the collection; see
    /// [`RecordsListRequestBuilder::get_all`].
    pub fn get_all<T: Transport>(&self, t: &mut T) -> (r: Result<Vec<JsonValue>, ApiError>)
        ensures
            (exists|resps: Seq<(u16, String)>|
                #[trigger] rec_get_all_outcome(self.client.base_url@, self.name@, resps, r)) || r
                matches Err(ApiError::Transport(_)),
            r matches Ok(items) ==> items@.len() <= i32::MAX,
    {
        let b = self.list();
        let r = b.get_all(t);
        proof {
            if !(r matches Err(ApiError::Transport(_))) {
                let w = choose|resps: Seq<(u16, String)>|
                    rec_get_all_outcome(b.client.base_url@, b.collection_name@, resps, r);
                assert(rec_get_all_outcome(self.client.base_url@, self.name@, w, r));
            }
        }
        r
    }
}

} // verus!
