//! The collection resource family: its wire shapes, request builders,
//! and the decoding of collection listings and single collections.

use vstd::prelude::*;
use vstd::string::*;
use crate::client::Client;
use crate::error::ApiError;
use crate::httpc::{
    Httpc, Transport, HttpRequest, Method, pair_views, base_header_views, opt_pair,
};
use crate::json::{
    JsonValue, json_parse, parse_json_text, sfield_str, sfield_i32, sfield_bool, sfield_datetime,
    obj_get, path_disp, path_child, path_index, dec_matches, DecodeDetail, field_str, field_i32,
    field_bool, field_datetime, lookup, disp_of, child_of, index_of, smsg_missing, msg_missing,
};
use crate::strutil::{
    str_concat, snippet_rep, snippet_of, dec_rep_signed, i32_to_string, lemma_empty_str_view,
    clone_opt,
};

verus! {

/// One field of a collection's schema.
#[derive(Debug, Clone, PartialEq)]
pub struct Field {
    pub system: bool,
    pub id: String,
    pub name: String,
    pub kind: String,
    pub required: bool,
    pub unique: bool,
}

/// A field of a collection that is being declared.
#[derive(Debug, Clone, PartialEq)]
pub struct FieldDeclaration {
    pub name: String,
    pub kind: String,
    pub required: bool,
}

/// The body of a collection-creation request.
#[derive(Debug, Clone, PartialEq)]
pub struct CollectionDetails {
    pub id: Option<String>,
    pub name: Option<String>,
    pub kind: Option<String>,
    pub schema: Vec<FieldDeclaration>,
    pub system: bool,
    pub list_rule: Option<String>,
    pub view_rule: Option<String>,
    pub create_rule: Option<String>,
    pub update_rule: Option<String>,
    pub delete_rule: Option<String>,
    pub indexes: Vec<String>,
}

/// One collection: identity, timestamps, and its schema.
#[derive(Debug, Clone, PartialEq)]
pub struct Collection {
    pub id: String,
    pub created: String,
    pub kind: String,
    pub updated: String,
    pub name: String,
    pub schema: Vec<Field>,
}

/// One page of collections.
#[derive(Debug, Clone, PartialEq)]
pub struct CollectionList {
    pub page: i32,
    pub per_page: i32,
    pub total_items: i32,
    pub items: Vec<Collection>,
}

// ---------------------------------------------------------------------------
// Decoding.
// ---------------------------------------------------------------------------

/// One schema field: `{system, id, name, type, required, unique}`.
pub open spec fn sdec_field(v: JsonValue, p: Seq<char>) -> Result<Field, (Seq<char>, Seq<char>)> {
    match v {
        JsonValue::Obj(fs) => match sfield_bool(fs@, "system"@, p) {
            Err(e) => Err(e),
            Ok(system) => match sfield_str(fs@, "id"@, p) {
                Err(e) => Err(e),
                Ok(id) => match sfield_str(fs@, "name"@, p) {
                    Err(e) => Err(e),
                    Ok(name) => match sfield_str(fs@, "type"@, p) {
                        Err(e) => Err(e),
                        Ok(kind) => match sfield_bool(fs@, "required"@, p) {
                            Err(e) => Err(e),
                            Ok(required) => match sfield_bool(fs@, "unique"@, p) {
                                Err(e) => Err(e),
                                Ok(unique) => Ok(
                                    Field { system, id, name, kind, required, unique },
                                ),
                            },
                        },
                    },
                },
            },
        },
        _ => Err((path_disp(p), "expected an object"@)),
    }
}

pub fn decode_field(v: &JsonValue, p: &str) -> (r: Result<Field, DecodeDetail>)
    ensures
        dec_matches(r, sdec_field(*v, p@)),
{
    match v {
        JsonValue::Obj(fs) => {
            let system = match field_bool(fs, "system", p) {
                Ok(x) => x,
                Err(e) => {
                    return Err(e);
                },
            };
            let id = match field_str(fs, "id", p) {
                Ok(x) => x,
                Err(e) => {
                    return Err(e);
                },
            };
            let name = match field_str(fs, "name", p) {
                Ok(x) => x,
                Err(e) => {
                    return Err(e);
                },
            };
            let kind = match field_str(fs, "type", p) {
                Ok(x) => x,
                Err(e) => {
                    return Err(e);
                },
            };
            let required = match field_bool(fs, "required", p) {
                Ok(x) => x,
                Err(e) => {
                    return Err(e);
                },
            };
            let unique = match field_bool(fs, "unique", p) {
                Ok(x) => x,
                Err(e) => {
                    return Err(e);
                },
            };
            Ok(Field { system, id, name, kind, required, unique })
        },
        _ => Err(DecodeDetail { path: disp_of(p), message: "expected an object".to_owned() }),
    }
}

/// The fields of a schema array, in order.
pub open spec fn sdec_schema(a: Seq<JsonValue>, p: Seq<char>, i: int) -> Result<
    Seq<Field>,
    (Seq<char>, Seq<char>),
>
    decreases a.len() - i,
{
    if i < 0 || i >= a.len() {
        Ok(Seq::empty())
    } else {
        match sdec_field(a[i], path_index(p, i as nat)) {
            Err(e) => Err(e),
            Ok(f) => match sdec_schema(a, p, i + 1) {
                Err(e) => Err(e),
                Ok(rest) => Ok(seq![f] + rest),
            },
        }
    }
}

pub fn decode_schema(a: &Vec<JsonValue>, p: &str, i: usize) -> (r: Result<Vec<Field>, DecodeDetail>)
    requires
        i <= a@.len(),
    ensures
        match r {
            Ok(d) => sdec_schema(a@, p@, i as int) matches Ok(s) && s == d@,
            Err(e) => sdec_schema(a@, p@, i as int) matches Err(s) && e.path@ == s.0 && e.message@
                == s.1,
        },
    decreases a@.len() - i,
{
    if i == a.len() {
        let r: Vec<Field> = Vec::new();
        proof {
            assert(r@ =~= Seq::<Field>::empty());
        }
        Ok(r)
    } else {
        let child = index_of(p, i);
        let f = match decode_field(&a[i], child.as_str()) {
            Ok(f) => f,
            Err(e) => {
                return Err(e);
            },
        };
        let mut rest = match decode_schema(a, p, i + 1) {
            Ok(rest) => rest,
            Err(e) => {
                return Err(e);
            },
        };
        rest.insert(0, f);
        proof {
            let s = sdec_schema(a@, p@, i as int);
            assert(s is Ok);
            assert(rest@ =~= s->Ok_0);
        }
        Ok(rest)
    }
}

/// One collection: `{id, created, type, updated, name, schema}`. The
/// timestamps must be RFC 3339 date-times.
pub open spec fn sdec_collection(v: JsonValue, p: Seq<char>) -> Result<
    (String, String, String, String, String, Seq<Field>),
    (Seq<char>, Seq<char>),
> {
    match v {
        JsonValue::Obj(fs) => match sfield_str(fs@, "id"@, p) {
            Err(e) => Err(e),
            Ok(id) => match sfield_datetime(fs@, "created"@, p) {
                Err(e) => Err(e),
                Ok(created) => match sfield_str(fs@, "type"@, p) {
                    Err(e) => Err(e),
                    Ok(kind) => match sfield_datetime(fs@, "updated"@, p) {
                        Err(e) => Err(e),
                        Ok(updated) => match sfield_str(fs@, "name"@, p) {
                            Err(e) => Err(e),
                            Ok(name) => match obj_get(fs@, "schema"@) {
                                Option::None => Err((path_disp(p), smsg_missing("schema"@))),
                                Option::Some(JsonValue::Arr(a)) => match sdec_schema(
                                    a@,
                                    path_child(p, "schema"@),
                                    0,
                                ) {
                                    Err(e) => Err(e),
                                    Ok(schema) => Ok((id, created, kind, updated, name, schema)),
                                },
                                Option::Some(_) => Err(
                                    (path_child(p, "schema"@), "expected an array"@),
                                ),
                            },
                        },
                    },
                },
            },
        },
        _ => Err((path_disp(p), "expected an object"@)),
    }
}

pub fn decode_collection(v: &JsonValue, p: &str) -> (r: Result<Collection, DecodeDetail>)
    ensures
        match r {
            Ok(c) => sdec_collection(*v, p@) matches Ok(t) && t == (
                c.id,
                c.created,
                c.kind,
                c.updated,
                c.name,
                c.schema@,
            ),
            Err(e) => sdec_collection(*v, p@) matches Err(s) && e.path@ == s.0 && e.message@
                == s.1,
        },
{
    match v {
        JsonValue::Obj(fs) => {
            let id = match field_str(fs, "id", p) {
                Ok(x) => x,
                Err(e) => {
                    return Err(e);
                },
            };
            let created = match field_datetime(fs, "created", p) {
                Ok(x) => x,
                Err(e) => {
                    return Err(e);
                },
            };
            let kind = match field_str(fs, "type", p) {
                Ok(x) => x,
                Err(e) => {
                    return Err(e);
                },
            };
            let updated = match field_datetime(fs, "updated", p) {
                Ok(x) => x,
                Err(e) => {
                    return Err(e);
                },
            };
            let name = match field_str(fs, "name", p) {
                Ok(x) => x,
                Err(e) => {
                    return Err(e);
                },
            };
            match lookup(fs, "schema") {
                Option::None => Err(
                    DecodeDetail { path: disp_of(p), message: msg_missing("schema") },
                ),
                Option::Some(JsonValue::Arr(a)) => {
                    let child = child_of(p, "schema");
                    match decode_schema(a, child.as_str(), 0) {
                        Ok(schema) => Ok(Collection { id, created, kind, updated, name, schema }),
                        Err(e) => Err(e),
                    }
                },
                Option::Some(_) => Err(
                    DecodeDetail {
                        path: child_of(p, "schema"),
                        message: "expected an array".to_owned(),
                    },
                ),
            }
        },
        _ => Err(DecodeDetail { path: disp_of(p), message: "expected an object".to_owned() }),
    }
}

/// The first failure among a listing's items, if any.
pub open spec fn scol_items_err(a: Seq<JsonValue>, p: Seq<char>, i: int) -> Option<
    (Seq<char>, Seq<char>),
>
    decreases a.len() - i,
{
    if i < 0 || i >= a.len() {
        Option::None
    } else {
        match sdec_collection(a[i], path_index(p, i as nat)) {
            Err(e) => Option::Some(e),
            Ok(_) => scol_items_err(a, p, i + 1),
        }
    }
}

/// One decoded collection agrees with its document value.
pub open spec fn col_item_matches(v: JsonValue, pth: Seq<char>, c: Collection) -> bool {
    sdec_collection(v, pth) matches Ok(t) && t == (
        c.id,
        c.created,
        c.kind,
        c.updated,
        c.name,
        c.schema@,
    )
}

/// The decoded items agree with the document, element by element.
pub open spec fn scol_items_ok(a: Seq<JsonValue>, p: Seq<char>, items: Seq<Collection>) -> bool {
    &&& items.len() == a.len()
    &&& forall|j: int|
        0 <= j < a.len() ==> #[trigger] col_item_matches(a[j], path_index(p, j as nat), items[j])
}

#[verifier::rlimit(50)]
pub fn decode_collection_items(a: &Vec<JsonValue>, p: &str) -> (r: Result<
    Vec<Collection>,
    DecodeDetail,
>)
    ensures
        match r {
            Ok(items) => scol_items_err(a@, p@, 0) is None && scol_items_ok(a@, p@, items@),
            Err(e) => scol_items_err(a@, p@, 0) matches Some(s) && e.path@ == s.0 && e.message@
                == s.1,
        },
{
    let mut items: Vec<Collection> = Vec::new();
    let mut i: usize = 0;
    while i < a.len()
        invariant
            i <= a@.len(),
            items@.len() == i,
            forall|j: int|
                0 <= j < i ==> #[trigger] col_item_matches(a@[j], path_index(p@, j as nat),
                items@[j]),
            scol_items_err(a@, p@, 0) == scol_items_err(a@, p@, i as int),
        decreases a@.len() - i,
    {
        let child = index_of(p, i);
        match decode_collection(&a[i], child.as_str()) {
            Ok(c) => {
                let ghost items0 = items@;
                items.push(c);
                proof {
                    assert(items@ == items0.push(c));
                    assert(items@[i as int] == c);
                    assert(col_item_matches(a@[i as int], path_index(p@, i as nat), c));
                    assert forall|j: int| 0 <= j < i implies #[trigger] col_item_matches(
                        a@[j],
                        path_index(p@, j as nat),
                        items@[j],
                    ) by {
                        assert(items@[j] == items0[j]);
                    }
                }
            },
            Err(e) => {
                return Err(e);
            },
        }
        i = i + 1;
    }
    proof {
        assert(scol_items_err(a@, p@, i as int) is None);
    }
    Ok(items)
}

/// A whole listing page: `{page, perPage, totalItems, items}`. The
/// first failure, if any.
pub open spec fn scol_list_err(v: JsonValue) -> Option<(Seq<char>, Seq<char>)> {
    match v {
        JsonValue::Obj(fs) => match sfield_i32(fs@, "page"@, Seq::empty()) {
            Err(e) => Option::Some(e),
            Ok(_) => match sfield_i32(fs@, "perPage"@, Seq::empty()) {
                Err(e) => Option::Some(e),
                Ok(_) => match sfield_i32(fs@, "totalItems"@, Seq::empty()) {
                    Err(e) => Option::Some(e),
                    Ok(_) => match obj_get(fs@, "items"@) {
                        Option::None => Option::Some(
                            (path_disp(Seq::empty()), smsg_missing("items"@)),
                        ),
                        Option::Some(JsonValue::Arr(a)) => scol_items_err(a@, "items"@, 0),
                        Option::Some(_) => Option::Some(("items"@, "expected an array"@)),
                    },
                },
            },
        },
        _ => Option::Some((path_disp(Seq::empty()), "expected an object"@)),
    }
}

/// What a decoded listing page holds when nothing failed.
pub open spec fn scol_list_ok(v: JsonValue, r: CollectionList) -> bool {
    &&& v matches JsonValue::Obj(fs)
    &&& sfield_i32(v->Obj_0@, "page"@, Seq::empty()) matches Ok(x) && x == r.page
    &&& sfield_i32(v->Obj_0@, "perPage"@, Seq::empty()) matches Ok(x) && x == r.per_page
    &&& sfield_i32(v->Obj_0@, "totalItems"@, Seq::empty()) matches Ok(x) && x == r.total_items
    &&& obj_get(v->Obj_0@, "items"@) matches Some(it) && it matches JsonValue::Arr(a)
        && scol_items_ok(a@, "items"@, r.items@)
}

pub fn decode_collection_list(v: &JsonValue) -> (r: Result<CollectionList, DecodeDetail>)
    ensures
        match r {
            Ok(cl) => scol_list_err(*v) is None && scol_list_ok(*v, cl),
            Err(e) => scol_list_err(*v) matches Some(s) && e.path@ == s.0 && e.message@ == s.1,
        },
{
    proof {
        lemma_empty_str_view();
    }
    match v {
        JsonValue::Obj(fs) => {
            let page = match field_i32(fs, "page", "") {
                Ok(x) => x,
                Err(e) => {
                    return Err(e);
                },
            };
            let per_page = match field_i32(fs, "perPage", "") {
                Ok(x) => x,
                Err(e) => {
                    return Err(e);
                },
            };
            let total_items = match field_i32(fs, "totalItems", "") {
                Ok(x) => x,
                Err(e) => {
                    return Err(e);
                },
            };
            match lookup(fs, "items") {
                Option::None => Err(
                    DecodeDetail { path: disp_of(""), message: msg_missing("items") },
                ),
                Option::Some(JsonValue::Arr(a)) => match decode_collection_items(a, "items") {
                    Ok(items) => Ok(CollectionList { page, per_page, total_items, items }),
                    Err(e) => Err(e),
                },
                Option::Some(_) => Err(
                    DecodeDetail { path: "items".to_owned(), message: "expected an array".to_owned() },
                ),
            }
        },
        _ => Err(DecodeDetail { path: disp_of(""), message: "expected an object".to_owned() }),
    }
}

// ---------------------------------------------------------------------------
// Managers and builders.
// ---------------------------------------------------------------------------

/// Scopes builder creation to the collections resource.
#[derive(Clone, Debug)]
pub struct CollectionsManager<'a, A> {
    pub client: &'a Client<A>,
}

/// A collection-creation request being assembled. The terminal call is
/// not offered yet; the builder only carries its pieces.
#[derive(Debug, Clone)]
pub struct CollectionCreateRequestBuilder<'a, A> {
    pub client: &'a Client<A>,
    pub collection_name: String,
    pub collection_details: Option<CollectionDetails>,
}

/// A single-collection view request.
#[derive(Clone, Debug)]
pub struct CollectionViewRequestBuilder<'a, A> {
    pub client: &'a Client<A>,
    pub name: String,
}

/// A collection listing request: immutable, every setter returns a
/// fresh builder.
#[derive(Clone, Debug)]
pub struct CollectionListRequestBuilder<'a, A> {
    pub client: &'a Client<A>,
    pub filter: Option<String>,
    pub sort: Option<String>,
    pub expand: Option<String>,
    pub per_page: i32,
    pub page: i32,
}

/// The query a collection listing sends, in order: the optional
/// filter, sort and expand, then `per_page` and `page`.
pub open spec fn col_list_query(
    filter: Option<String>,
    sort: Option<String>,
    expand: Option<String>,
    per_page: i32,
    page: i32,
) -> Seq<(Seq<char>, Seq<char>)> {
    opt_pair("filter"@, filter) + opt_pair("sort"@, sort) + opt_pair("expand"@, expand) + seq![
        ("per_page"@, dec_rep_signed(per_page as int)),
        ("page"@, dec_rep_signed(page as int)),
    ]
}

impl<'a, A> CollectionListRequestBuilder<'a, A> {
    /// What a finished listing call can be, given the status and body
    /// of the response that came back.
    pub open spec fn call_outcome(&self, st: u16, b: String, r: Result<CollectionList, ApiError>)
        -> bool {
        if !(200 <= st < 300) {
            r matches Err(ApiError::Http { status, url, body_snippet }) && status == st && url@
                == self.client.base_url@ + "/api/collections"@ && body_snippet@ == snippet_rep(b@)
        } else {
            match json_parse(b@) {
                Option::Some(v) => match r {
                    Ok(cl) => scol_list_err(v) is None && scol_list_ok(v, cl),
                    Err(e) => e matches ApiError::Decode { path, message, body_snippet }
                        && scol_list_err(v) matches Some(se) && path@ == se.0 && message@ == se.1
                        && body_snippet@ == snippet_rep(b@),
                },
                Option::None => r matches Err(ApiError::Decode { path, message, body_snippet })
                    && path@ == "."@ && body_snippet@ == snippet_rep(b@),
            }
        }
    }

    /// The request this builder stands for.
    pub fn request(&self) -> (r: HttpRequest)
        ensures
            r.method == Method::Get,
            r.url@ == self.client.base_url@ + "/api/collections"@,
            pair_views(r.query@) == col_list_query(
                self.filter,
                self.sort,
                self.expand,
                self.per_page,
                self.page,
            ),
            pair_views(r.headers@) == base_header_views(self.client.auth_token, false),
            r.body is None,
    {
        let url = str_concat(self.client.base_url.as_str(), "/api/collections");
        let mut q: Vec<(String, String)> = Vec::new();
        match &self.filter {
            Option::Some(f) => {
                q.push(("filter".to_owned(), f.clone()));
            },
            Option::None => {},
        }
        match &self.sort {
            Option::Some(s) => {
                q.push(("sort".to_owned(), s.clone()));
            },
            Option::None => {},
        }
        match &self.expand {
            Option::Some(x) => {
                q.push(("expand".to_owned(), x.clone()));
            },
            Option::None => {},
        }
        q.push(("per_page".to_owned(), i32_to_string(self.per_page)));
        q.push(("page".to_owned(), i32_to_string(self.page)));
        proof {
            assert(pair_views(q@) =~= col_list_query(
                self.filter,
                self.sort,
                self.expand,
                self.per_page,
                self.page,
            ));
        }
        Httpc::build_get(self.client, url, Option::Some(q))
    }

    /// Classifies a listing answer: a non-2xx status is an HTTP
    /// failure; a 2xx body is decoded, and a snippet accompanies any
    /// decode failure.
    pub fn classify(status: u16, url: &str, body: &str) -> (r: Result<CollectionList, ApiError>)
        ensures
            if !(200 <= status < 300) {
                r matches Err(ApiError::Http { status: st, url: u, body_snippet }) && st == status
                    && u@ == url@ && body_snippet@ == snippet_rep(body@)
            } else { match json_parse(body@) {
                Option::Some(v) => match r {
                    Ok(cl) => scol_list_err(v) is None && scol_list_ok(v, cl),
                    Err(e) => e matches ApiError::Decode { path, message, body_snippet }
                        && scol_list_err(v) matches Some(s) && path@ == s.0 && message@ == s.1
                        && body_snippet@ == snippet_rep(body@),
                },
                Option::None => r matches Err(ApiError::Decode { path, message, body_snippet })
                    && path@ == "."@ && body_snippet@ == snippet_rep(body@),
            } },
    {
        if !(200 <= status && status < 300) {
            return Err(
                ApiError::Http { status, url: url.to_owned(), body_snippet: snippet_of(body) },
            );
        }
        match parse_json_text(body) {
            Ok(v) => match decode_collection_list(&v) {
                Ok(cl) => Ok(cl),
                Err(d) => Err(
                    ApiError::Decode {
                        path: d.path,
                        message: d.message,
                        body_snippet: snippet_of(body),
                    },
                ),
            },
            Err(m) => Err(
                ApiError::Decode {
                    path: ".".to_owned(),
                    message: m,
                    body_snippet: snippet_of(body),
                },
            ),
        }
    }

    /// Executes the listing: whatever the transport produced, the
    /// result is that response's classification, or the transport's
    /// own failure.
    pub fn call<T: Transport>(&self, t: &mut T) -> (r: Result<CollectionList, ApiError>)
        ensures
            (exists|st: u16, b: String| #[trigger] self.call_outcome(st, b, r)) || r matches Err(
                ApiError::Transport(_),
            ),
    {
        let req = self.request();
        let url = req.url.clone();
        match t.send(&req) {
            Ok(resp) => {
                let r = Self::classify(resp.status, url.as_str(), resp.body.as_str());
                proof {
                    assert(self.call_outcome(resp.status, resp.body, r));
                }
                r
            },
            Err(e) => Err(ApiError::Transport(e)),
        }
    }

    /// A new builder with the filter set; every other option, and this
    /// builder, are left as they were.
    pub fn filter(&self, filter_opts: String) -> (r: Self)
        ensures
            r.client == self.client,
            r.filter == Option::Some(filter_opts),
            r.sort == self.sort,
            r.expand == self.expand,
            r.per_page == self.per_page,
            r.page == self.page,
    {
        Self {
            client: self.client,
            filter: Option::Some(filter_opts),
            sort: clone_opt(&self.sort),
            expand: clone_opt(&self.expand),
            per_page: self.per_page,
            page: self.page,
        }
    }

    /// A new builder with the page size set.
    pub fn per_page(&self, per_page_count: i32) -> (r: Self)
        ensures
            r.client == self.client,
            r.filter == self.filter,
            r.sort == self.sort,
            r.expand == self.expand,
            r.per_page == per_page_count,
            r.page == self.page,
    {
        Self {
            client: self.client,
            filter: clone_opt(&self.filter),
            sort: clone_opt(&self.sort),
            expand: clone_opt(&self.expand),
            per_page: per_page_count,
            page: self.page,
        }
    }

    /// A new builder with the page number set.
    pub fn page(&self, page_count: i32) -> (r: Self)
        ensures
            r.client == self.client,
            r.filter == self.filter,
            r.sort == self.sort,
            r.expand == self.expand,
            r.per_page == self.per_page,
            r.page == page_count,
    {
        Self {
            client: self.client,
            filter: clone_opt(&self.filter),
            sort: clone_opt(&self.sort),
            expand: clone_opt(&self.expand),
            per_page: self.per_page,
            page: page_count,
        }
    }

    /// A new builder with the sort order set.
    pub fn sort(&self, sort_opts: String) -> (r: Self)
        ensures
            r.client == self.client,
            r.filter == self.filter,
            r.sort == Option::Some(sort_opts),
            r.expand == self.expand,
            r.per_page == self.per_page,
            r.page == self.page,
    {
        Self {
            client: self.client,
            filter: clone_opt(&self.filter),
            sort: Option::Some(sort_opts),
            expand: clone_opt(&self.expand),
            per_page: self.per_page,
            page: self.page,
        }
    }

    /// A new builder with the expansion list set.
    pub fn expand(&self, expand_opts: String) -> (r: Self)
        ensures
            r.client == self.client,
            r.filter == self.filter,
            r.sort == self.sort,
            r.expand == Option::Some(expand_opts),
            r.per_page == self.per_page,
            r.page == self.page,
    {
        Self {
            client: self.client,
            filter: clone_opt(&self.filter),
            sort: clone_opt(&self.sort),
            expand: Option::Some(expand_opts),
            per_page: self.per_page,
            page: self.page,
        }
    }
}

impl<'a, A> CollectionsManager<'a, A> {
    /// A view builder for one collection.
    pub fn view(&self, name: &str) -> (r: CollectionViewRequestBuilder<'a, A>)
        ensures
            r.client == self.client,
            r.name@ == name@,
    {
        CollectionViewRequestBuilder { client: self.client, name: name.to_owned() }
    }

    /// A creation builder for a new collection; it starts with no
    /// details.
    pub fn create(&self, name: &str) -> (r: CollectionCreateRequestBuilder<'a, A>)
        ensures
            r.client == self.client,
            r.collection_name@ == name@,
            r.collection_details is None,
    {
        CollectionCreateRequestBuilder {
            client: self.client,
            collection_details: Option::None,
            collection_name: name.to_owned(),
        }
    }

    /// A listing builder with the documented defaults: page 1, one
    /// hundred items per page, no filter, sort or expansion.
    pub fn list(&self) -> (r: CollectionListRequestBuilder<'a, A>)
        ensures
            r.client == self.client,
            r.filter is None,
            r.sort is None,
            r.expand is None,
            r.per_page == 100,
            r.page == 1,
    {
        CollectionListRequestBuilder {
            client: self.client,
            filter: Option::None,
            sort: Option::None,
            expand: Option::None,
            per_page: 100,
            page: 1,
        }
    }
}

impl<'a, A> CollectionViewRequestBuilder<'a, A> {
    /// What a finished view call can be, given the status and body of
    /// the response that came back.
    pub open spec fn call_outcome(&self, st: u16, b: String, r: Result<Collection, ApiError>)
        -> bool {
        if !(200 <= st < 300) {
            r matches Err(ApiError::Http { status, url, body_snippet }) && status == st && url@
                == self.client.base_url@ + "/api/collections/"@ + self.name@ && body_snippet@
                == snippet_rep(b@)
        } else {
            match json_parse(b@) {
                Option::Some(v) => match r {
                    Ok(c) => sdec_collection(v, Seq::empty()) matches Ok(t) && t == (
                        c.id,
                        c.created,
                        c.kind,
                        c.updated,
                        c.name,
                        c.schema@,
                    ),
                    Err(e) => e matches ApiError::Decode { path, message, body_snippet }
                        && sdec_collection(v, Seq::empty()) matches Err(se) && path@ == se.0
                        && message@ == se.1 && body_snippet@ == snippet_rep(b@),
                },
                Option::None => r matches Err(ApiError::Decode { path, message, body_snippet })
                    && path@ == "."@ && body_snippet@ == snippet_rep(b@),
            }
        }
    }

    /// The request this builder stands for.
    pub fn request(&self) -> (r: HttpRequest)
        ensures
            r.method == Method::Get,
            r.url@ == self.client.base_url@ + "/api/collections/"@ + self.name@,
            r.query@.len() == 0,
            pair_views(r.headers@) == base_header_views(self.client.auth_token, false),
            r.body is None,
    {
        let url0 = str_concat(self.client.base_url.as_str(), "/api/collections/");
        let url = str_concat(url0.as_str(), self.name.as_str());
        Httpc::build_get(self.client, url, Option::None)
    }

    /// Classifies a single-collection answer: a non-2xx status is an
    /// HTTP failure; a 2xx body is decoded.
    pub fn classify(status: u16, url: &str, body: &str) -> (r: Result<Collection, ApiError>)
        ensures
            if !(200 <= status < 300) {
                r matches Err(ApiError::Http { status: st, url: u, body_snippet }) && st == status
                    && u@ == url@ && body_snippet@ == snippet_rep(body@)
            } else { match json_parse(body@) {
                Option::Some(v) => match r {
                    Ok(c) => sdec_collection(v, Seq::empty()) matches Ok(t) && t == (
                        c.id,
                        c.created,
                        c.kind,
                        c.updated,
                        c.name,
                        c.schema@,
                    ),
                    Err(e) => e matches ApiError::Decode { path, message, body_snippet }
                        && sdec_collection(v, Seq::empty()) matches Err(s) && path@ == s.0
                        && message@ == s.1 && body_snippet@ == snippet_rep(body@),
                },
                Option::None => r matches Err(ApiError::Decode { path, message, body_snippet })
                    && path@ == "."@ && body_snippet@ == snippet_rep(body@),
            } },
    {
        proof {
            lemma_empty_str_view();
        }
        if !(200 <= status && status < 300) {
            return Err(
                ApiError::Http { status, url: url.to_owned(), body_snippet: snippet_of(body) },
            );
        }
        match parse_json_text(body) {
            Ok(v) => match decode_collection(&v, "") {
                Ok(c) => Ok(c),
                Err(d) => Err(
                    ApiError::Decode {
                        path: d.path,
                        message: d.message,
                        body_snippet: snippet_of(body),
                    },
                ),
            },
            Err(m) => Err(
                ApiError::Decode {
                    path: ".".to_owned(),
                    message: m,
                    body_snippet: snippet_of(body),
                },
            ),
        }
    }

    /// Fetches the collection: whatever the transport produced, the
    /// result is that response's classification, or the transport's
    /// own failure.
    pub fn call<T: Transport>(&self, t: &mut T) -> (r: Result<Collection, ApiError>)
        ensures
            (exists|st: u16, b: String| #[trigger] self.call_outcome(st, b, r)) || r matches Err(
                ApiError::Transport(_),
            ),
    {
        let req = self.request();
        let url = req.url.clone();
        match t.send(&req) {
            Ok(resp) => {
                let r = Self::classify(resp.status, url.as_str(), resp.body.as_str());
                proof {
                    assert(self.call_outcome(resp.status, resp.body, r));
                }
                r
            },
            Err(e) => Err(ApiError::Transport(e)),
        }
    }
}

} // verus!
