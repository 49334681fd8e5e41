//! Requests and responses as plain values, the abstract transport that
//! carries them, and the one place where the authorization header is
//! attached to an outbound request.

use vstd::prelude::*;
use vstd::string::*;
use crate::client::Client;

verus! {

#[derive(Debug, Clone, Copy, PartialEq, Eq, Structural)]
pub enum Method {
    Get,
    Post,
    Patch,
    Delete,
}

/// One outbound request, ready for a transport to carry.
#[derive(Debug)]
pub struct HttpRequest {
    pub method: Method,
    pub url: String,
    pub query: Vec<(String, String)>,
    pub headers: Vec<(String, String)>,
    pub body: Option<String>,
}

/// What a transport brings back when the exchange itself succeeded.
#[derive(Debug)]
pub struct HttpResponse {
    pub status: u16,
    pub body: String,
}

/// Carries one request to the backend and returns its status and raw
/// body, or a description of a transport-level failure. Implementations
/// live outside this crate (a real HTTP client) or in
/// [`ScriptTransport`] for testing; nothing is assumed about what they
/// return.
pub trait Transport {
    fn send(&mut self, req: &HttpRequest) -> Result<HttpResponse, String>;
}

fn copy_pairs(v: &Vec<(String, String)>) -> (r: Vec<(String, String)>)
    ensures
        r@ == v@,
{
    let mut out: Vec<(String, String)> = Vec::new();
    let mut i: usize = 0;
    while i < v.len()
        invariant
            i <= v.len(),
            out@ =~= v@.subrange(0, i as int),
        decreases v.len() - i,
    {
        out.push((v[i].0.clone(), v[i].1.clone()));
        proof {
            assert(out@ =~= v@.subrange(0, i + 1 as int));
        }
        i = i + 1;
    }
    proof {
        assert(out@ =~= v@);
    }
    out
}

impl HttpRequest {
    /// A copy with the same method, url, query, headers and body.
    pub fn duplicate(&self) -> (r: HttpRequest)
        ensures
            r.method == self.method,
            r.url == self.url,
            r.query@ == self.query@,
            r.headers@ == self.headers@,
            r.body == self.body,
    {
        let body = match &self.body {
            Option::Some(b) => Option::Some(b.clone()),
            Option::None => Option::None,
        };
        HttpRequest {
            method: self.method,
            url: self.url.clone(),
            query: copy_pairs(&self.query),
            headers: copy_pairs(&self.headers),
            body,
        }
    }
}

/// A transport for tests: answers each request with the next scripted
/// status and body, and keeps a log of everything that was sent.
pub struct ScriptTransport {
    pub script: Vec<(u16, String)>,
    pub pos: usize,
    pub sent: Vec<HttpRequest>,
}

impl ScriptTransport {
    pub fn new(script: Vec<(u16, String)>) -> (r: ScriptTransport)
        ensures
            r.script == script,
            r.pos == 0,
            r.sent@.len() == 0,
    {
        ScriptTransport { script, pos: 0, sent: Vec::new() }
    }
}

impl Transport for ScriptTransport {
    fn send(&mut self, req: &HttpRequest) -> Result<HttpResponse, String> {
        let copy = req.duplicate();
        self.sent.push(copy);
        if self.pos < self.script.len() {
            let status = self.script[self.pos].0;
            let body = self.script[self.pos].1.clone();
            self.pos = self.pos + 1;
            Ok(HttpResponse { status, body })
        } else {
            Err("no scripted response left".to_owned())
        }
    }
}

// ---------------------------------------------------------------------------
// Request construction, shared by every resource.
// ---------------------------------------------------------------------------

/// The views of a query or header list.
pub open spec fn pair_views(q: Seq<(String, String)>) -> Seq<(Seq<char>, Seq<char>)> {
    Seq::new(q.len(), |i: int| (q[i].0@, q[i].1@))
}

/// A query pair that is present only when its option is set.
pub open spec fn opt_pair(k: Seq<char>, v: Option<String>) -> Seq<(Seq<char>, Seq<char>)> {
    match v {
        Option::Some(s) => seq![(k, s@)],
        Option::None => Seq::empty(),
    }
}

/// The authorization header a client's token calls for: exactly one
/// `Authorization` entry holding the raw token, or nothing at all.
pub open spec fn auth_header_views(token: Option<String>) -> Seq<(Seq<char>, Seq<char>)> {
    match token {
        Option::Some(t) => seq![("Authorization"@, t@)],
        Option::None => Seq::empty(),
    }
}

/// All headers of an outbound request: a JSON content type on requests
/// that carry a body, then the authorization header when the client
/// holds a token.
pub open spec fn base_header_views(token: Option<String>, json_body: bool) -> Seq<
    (Seq<char>, Seq<char>),
> {
    (if json_body {
        seq![("Content-Type"@, "application/json"@)]
    } else {
        Seq::<(Seq<char>, Seq<char>)>::empty()
    }) + auth_header_views(token)
}

pub struct Httpc;

impl Httpc {
    /// Builds the header list for one request. This is the only place
    /// that attaches the token, so no resource can forget it.
    fn request_headers<A>(client: &Client<A>, json_body: bool) -> (r: Vec<(String, String)>)
        ensures
            pair_views(r@) == base_header_views(client.auth_token, json_body),
    {
        let mut h: Vec<(String, String)> = Vec::new();
        if json_body {
            h.push(("Content-Type".to_owned(), "application/json".to_owned()));
        }
        match &client.auth_token {
            Option::Some(t) => {
                h.push(("Authorization".to_owned(), t.clone()));
            },
            Option::None => {},
        }
        proof {
            assert(pair_views(h@) =~= base_header_views(client.auth_token, json_body));
        }
        h
    }

    pub fn build_get<A>(
        client: &Client<A>,
        url: String,
        query_params: Option<Vec<(String, String)>>,
    ) -> (r: HttpRequest)
        ensures
            r.method == Method::Get,
            r.url == url,
            r.query@ == (match query_params {
                Option::Some(q) => q@,
                Option::None => Seq::<(String, String)>::empty(),
            }),
            pair_views(r.headers@) == base_header_views(client.auth_token, false),
            r.body is None,
    {
        let query = match query_params {
            Option::Some(q) => q,
            Option::None => Vec::new(),
        };
        HttpRequest {
            method: Method::Get,
            url,
            query,
            headers: Self::request_headers(client, false),
            body: Option::None,
        }
    }

    fn build_with_body<A>(client: &Client<A>, method: Method, url: String, body_content: String)
        -> (r: HttpRequest)
        ensures
            r.method == method,
            r.url == url,
            r.query@.len() == 0,
            pair_views(r.headers@) == base_header_views(client.auth_token, true),
            r.body == Option::Some(body_content),
    {
        HttpRequest {
            method,
            url,
            query: Vec::new(),
            headers: Self::request_headers(client, true),
            body: Option::Some(body_content),
        }
    }

    pub fn build_post<A>(client: &Client<A>, url: String, body_content: String) -> (r: HttpRequest)
        ensures
            r.method == Method::Post,
            r.url == url,
            r.query@.len() == 0,
            pair_views(r.headers@) == base_header_views(client.auth_token, true),
            r.body == Option::Some(body_content),
    {
        Self::build_with_body(client, Method::Post, url, body_content)
    }

    pub fn build_patch<A>(client: &Client<A>, url: String, body_content: String) -> (r: HttpRequest)
        ensures
            r.method == Method::Patch,
            r.url == url,
            r.query@.len() == 0,
            pair_views(r.headers@) == base_header_views(client.auth_token, true),
            r.body == Option::Some(body_content),
    {
        Self::build_with_body(client, Method::Patch, url, body_content)
    }

    pub fn build_delete<A>(client: &Client<A>, url: String) -> (r: HttpRequest)
        ensures
            r.method == Method::Delete,
            r.url == url,
            r.query@.len() == 0,
            pair_views(r.headers@) == base_header_views(client.auth_token, false),
            r.body is None,
    {
        HttpRequest {
            method: Method::Delete,
            url,
            query: Vec::new(),
            headers: Self::request_headers(client, false),
            body: Option::None,
        }
    }

    /// Sends a GET request through the given transport.
    pub fn get<A, T: Transport>(
        client: &Client<A>,
        t: &mut T,
        url: String,
        query_params: Option<Vec<(String, String)>>,
    ) -> Result<HttpResponse, String> {
        let req = Self::build_get(client, url, query_params);
        t.send(&req)
    }

    /// Sends a POST request with a JSON body through the given transport.
    pub fn post<A, T: Transport>(client: &Client<A>, t: &mut T, url: String, body_content: String)
        -> Result<HttpResponse, String> {
        let req = Self::build_post(client, url, body_content);
        t.send(&req)
    }

    /// Sends a PATCH request with a JSON body through the given transport.
    pub fn patch<A, T: Transport>(client: &Client<A>, t: &mut T, url: String, body_content: String)
        -> Result<HttpResponse, String> {
        let req = Self::build_patch(client, url, body_content);
        t.send(&req)
    }

    /// Sends a DELETE request through the given transport.
    pub fn delete<A, T: Transport>(client: &Client<A>, t: &mut T, url: String) -> Result<
        HttpResponse,
        String,
    > {
        let req = Self::build_delete(client, url);
        t.send(&req)
    }
}

} // verus!
