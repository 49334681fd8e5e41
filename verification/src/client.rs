//! The client value, its anonymous/authenticated typestate, and the
//! authentication flow with its structured failure envelope.

use vstd::prelude::*;
use vstd::string::*;
use crate::json::{
    JsonValue, json_parse, json_text, parse_json_text, to_json_text, sfield_str, sfield_i32,
    obj_get, path_disp, path_child, dec_matches, DecodeDetail, field_str, field_i32, lookup,
    disp_of, child_of, smsg_missing, msg_missing,
};
use crate::strutil::{str_concat, snippet_rep, snippet_of, dec_rep, u64_to_string};
use crate::httpc::{Httpc, Transport, HttpRequest, Method, pair_views, base_header_views};
use crate::error::ApiError;
use crate::collections::CollectionsManager;
use crate::logs::LogsManager;
use crate::records::RecordsManager;

verus! {

/// The anonymous typestate: no token is held.
#[derive(Debug, Clone)]
pub struct NoAuth;

/// The authenticated typestate: a token is held and attached to every
/// request.
#[derive(Debug, Clone)]
pub struct Auth;

/// A handle on one backend: the base URL and, once authenticated, the
/// bearer token. Immutable after construction; authentication returns
/// a fresh value instead of changing this one.
#[derive(Debug, Clone)]
pub struct Client<State> {
    pub base_url: String,
    pub auth_token: Option<String>,
    pub state: State,
}

#[derive(Debug, Clone, PartialEq)]
pub struct HealthCheckResponse {
    pub code: i32,
    pub message: String,
}

/// One field-level validation failure.
#[derive(Debug, Clone, PartialEq)]
pub struct ValidationError {
    pub code: String,
    pub message: String,
}

/// A structured 4xx validation failure: the offending fields, a
/// message, and the reported status.
#[derive(Debug, Clone, PartialEq)]
pub struct ErrorResponse {
    pub data: Vec<(String, ValidationError)>,
    pub message: String,
    pub status: i32,
}

/// How authentication fails: a structured validation answer from the
/// backend, or anything else, described in text.
#[derive(Debug, Clone, PartialEq)]
pub enum AuthError {
    Validation(ErrorResponse),
    Other(String),
}

// ---------------------------------------------------------------------------
// Decoding the wire shapes this module owns.
// ---------------------------------------------------------------------------

/// The health endpoint's answer: `{code, message}`.
pub open spec fn sdec_health(v: JsonValue) -> Result<HealthCheckResponse, (Seq<char>, Seq<char>)> {
    match v {
        JsonValue::Obj(fs) => match sfield_i32(fs@, "code"@, Seq::empty()) {
            Err(e) => Err(e),
            Ok(code) => match sfield_str(fs@, "message"@, Seq::empty()) {
                Err(e) => Err(e),
                Ok(message) => Ok(HealthCheckResponse { code, message }),
            },
        },
        _ => Err((path_disp(Seq::empty()), "expected an object"@)),
    }
}

pub fn decode_health(v: &JsonValue) -> (r: Result<HealthCheckResponse, DecodeDetail>)
    ensures
        dec_matches(r, sdec_health(*v)),
{
    proof {
        crate::strutil::lemma_empty_str_view();
    }
    match v {
        JsonValue::Obj(fs) => {
            let code = match field_i32(fs, "code", "") {
                Ok(c) => c,
                Err(e) => {
                    return Err(e);
                },
            };
            let message = match field_str(fs, "message", "") {
                Ok(m) => m,
                Err(e) => {
                    return Err(e);
                },
            };
            Ok(HealthCheckResponse { code, message })
        },
        _ => Err(DecodeDetail { path: disp_of(""), message: "expected an object".to_owned() }),
    }
}

/// One validation entry: `{code, message}`.
pub open spec fn sdec_validation(v: JsonValue, p: Seq<char>) -> Result<
    ValidationError,
    (Seq<char>, Seq<char>),
> {
    match v {
        JsonValue::Obj(fs) => match sfield_str(fs@, "code"@, p) {
            Err(e) => Err(e),
            Ok(code) => match sfield_str(fs@, "message"@, p) {
                Err(e) => Err(e),
                Ok(message) => Ok(ValidationError { code, message }),
            },
        },
        _ => Err((path_disp(p), "expected an object"@)),
    }
}

pub fn decode_validation(v: &JsonValue, p: &str) -> (r: Result<ValidationError, DecodeDetail>)
    ensures
        dec_matches(r, sdec_validation(*v, p@)),
{
    match v {
        JsonValue::Obj(fs) => {
            let code = match field_str(fs, "code", p) {
                Ok(c) => c,
                Err(e) => {
                    return Err(e);
                },
            };
            let message = match field_str(fs, "message", p) {
                Ok(m) => m,
                Err(e) => {
                    return Err(e);
                },
            };
            Ok(ValidationError { code, message })
        },
        _ => Err(DecodeDetail { path: disp_of(p), message: "expected an object".to_owned() }),
    }
}

/// The entries of the `data` object, each a validation entry, in the
/// order the parser yields them.
pub open spec fn sdec_data_entries(
    fs: Seq<(String, JsonValue)>,
    p: Seq<char>,
    i: int,
) -> Result<Seq<(String, ValidationError)>, (Seq<char>, Seq<char>)>
    decreases fs.len() - i,
{
    if i < 0 || i >= fs.len() {
        Ok(Seq::empty())
    } else {
        match sdec_validation(fs[i].1, path_child(p, fs[i].0@)) {
            Err(e) => Err(e),
            Ok(ve) => match sdec_data_entries(fs, p, i + 1) {
                Err(e) => Err(e),
                Ok(rest) => Ok(seq![(fs[i].0, ve)] + rest),
            },
        }
    }
}

pub fn decode_data_entries(fs: &Vec<(String, JsonValue)>, p: &str, i: usize) -> (r: Result<
    Vec<(String, ValidationError)>,
    DecodeDetail,
>)
    requires
        i <= fs@.len(),
    ensures
        match r {
            Ok(d) => sdec_data_entries(fs@, p@, i as int) matches Ok(s) && s == d@,
            Err(e) => sdec_data_entries(fs@, p@, i as int) matches Err(s) && e.path@ == s.0
                && e.message@ == s.1,
        },
    decreases fs@.len() - i,
{
    if i == fs.len() {
        let r: Vec<(String, ValidationError)> = Vec::new();
        proof {
            assert(r@ =~= Seq::<(String, ValidationError)>::empty());
        }
        Ok(r)
    } else {
        let child = child_of(p, fs[i].0.as_str());
        let ve = match decode_validation(&fs[i].1, child.as_str()) {
            Ok(ve) => ve,
            Err(e) => {
                return Err(e);
            },
        };
        let mut rest = match decode_data_entries(fs, p, i + 1) {
            Ok(rest) => rest,
            Err(e) => {
                return Err(e);
            },
        };
        let key = fs[i].0.clone();
        rest.insert(0, (key, ve));
        proof {
            let s = sdec_data_entries(fs@, p@, i as int);
            assert(s is Ok);
            assert(rest@ =~= s->Ok_0);
        }
        Ok(rest)
    }
}

/// The decoded `data` entries keep the object's keys, in order.
pub proof fn lemma_data_entries_keys(fs: Seq<(String, JsonValue)>, p: Seq<char>, i: int)
    requires
        0 <= i <= fs.len(),
    ensures
        sdec_data_entries(fs, p, i) matches Ok(s) ==> s.len() == fs.len() - i && (forall|k: int|
            0 <= k < s.len() ==> (#[trigger] s[k]).0 == fs[i + k].0),
    decreases fs.len() - i,
{
    if i < fs.len() {
        lemma_data_entries_keys(fs, p, i + 1);
    }
}

/// A `data` object with pairwise distinct keys decodes to entries
/// with pairwise distinct keys: the uniqueness the wire map offers is
/// kept by [`decode_data_entries`].
pub proof fn lemma_data_entries_distinct(fs: Seq<(String, JsonValue)>, p: Seq<char>)
    requires
        crate::json::distinct_keys(fs),
    ensures
        sdec_data_entries(fs, p, 0) matches Ok(s) ==> crate::json::distinct_keys(s),
{
    lemma_data_entries_keys(fs, p, 0);
}

/// The whole validation envelope: `{data, message, status}`.
pub open spec fn sdec_error_response(v: JsonValue) -> Result<
    (Seq<(String, ValidationError)>, String, i32),
    (Seq<char>, Seq<char>),
> {
    match v {
        JsonValue::Obj(fs) => match obj_get(fs@, "data"@) {
            Option::None => Err((path_disp(Seq::empty()), smsg_missing("data"@))),
            Option::Some(JsonValue::Obj(ds)) => match sdec_data_entries(
                ds@,
                path_child(Seq::empty(), "data"@),
                0,
            ) {
                Err(e) => Err(e),
                Ok(data) => match sfield_str(fs@, "message"@, Seq::empty()) {
                    Err(e) => Err(e),
                    Ok(message) => match sfield_i32(fs@, "status"@, Seq::empty()) {
                        Err(e) => Err(e),
                        Ok(status) => Ok((data, message, status)),
                    },
                },
            },
            Option::Some(_) => Err((path_child(Seq::empty(), "data"@), "expected an object"@)),
        },
        _ => Err((path_disp(Seq::empty()), "expected an object"@)),
    }
}

pub fn decode_error_response(v: &JsonValue) -> (r: Result<ErrorResponse, DecodeDetail>)
    ensures
        match r {
            Ok(er) => sdec_error_response(*v) matches Ok(t) && t == (er.data@, er.message,
            er.status),
            Err(e) => sdec_error_response(*v) matches Err(s) && e.path@ == s.0 && e.message@
                == s.1,
        },
{
    proof {
        crate::strutil::lemma_empty_str_view();
    }
    match v {
        JsonValue::Obj(fs) => match lookup(fs, "data") {
            Option::None => Err(DecodeDetail { path: disp_of(""), message: msg_missing("data") }),
            Option::Some(JsonValue::Obj(ds)) => {
                let dpath = child_of("", "data");
                let data = match decode_data_entries(ds, dpath.as_str(), 0) {
                    Ok(d) => d,
                    Err(e) => {
                        return Err(e);
                    },
                };
                let message = match field_str(fs, "message", "") {
                    Ok(m) => m,
                    Err(e) => {
                        return Err(e);
                    },
                };
                let status = match field_i32(fs, "status", "") {
                    Ok(s) => s,
                    Err(e) => {
                        return Err(e);
                    },
                };
                Ok(ErrorResponse { data, message, status })
            },
            Option::Some(_) => Err(
                DecodeDetail {
                    path: child_of("", "data"),
                    message: "expected an object".to_owned(),
                },
            ),
        },
        _ => Err(DecodeDetail { path: disp_of(""), message: "expected an object".to_owned() }),
    }
}

/// The authentication success body: `{token}`.
pub open spec fn sdec_token(v: JsonValue) -> Result<String, (Seq<char>, Seq<char>)> {
    match v {
        JsonValue::Obj(fs) => sfield_str(fs@, "token"@, Seq::empty()),
        _ => Err((path_disp(Seq::empty()), "expected an object"@)),
    }
}

pub fn decode_token(v: &JsonValue) -> (r: Result<String, DecodeDetail>)
    ensures
        dec_matches(r, sdec_token(*v)),
{
    proof {
        crate::strutil::lemma_empty_str_view();
    }
    match v {
        JsonValue::Obj(fs) => field_str(fs, "token", ""),
        _ => Err(DecodeDetail { path: disp_of(""), message: "expected an object".to_owned() }),
    }
}

// ---------------------------------------------------------------------------
// The tagged text representation of an authentication failure, for
// carrying it across a process boundary and reading it back.
// ---------------------------------------------------------------------------

/// How one validation entry appears in the tagged representation.
pub open spec fn srep_validation(ve: ValidationError, v: JsonValue) -> bool {
    &&& v matches JsonValue::Obj(fs)
    &&& fs@.len() == 2
    &&& fs@[0].0@ == "code"@
    &&& fs@[0].1 == JsonValue::Str(ve.code)
    &&& fs@[1].0@ == "message"@
    &&& fs@[1].1 == JsonValue::Str(ve.message)
}

/// How a validation envelope appears in the tagged representation.
pub open spec fn srep_error_response(er: ErrorResponse, v: JsonValue) -> bool {
    &&& v matches JsonValue::Obj(fs)
    &&& fs@.len() == 3
    &&& fs@[0].0@ == "data"@
    &&& fs@[0].1 matches JsonValue::Obj(ds)
    &&& {
        let ds = fs@[0].1->Obj_0;
        &&& ds@.len() == er.data@.len()
        &&& forall|j: int|
            0 <= j < ds@.len() ==> (#[trigger] ds@[j]).0 == er.data@[j].0 && srep_validation(
                er.data@[j].1,
                ds@[j].1,
            )
    }
    &&& fs@[1].0@ == "message"@
    &&& fs@[1].1 == JsonValue::Str(er.message)
    &&& fs@[2].0@ == "status"@
    &&& fs@[2].1 == JsonValue::Int(er.status as i64)
}

/// The tagged representation itself: `{variant, payload}`.
pub open spec fn srep_auth(e: AuthError, v: JsonValue) -> bool {
    &&& v matches JsonValue::Obj(fs)
    &&& fs@.len() == 2
    &&& fs@[0].0@ == "variant"@
    &&& fs@[1].0@ == "payload"@
    &&& match e {
        AuthError::Validation(er) => {
            &&& fs@[0].1 matches JsonValue::Str(t) && t@ == "Validation"@
            &&& srep_error_response(er, fs@[1].1)
        },
        AuthError::Other(m) => {
            &&& fs@[0].1 matches JsonValue::Str(t) && t@ == "Other"@
            &&& fs@[1].1 == JsonValue::Str(m)
        },
    }
}

impl AuthError {
    /// The tagged document of this failure.
    pub fn to_repr(&self) -> (r: JsonValue)
        ensures
            srep_auth(*self, r),
    {
        match self {
            AuthError::Validation(er) => {
                let mut ds: Vec<(String, JsonValue)> = Vec::new();
                let mut i: usize = 0;
                while i < er.data.len()
                    invariant
                        i <= er.data@.len(),
                        ds@.len() == i,
                        forall|j: int|
                            0 <= j < i ==> (#[trigger] ds@[j]).0 == er.data@[j].0
                                && srep_validation(er.data@[j].1, ds@[j].1),
                    decreases er.data@.len() - i,
                {
                    let mut entry: Vec<(String, JsonValue)> = Vec::new();
                    entry.push(("code".to_owned(), JsonValue::Str(er.data[i].1.code.clone())));
                    entry.push(
                        ("message".to_owned(), JsonValue::Str(er.data[i].1.message.clone())),
                    );
                    ds.push((er.data[i].0.clone(), JsonValue::Obj(entry)));
                    i = i + 1;
                }
                let mut payload: Vec<(String, JsonValue)> = Vec::new();
                payload.push(("data".to_owned(), JsonValue::Obj(ds)));
                payload.push(("message".to_owned(), JsonValue::Str(er.message.clone())));
                payload.push(("status".to_owned(), JsonValue::Int(er.status as i64)));
                let mut fs: Vec<(String, JsonValue)> = Vec::new();
                fs.push(("variant".to_owned(), JsonValue::Str("Validation".to_owned())));
                fs.push(("payload".to_owned(), JsonValue::Obj(payload)));
                JsonValue::Obj(fs)
            },
            AuthError::Other(m) => {
                let mut fs: Vec<(String, JsonValue)> = Vec::new();
                fs.push(("variant".to_owned(), JsonValue::Str("Other".to_owned())));
                fs.push(("payload".to_owned(), JsonValue::Str(m.clone())));
                JsonValue::Obj(fs)
            },
        }
    }

    /// This failure as tagged text, as rendered by the serializer.
    pub fn to_tagged_string(&self) -> (r: String)
        ensures
            exists|v: JsonValue| #[trigger] srep_auth(*self, v) && r@ == json_text(v),
    {
        let v = self.to_repr();
        let r = to_json_text(&v);
        proof {
            assert(srep_auth(*self, v) && r@ == json_text(v));
        }
        r
    }

    /// Reads the tagged representation back from a parsed document.
    pub fn from_repr(v: &JsonValue) -> (r: Option<AuthError>)
        ensures
            match r {
                Option::Some(e) => sdec_auth_repr(*v) matches Ok(t) && auth_fields_match(e, t),
                Option::None => sdec_auth_repr(*v) is Err,
            },
    {
        proof {
            crate::strutil::lemma_empty_str_view();
        }
        let fs = match v {
            JsonValue::Obj(fs) => fs,
            _ => {
                return Option::None;
            },
        };
        let variant = match field_str(fs, "variant", "") {
            Ok(t) => t,
            Err(_) => {
                return Option::None;
            },
        };
        let payload = match lookup(fs, "payload") {
            Option::Some(p) => p,
            Option::None => {
                return Option::None;
            },
        };
        if crate::strutil::str_eq(variant.as_str(), "Validation") {
            match decode_error_response(payload) {
                Ok(er) => Option::Some(AuthError::Validation(er)),
                Err(_) => Option::None,
            }
        } else if crate::strutil::str_eq(variant.as_str(), "Other") {
            match payload {
                JsonValue::Str(m) => Option::Some(AuthError::Other(m.clone())),
                _ => Option::None,
            }
        } else {
            Option::None
        }
    }

    /// Reads a failure back from tagged text; any text that is not a
    /// readable representation comes back whole as `Other`.
    pub fn from_tagged_str(s: &str) -> (r: AuthError)
        ensures
            match json_parse(s@) {
                Option::Some(v) => match sdec_auth_repr(v) {
                    Ok(t) => auth_fields_match(r, t),
                    Err(_) => r matches AuthError::Other(m) && m@ == s@,
                },
                Option::None => r matches AuthError::Other(m) && m@ == s@,
            },
    {
        match parse_json_text(s) {
            Ok(v) => match Self::from_repr(&v) {
                Option::Some(e) => e,
                Option::None => AuthError::Other(s.to_owned()),
            },
            Err(_) => AuthError::Other(s.to_owned()),
        }
    }
}

/// A validation entry read back from its representation is the entry
/// itself.
proof fn lemma_validation_round_trip(ve: ValidationError, v: JsonValue, pth: Seq<char>)
    requires
        srep_validation(ve, v),
    ensures
        sdec_validation(v, pth) == Ok::<ValidationError, (Seq<char>, Seq<char>)>(ve),
{
    reveal_strlit("code");
    reveal_strlit("message");
    let fs = v->Obj_0;
    assert("code"@.len() != "message"@.len());
    assert(obj_get(fs@, "code"@) == Some(JsonValue::Str(ve.code)));
    let rest = fs@.drop_first();
    assert(rest[0] == fs@[1]);
    assert(obj_get(rest, "message"@) == Some(JsonValue::Str(ve.message)));
    assert(obj_get(fs@, "message"@) == obj_get(rest, "message"@));
}

/// The entries of a represented `data` object read back, from `i` on,
/// are the entries themselves.
proof fn lemma_data_round_trip(
    ds: Seq<(String, JsonValue)>,
    data: Seq<(String, ValidationError)>,
    p: Seq<char>,
    i: int,
)
    requires
        0 <= i <= ds.len(),
        ds.len() == data.len(),
        forall|j: int|
            0 <= j < ds.len() ==> (#[trigger] ds[j]).0 == data[j].0 && srep_validation(
                data[j].1,
                ds[j].1,
            ),
    ensures
        sdec_data_entries(ds, p, i) matches Ok(s) && s == data.skip(i),
    decreases ds.len() - i,
{
    if i >= ds.len() {
        assert(data.skip(i) =~= Seq::<(String, ValidationError)>::empty());
    } else {
        lemma_validation_round_trip(data[i].1, ds[i].1, path_child(p, ds[i].0@));
        lemma_data_round_trip(ds, data, p, i + 1);
        let s = sdec_data_entries(ds, p, i);
        assert(s matches Ok(out) && out == seq![(ds[i].0, data[i].1)] + data.skip(i + 1));
        assert(seq![(ds[i].0, data[i].1)] + data.skip(i + 1) =~= data.skip(i));
    }
}

/// Reading a failure's tagged representation back restores it: the
/// round trip through the tagged document loses nothing.
pub proof fn lemma_auth_repr_round_trip(e: AuthError, v: JsonValue)
    requires
        srep_auth(e, v),
    ensures
        sdec_auth_repr(v) matches Ok(t) && auth_fields_match(e, t),
{
    reveal_strlit("variant");
    reveal_strlit("payload");
    reveal_strlit("Validation");
    reveal_strlit("Other");
    let fs = v->Obj_0;
    assert("variant"@[0] != "payload"@[0]);
    assert("variant"@ != "payload"@);
    assert(obj_get(fs@, "variant"@) == Some(fs@[0].1));
    let fs1 = fs@.drop_first();
    assert(fs1[0] == fs@[1]);
    assert(obj_get(fs1, "payload"@) == Some(fs@[1].1));
    assert(obj_get(fs@, "payload"@) == obj_get(fs1, "payload"@));
    match e {
        AuthError::Validation(er) => {
            let payload = fs@[1].1;
            let ps = payload->Obj_0;
            reveal_strlit("data");
            reveal_strlit("message");
            reveal_strlit("status");
            assert("data"@.len() != "message"@.len());
            assert("data"@.len() != "status"@.len());
            assert("message"@.len() != "status"@.len());
            assert(obj_get(ps@, "data"@) == Some(ps@[0].1));
            let ps1 = ps@.drop_first();
            let ps2 = ps1.drop_first();
            assert(ps1[0] == ps@[1]);
            assert(ps2[0] == ps@[2]);
            assert(obj_get(ps1, "message"@) == Some(JsonValue::Str(er.message)));
            assert(obj_get(ps@, "message"@) == obj_get(ps1, "message"@));
            assert(obj_get(ps2, "status"@) == Some(JsonValue::Int(er.status as i64)));
            assert(obj_get(ps1, "status"@) == obj_get(ps2, "status"@));
            assert(obj_get(ps@, "status"@) == obj_get(ps1, "status"@));
            let ds = ps@[0].1->Obj_0;
            lemma_data_round_trip(ds@, er.data@, path_child(Seq::empty(), "data"@), 0);
            assert(er.data@.skip(0) =~= er.data@);
            assert("Validation"@.len() != "Other"@.len());
        },
        AuthError::Other(m) => {
            assert("Validation"@.len() != "Other"@.len());
            assert(fs@[0].1->Str_0@ != "Validation"@);
        },
    }
}

/// What reading a tagged representation yields: either a validation
/// envelope's pieces, or the text of an `Other`.
pub enum AuthReprData {
    Validation(Seq<(String, ValidationError)>, String, i32),
    Other(String),
}

/// Reads the tagged representation at the specification level.
pub open spec fn sdec_auth_repr(v: JsonValue) -> Result<AuthReprData, ()> {
    match v {
        JsonValue::Obj(fs) => match sfield_str(fs@, "variant"@, Seq::empty()) {
            Err(_) => Err(()),
            Ok(variant) => match obj_get(fs@, "payload"@) {
                Option::None => Err(()),
                Option::Some(payload) => if variant@ == "Validation"@ {
                    match sdec_error_response(payload) {
                        Ok(t) => Ok(AuthReprData::Validation(t.0, t.1, t.2)),
                        Err(_) => Err(()),
                    }
                } else if variant@ == "Other"@ {
                    match payload {
                        JsonValue::Str(m) => Ok(AuthReprData::Other(m)),
                        _ => Err(()),
                    }
                } else {
                    Err(())
                },
            },
        },
        _ => Err(()),
    }
}

/// Relates a read-back failure to the pieces of its representation.
pub open spec fn auth_fields_match(e: AuthError, t: AuthReprData) -> bool {
    match (e, t) {
        (AuthError::Validation(er), AuthReprData::Validation(data, message, status)) => {
            &&& er.data@ == data
            &&& er.message == message
            &&& er.status == status
        },
        (AuthError::Other(m), AuthReprData::Other(m2)) => m == m2,
        _ => false,
    }
}

// ---------------------------------------------------------------------------
// The client itself.
// ---------------------------------------------------------------------------

/// How the authentication endpoint's answer is classified, given the
/// status, the body text, and what the body parses to.
pub open spec fn auth_classified(
    base_url: Seq<char>,
    status: u16,
    body: Seq<char>,
    parsed: Option<JsonValue>,
    r: Result<Client<Auth>, AuthError>,
) -> bool {
    if status == 200 {
        match parsed {
            Option::None => r matches Err(AuthError::Other(_)),
            Option::Some(v) => match sdec_token(v) {
                Ok(tok) => r matches Ok(c) && c.base_url@ == base_url && c.auth_token
                    == Option::Some(tok),
                Err(e) => r matches Err(AuthError::Other(m)) && m@ == e.0 + ": "@ + e.1,
            },
        }
    } else if 400 <= status <= 499 {
        match parsed {
            Option::None => r matches Err(AuthError::Other(_)),
            Option::Some(v) => match sdec_error_response(v) {
                Ok(t) => r matches Err(AuthError::Validation(er)) && er.data@ == t.0 && er.message
                    == t.1 && er.status == t.2,
                Err(e) => r matches Err(AuthError::Other(m)) && m@ == e.0 + ": "@ + e.1,
            },
        }
    } else {
        r matches Err(AuthError::Other(m)) && m@ == "Unexpected status "@ + dec_rep(status as nat)
            + " with body: "@ + body
    }
}

fn describe_decode_detail(d: &DecodeDetail) -> (r: String)
    ensures
        r@ == d.path@ + ": "@ + d.message@,
{
    let s = str_concat(d.path.as_str(), ": ");
    str_concat(s.as_str(), d.message.as_str())
}

impl<A> Client<A> {
    /// The manager of the collection resource family.
    pub fn collections(&self) -> (r: CollectionsManager<'_, A>)
        ensures
            r.client == self,
    {
        CollectionsManager { client: self }
    }

    /// The manager of the operational-log resource family.
    pub fn logs(&self) -> (r: LogsManager<'_, A>)
        ensures
            r.client == self,
    {
        LogsManager { client: self }
    }

    /// The manager of one collection's records.
    pub fn records(&self, record_name: &str) -> (r: RecordsManager<'_, A>)
        ensures
            r.client == self,
            r.name@ == record_name@,
    {
        RecordsManager { client: self, name: record_name.to_owned() }
    }

    /// Classifies the health endpoint's answer: a non-2xx status is
    /// an HTTP failure; a 2xx body is decoded.
    pub fn classify_health(status: u16, url: &str, body: &str) -> (r: Result<
        HealthCheckResponse,
        ApiError,
    >)
        ensures
            if !(200 <= status < 300) {
                r matches Err(ApiError::Http { status: st, url: u, body_snippet }) && st == status
                    && u@ == url@ && body_snippet@ == snippet_rep(body@)
            } else { match json_parse(body@) {
                Option::Some(v) => match sdec_health(v) {
                    Ok(h) => r == Ok::<HealthCheckResponse, ApiError>(h),
                    Err(e) => r matches Err(ApiError::Decode { path, message, body_snippet })
                        && path@ == e.0 && message@ == e.1 && body_snippet@ == snippet_rep(body@),
                },
                Option::None => r matches Err(ApiError::Decode { path, message, body_snippet })
                    && path@ == "."@ && body_snippet@ == snippet_rep(body@),
            } },
    {
        if !(200 <= status && status < 300) {
            return Err(
                ApiError::Http { status, url: url.to_owned(), body_snippet: snippet_of(body) },
            );
        }
        match parse_json_text(body) {
            Ok(v) => match decode_health(&v) {
                Ok(h) => Ok(h),
                Err(d) => Err(
                    ApiError::Decode {
                        path: d.path,
                        message: d.message,
                        body_snippet: snippet_of(body),
                    },
                ),
            },
            Err(m) => Err(
                ApiError::Decode {
                    path: ".".to_owned(),
                    message: m,
                    body_snippet: snippet_of(body),
                },
            ),
        }
    }

    /// What a finished health check can be, given the status and
    /// body of the response that came back.
    pub open spec fn health_outcome(&self, st: u16, b: String, r: Result<
        HealthCheckResponse,
        ApiError,
    >) -> bool {
        if !(200 <= st < 300) {
            r matches Err(ApiError::Http { status, url, body_snippet }) && status == st && url@
                == self.base_url@ + "/api/health"@ && body_snippet@ == snippet_rep(b@)
        } else {
            match json_parse(b@) {
                Option::Some(v) => match r {
                    Ok(h) => sdec_health(v) matches Ok(sh) && sh == h,
                    Err(e) => e matches ApiError::Decode { path, message, body_snippet }
                        && sdec_health(v) matches Err(se) && path@ == se.0 && message@ == se.1
                        && body_snippet@ == snippet_rep(b@),
                },
                Option::None => r matches Err(ApiError::Decode { path, message, body_snippet })
                    && path@ == "."@ && body_snippet@ == snippet_rep(b@),
            }
        }
    }

    /// Checks the service's health endpoint: whatever the transport
    /// produced, the result is that response's classification, or the
    /// transport's own failure.
    pub fn health_check<T: Transport>(&self, t: &mut T) -> (r: Result<
        HealthCheckResponse,
        ApiError,
    >)
        ensures
            (exists|st: u16, b: String| #[trigger] self.health_outcome(st, b, r)) || r matches Err(
                ApiError::Transport(_),
            ),
    {
        let url = str_concat(self.base_url.as_str(), "/api/health");
        let url_sent = url.clone();
        match Httpc::get(self, t, url, Option::None) {
            Ok(resp) => {
                let r = Self::classify_health(
                    resp.status,
                    url_sent.as_str(),
                    resp.body.as_str(),
                );
                proof {
                    assert(self.health_outcome(resp.status, resp.body, r));
                }
                r
            },
            Err(e) => Err(ApiError::Transport(e)),
        }
    }
}

impl Client<NoAuth> {
    /// A fresh anonymous client for the given base URL: it holds no
    /// token and sends no authorization header.
    pub fn new(base_url: &str) -> (r: Client<NoAuth>)
        ensures
            r.base_url@ == base_url@,
            r.auth_token is None,
    {
        Client { base_url: base_url.to_owned(), auth_token: Option::None, state: NoAuth }
    }

    /// Classifies the authentication endpoint's answer. Only status
    /// 200 can authenticate; a 4xx is read as a validation envelope;
    /// anything else is reported in text.
    pub fn classify_auth(&self, status: u16, body: &str) -> (r: Result<Client<Auth>, AuthError>)
        ensures
            auth_classified(self.base_url@, status, body@, json_parse(body@), r),
    {
        if status == 200 {
            match parse_json_text(body) {
                Ok(v) => match decode_token(&v) {
                    Ok(tok) => Ok(
                        Client {
                            base_url: self.base_url.clone(),
                            auth_token: Option::Some(tok),
                            state: Auth,
                        },
                    ),
                    Err(d) => Err(AuthError::Other(describe_decode_detail(&d))),
                },
                Err(m) => Err(AuthError::Other(m)),
            }
        } else if 400 <= status && status <= 499 {
            match parse_json_text(body) {
                Ok(v) => match decode_error_response(&v) {
                    Ok(er) => Err(AuthError::Validation(er)),
                    Err(d) => Err(AuthError::Other(describe_decode_detail(&d))),
                },
                Err(m) => Err(AuthError::Other(m)),
            }
        } else {
            let mut m = "Unexpected status ".to_owned();
            let digits = u64_to_string(status as u64);
            m.append(digits.as_str());
            m.append(" with body: ");
            m.append(body);
            Err(AuthError::Other(m))
        }
    }

    /// The login request: `POST {base}/api/collections/{collection}/auth-with-password`
    /// with the identity and secret as a JSON body.
    pub fn auth_request(&self, collection: &str, identifier: &str, secret: &str) -> (r:
        HttpRequest)
        ensures
            r.method == Method::Post,
            r.url@ == self.base_url@ + "/api/collections/"@ + collection@
                + "/auth-with-password"@,
            pair_views(r.headers@) == base_header_views(self.auth_token, true),
            exists|v: JsonValue|
                #[trigger] auth_payload_rep(identifier@, secret@, v) && (match r.body {
                    Option::Some(b) => b@ == json_text(v),
                    Option::None => false,
                }),
    {
        let url0 = str_concat(self.base_url.as_str(), "/api/collections/");
        let url1 = str_concat(url0.as_str(), collection);
        let url = str_concat(url1.as_str(), "/auth-with-password");
        let mut fs: Vec<(String, JsonValue)> = Vec::new();
        fs.push(("identity".to_owned(), JsonValue::Str(identifier.to_owned())));
        fs.push(("password".to_owned(), JsonValue::Str(secret.to_owned())));
        let payload = JsonValue::Obj(fs);
        let body = to_json_text(&payload);
        let r = Httpc::build_post(self, url, body);
        proof {
            assert(auth_payload_rep(identifier@, secret@, payload));
        }
        r
    }

    /// Attempts to authenticate. On success the returned client is a
    /// fresh authenticated value carrying the token; this anonymous
    /// client is left as it was. The outcome is the classification of
    /// whatever the transport returned.
    pub fn auth_with_password<T: Transport>(
        &self,
        t: &mut T,
        collection: &str,
        identifier: &str,
        secret: &str,
    ) -> (r: Result<Client<Auth>, AuthError>)
        ensures
            r matches Ok(c) ==> c.base_url@ == self.base_url@ && c.auth_token is Some,
            (exists|st: u16, b: Seq<char>|
                #[trigger] auth_classified(self.base_url@, st, b, json_parse(b), r)) || r
                matches Err(AuthError::Other(_)),
    {
        let req = self.auth_request(collection, identifier, secret);
        match t.send(&req) {
            Ok(resp) => {
                let r = self.classify_auth(resp.status, resp.body.as_str());
                proof {
                    assert(auth_classified(
                        self.base_url@,
                        resp.status,
                        resp.body@,
                        json_parse(resp.body@),
                        r,
                    ));
                }
                r
            },
            Err(e) => Err(AuthError::Other(e)),
        }
    }
}

/// The login body: `{identity, password}`.
pub open spec fn auth_payload_rep(ident: Seq<char>, pw: Seq<char>, v: JsonValue) -> bool {
    &&& v matches JsonValue::Obj(fs)
    &&& fs@.len() == 2
    &&& fs@[0].0@ == "identity"@
    &&& fs@[0].1 matches JsonValue::Str(s) && s@ == ident
    &&& fs@[1].0@ == "password"@
    &&& fs@[1].1 matches JsonValue::Str(s2) && s2@ == pw
}

} // verus!
