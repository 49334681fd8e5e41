//! The crate's own model of a JSON document, the trusted bridge to
//! `serde_json` for parsing and rendering, and verified helpers for
//! extracting typed fields while tracking the structural path at which
//! a document diverges from the expected shape.

use vstd::prelude::*;
use vstd::string::*;
use crate::strutil::{dec_rep, str_eq, str_concat, u64_to_string};
use serde_json::Number;
use serde_json::Value;

verus! {

/// A parsed JSON document. Numbers that fit `i64` are held as
/// integers; any other number keeps its decimal text.
#[derive(Debug, PartialEq)]
pub enum JsonValue {
    Null,
    Bool(bool),
    Int(i64),
    Num(String),
    Str(String),
    Arr(Vec<JsonValue>),
    Obj(Vec<(String, JsonValue)>),
}

/// What `serde_json` parses a document into, expressed in the crate's
/// own model; `None` when the text is not valid JSON.
pub uninterp spec fn json_parse(s: Seq<char>) -> Option<JsonValue>;

/// The text `serde_json` renders a value to.
pub uninterp spec fn json_text(v: JsonValue) -> Seq<char>;

/// Declares `serde_json::Value`, the parser's own document type, so
/// the trusted conversions below can name it; it stays opaque here.
#[verifier::external_type_specification]
#[verifier::external_body]
pub struct ExSerdeValue(serde_json::Value);

/// Rebuilds a `serde_json` tree in the crate's own model, variant by
/// variant; part of the trusted boundary around `serde_json::from_str`.
#[verifier::external_body]
fn of_serde_value(v: serde_json::Value) -> JsonValue {
    match v {
        Value::Null => JsonValue::Null,
        Value::Bool(b) => JsonValue::Bool(b),
        Value::Number(n) => match n.as_i64() {
            Some(i) => JsonValue::Int(i),
            None => JsonValue::Num(n.to_string()),
        },
        Value::String(s) => JsonValue::Str(s),
        Value::Array(a) => JsonValue::Arr(a.into_iter().map(of_serde_value).collect()),
        Value::Object(m) => JsonValue::Obj(
            m.into_iter().map(|(k, x)| (k, of_serde_value(x))).collect(),
        ),
    }
}

/// Rebuilds a value of the crate's model as a `serde_json` tree,
/// variant by variant; part of the trusted boundary around
/// `serde_json`'s serializer.
#[verifier::external_body]
fn to_serde_value(v: &JsonValue) -> serde_json::Value {
    match v {
        JsonValue::Null => Value::Null,
        JsonValue::Bool(b) => Value::Bool(*b),
        JsonValue::Int(i) => Value::Number(Number::from(*i)),
        JsonValue::Num(s) => match s.parse::<Number>() {
            Ok(n) => Value::Number(n),
            Err(_) => Value::String(s.clone()),
        },
        JsonValue::Str(s) => Value::String(s.clone()),
        JsonValue::Arr(a) => Value::Array(a.iter().map(to_serde_value).collect()),
        JsonValue::Obj(fs) => Value::Object(
            fs.iter().map(|(k, x)| (k.clone(), to_serde_value(x))).collect(),
        ),
    }
}

/// Relies on `serde_json::from_str`: parses one JSON document; the
/// outcome depends on the text alone. The error text is the parser's
/// own description.
#[verifier::external_body]
pub fn parse_json_text(s: &str) -> (r: Result<JsonValue, String>)
    ensures
        match r {
            Ok(v) => json_parse(s@) == Some(v),
            Err(_) => json_parse(s@) is None,
        },
{
    match serde_json::from_str::<serde_json::Value>(s) {
        Ok(v) => Ok(of_serde_value(v)),
        Err(e) => Err(e.to_string()),
    }
}

/// Relies on `serde_json`'s compact serializer: the rendered text
/// depends on the value alone.
#[verifier::external_body]
pub fn to_json_text(v: &JsonValue) -> (r: String)
    ensures
        r@ == json_text(*v),
{
    to_serde_value(v).to_string()
}

/// Structural equivalence of two documents: the same shape, the same
/// scalar values, keys and text compared by content.
pub open spec fn jeq(a: JsonValue, b: JsonValue) -> bool
    decreases a,
{
    match (a, b) {
        (JsonValue::Null, JsonValue::Null) => true,
        (JsonValue::Bool(x), JsonValue::Bool(y)) => x == y,
        (JsonValue::Int(x), JsonValue::Int(y)) => x == y,
        (JsonValue::Num(x), JsonValue::Num(y)) => x@ == y@,
        (JsonValue::Str(x), JsonValue::Str(y)) => x@ == y@,
        (JsonValue::Arr(x), JsonValue::Arr(y)) => {
            &&& x@.len() == y@.len()
            &&& forall|i: int| 0 <= i < x@.len() ==> jeq(#[trigger] x@[i], y@[i])
        },
        (JsonValue::Obj(x), JsonValue::Obj(y)) => {
            &&& x@.len() == y@.len()
            &&& forall|i: int|
                0 <= i < x@.len() ==> (#[trigger] x@[i]).0@ == y@[i].0@ && jeq(x@[i].1, y@[i].1)
        },
        _ => false,
    }
}

impl JsonValue {
    /// A structurally equivalent copy.
    pub fn deep_copy(&self) -> (r: JsonValue)
        ensures
            jeq(r, *self),
        decreases *self,
    {
        match self {
            JsonValue::Null => JsonValue::Null,
            JsonValue::Bool(b) => JsonValue::Bool(*b),
            JsonValue::Int(i) => JsonValue::Int(*i),
            JsonValue::Num(s) => JsonValue::Num(s.clone()),
            JsonValue::Str(s) => JsonValue::Str(s.clone()),
            JsonValue::Arr(a) => {
                let mut out: Vec<JsonValue> = Vec::new();
                let mut i: usize = 0;
                while i < a.len()
                    invariant
                        i <= a.len(),
                        out@.len() == i,
                        forall|j: int| 0 <= j < i ==> jeq(#[trigger] out@[j], a@[j]),
                        *self == JsonValue::Arr(*a),
                    decreases a.len() - i,
                {
                    proof {
                        assert(self->Arr_0 == *a);
                        assert(decreases_to!(*self => *a));
                        assert(decreases_to!(*a => a@[i as int]));
                        assert(decreases_to!(*self => a@[i as int]));
                    }
                    let c = a[i].deep_copy();
                    out.push(c);
                    i = i + 1;
                }
                JsonValue::Arr(out)
            },
            JsonValue::Obj(fs) => {
                let mut out: Vec<(String, JsonValue)> = Vec::new();
                let mut i: usize = 0;
                while i < fs.len()
                    invariant
                        i <= fs.len(),
                        out@.len() == i,
                        forall|j: int|
                            0 <= j < i ==> (#[trigger] out@[j]).0@ == fs@[j].0@ && jeq(
                                out@[j].1,
                                fs@[j].1,
                            ),
                        *self == JsonValue::Obj(*fs),
                    decreases fs.len() - i,
                {
                    proof {
                        assert(self->Obj_0 == *fs);
                        assert(decreases_to!(*self => *fs));
                        assert(decreases_to!(*fs => fs@[i as int]));
                        assert(decreases_to!(fs@[i as int] => fs@[i as int].1));
                        assert(decreases_to!(*self => fs@[i as int].1));
                    }
                    let k = fs[i].0.clone();
                    let c = fs[i].1.deep_copy();
                    out.push((k, c));
                    i = i + 1;
                }
                JsonValue::Obj(out)
            },
        }
    }
}

/// Pairwise distinct keys, by content: what a map-shaped object
/// guarantees for its field names.
pub open spec fn distinct_keys<V>(entries: Seq<(String, V)>) -> bool {
    forall|i: int, j: int|
        0 <= i < j < entries.len() ==> (#[trigger] entries[i]).0@ != (#[trigger] entries[j]).0@
}

/// Looks a key up in an object's fields: the first binding with that
/// name, as the parser yields the fields.
pub open spec fn obj_get(fs: Seq<(String, JsonValue)>, k: Seq<char>) -> Option<JsonValue>
    decreases fs.len(),
{
    if fs.len() == 0 {
        None
    } else if fs[0].0@ == k {
        Some(fs[0].1)
    } else {
        obj_get(fs.drop_first(), k)
    }
}

pub fn lookup<'a>(fs: &'a Vec<(String, JsonValue)>, k: &str) -> (r: Option<&'a JsonValue>)
    ensures
        match r {
            Some(v) => obj_get(fs@, k@) == Some(*v),
            None => obj_get(fs@, k@) is None,
        },
{
    let mut i: usize = 0;
    proof {
        assert(fs@.skip(0) =~= fs@);
    }
    while i < fs.len()
        invariant
            i <= fs.len(),
            obj_get(fs@, k@) == obj_get(fs@.skip(i as int), k@),
        decreases fs.len() - i,
    {
        proof {
            assert(fs@.skip(i as int).drop_first() =~= fs@.skip(i + 1));
            assert(fs@.skip(i as int)[0] == fs@[i as int]);
        }
        if str_eq(fs[i].0.as_str(), k) {
            return Some(&fs[i].1);
        }
        i = i + 1;
    }
    proof {
        assert(fs@.skip(fs@.len() as int).len() == 0);
    }
    None
}

// ---------------------------------------------------------------------------
// Structural paths, in the notation `items[2].created`.
// ---------------------------------------------------------------------------

/// Extends a path with an object key.
pub open spec fn path_child(p: Seq<char>, k: Seq<char>) -> Seq<char> {
    if p.len() == 0 {
        k
    } else {
        p + "."@ + k
    }
}

/// Extends a path with an array index.
pub open spec fn path_index(p: Seq<char>, i: nat) -> Seq<char> {
    p + "["@ + dec_rep(i) + "]"@
}

/// How a path is reported: the root shows as a lone dot.
pub open spec fn path_disp(p: Seq<char>) -> Seq<char> {
    if p.len() == 0 {
        "."@
    } else {
        p
    }
}

pub fn child_of(p: &str, k: &str) -> (r: String)
    ensures
        r@ == path_child(p@, k@),
{
    if p.is_empty() {
        k.to_owned()
    } else {
        let mut s = p.to_owned();
        s.append(".");
        s.append(k);
        s
    }
}

pub fn index_of(p: &str, i: usize) -> (r: String)
    ensures
        r@ == path_index(p@, i as nat),
{
    let mut s = p.to_owned();
    s.append("[");
    let d = u64_to_string(i as u64);
    s.append(d.as_str());
    s.append("]");
    s
}

pub fn disp_of(p: &str) -> (r: String)
    ensures
        r@ == path_disp(p@),
{
    if p.is_empty() {
        ".".to_owned()
    } else {
        p.to_owned()
    }
}

// ---------------------------------------------------------------------------
// Decode failures: the structural path where the document diverged,
// and a description of how.
// ---------------------------------------------------------------------------

/// Where and how decoding a JSON document failed.
#[derive(Debug, Clone, PartialEq)]
pub struct DecodeDetail {
    pub path: String,
    pub message: String,
}

/// Relates an executable decode outcome to its specification: the
/// values agree, and a failure carries the specified path and message.
pub open spec fn dec_matches<T>(
    r: Result<T, DecodeDetail>,
    s: Result<T, (Seq<char>, Seq<char>)>,
) -> bool {
    match (r, s) {
        (Ok(a), Ok(b)) => a == b,
        (Err(e), Err(p)) => e.path@ == p.0 && e.message@ == p.1,
        _ => false,
    }
}

pub open spec fn smsg_missing(k: Seq<char>) -> Seq<char> {
    "missing field `"@ + k + "`"@
}

pub fn msg_missing(k: &str) -> (r: String)
    ensures
        r@ == smsg_missing(k@),
{
    let s = str_concat("missing field `", k);
    str_concat(s.as_str(), "`")
}

// ---------------------------------------------------------------------------
// Typed field extraction from an object's fields.
// ---------------------------------------------------------------------------

/// A required string field.
pub open spec fn sfield_str(
    fs: Seq<(String, JsonValue)>,
    k: Seq<char>,
    p: Seq<char>,
) -> Result<String, (Seq<char>, Seq<char>)> {
    match obj_get(fs, k) {
        Option::None => Err((path_disp(p), smsg_missing(k))),
        Option::Some(JsonValue::Str(s)) => Ok(s),
        Option::Some(_) => Err((path_child(p, k), "expected a string"@)),
    }
}

pub fn field_str(fs: &Vec<(String, JsonValue)>, k: &str, p: &str) -> (r: Result<
    String,
    DecodeDetail,
>)
    ensures
        dec_matches(r, sfield_str(fs@, k@, p@)),
{
    match lookup(fs, k) {
        Option::None => Err(
            DecodeDetail { path: disp_of(p), message: msg_missing(k) },
        ),
        Option::Some(JsonValue::Str(s)) => Ok(s.clone()),
        Option::Some(_) => Err(
            DecodeDetail { path: child_of(p, k), message: "expected a string".to_owned() },
        ),
    }
}

/// A required integer field that must fit `i32`.
pub open spec fn sfield_i32(
    fs: Seq<(String, JsonValue)>,
    k: Seq<char>,
    p: Seq<char>,
) -> Result<i32, (Seq<char>, Seq<char>)> {
    match obj_get(fs, k) {
        Option::None => Err((path_disp(p), smsg_missing(k))),
        Option::Some(JsonValue::Int(x)) => if i32::MIN <= x <= i32::MAX {
            Ok(x as i32)
        } else {
            Err((path_child(p, k), "integer out of range"@))
        },
        Option::Some(_) => Err((path_child(p, k), "expected an integer"@)),
    }
}

pub fn field_i32(fs: &Vec<(String, JsonValue)>, k: &str, p: &str) -> (r: Result<
    i32,
    DecodeDetail,
>)
    ensures
        dec_matches(r, sfield_i32(fs@, k@, p@)),
{
    match lookup(fs, k) {
        Option::None => Err(
            DecodeDetail { path: disp_of(p), message: msg_missing(k) },
        ),
        Option::Some(JsonValue::Int(x)) => {
            let x = *x;
            if i32::MIN as i64 <= x && x <= i32::MAX as i64 {
                Ok(x as i32)
            } else {
                Err(
                    DecodeDetail {
                        path: child_of(p, k),
                        message: "integer out of range".to_owned(),
                    },
                )
            }
        },
        Option::Some(_) => Err(
            DecodeDetail { path: child_of(p, k), message: "expected an integer".to_owned() },
        ),
    }
}

/// A required boolean field.
pub open spec fn sfield_bool(
    fs: Seq<(String, JsonValue)>,
    k: Seq<char>,
    p: Seq<char>,
) -> Result<bool, (Seq<char>, Seq<char>)> {
    match obj_get(fs, k) {
        Option::None => Err((path_disp(p), smsg_missing(k))),
        Option::Some(JsonValue::Bool(b)) => Ok(b),
        Option::Some(_) => Err((path_child(p, k), "expected a boolean"@)),
    }
}

pub fn field_bool(fs: &Vec<(String, JsonValue)>, k: &str, p: &str) -> (r: Result<
    bool,
    DecodeDetail,
>)
    ensures
        dec_matches(r, sfield_bool(fs@, k@, p@)),
{
    match lookup(fs, k) {
        Option::None => Err(
            DecodeDetail { path: disp_of(p), message: msg_missing(k) },
        ),
        Option::Some(JsonValue::Bool(b)) => Ok(*b),
        Option::Some(_) => Err(
            DecodeDetail { path: child_of(p, k), message: "expected a boolean".to_owned() },
        ),
    }
}

/// A required date-time field: a string in RFC 3339 form, kept as its
/// text.
pub open spec fn sfield_datetime(
    fs: Seq<(String, JsonValue)>,
    k: Seq<char>,
    p: Seq<char>,
) -> Result<String, (Seq<char>, Seq<char>)> {
    match obj_get(fs, k) {
        Option::None => Err((path_disp(p), smsg_missing(k))),
        Option::Some(JsonValue::Str(s)) => if crate::datetime::datetime_utc(s@) is Some {
            Ok(s)
        } else {
            Err((path_child(p, k), "expected a datetime string"@))
        },
        Option::Some(_) => Err((path_child(p, k), "expected a datetime string"@)),
    }
}

pub fn field_datetime(fs: &Vec<(String, JsonValue)>, k: &str, p: &str) -> (r: Result<
    String,
    DecodeDetail,
>)
    ensures
        dec_matches(r, sfield_datetime(fs@, k@, p@)),
{
    match lookup(fs, k) {
        Option::None => Err(
            DecodeDetail { path: disp_of(p), message: msg_missing(k) },
        ),
        Option::Some(JsonValue::Str(s)) => {
            if crate::datetime::parse_rfc3339_utc(s.as_str()).is_some() {
                Ok(s.clone())
            } else {
                Err(
                    DecodeDetail {
                        path: child_of(p, k),
                        message: "expected a datetime string".to_owned(),
                    },
                )
            }
        },
        Option::Some(_) => Err(
            DecodeDetail {
                path: child_of(p, k),
                message: "expected a datetime string".to_owned(),
            },
        ),
    }
}

/// An optional string field: absent or `null` yields `None`.
pub open spec fn sfield_opt_str(
    fs: Seq<(String, JsonValue)>,
    k: Seq<char>,
    p: Seq<char>,
) -> Result<Option<String>, (Seq<char>, Seq<char>)> {
    match obj_get(fs, k) {
        Option::None => Ok(Option::None),
        Option::Some(JsonValue::Null) => Ok(Option::None),
        Option::Some(JsonValue::Str(s)) => Ok(Option::Some(s)),
        Option::Some(_) => Err((path_child(p, k), "expected a string"@)),
    }
}

pub fn field_opt_str(fs: &Vec<(String, JsonValue)>, k: &str, p: &str) -> (r: Result<
    Option<String>,
    DecodeDetail,
>)
    ensures
        dec_matches(r, sfield_opt_str(fs@, k@, p@)),
{
    match lookup(fs, k) {
        Option::None => Ok(Option::None),
        Option::Some(JsonValue::Null) => Ok(Option::None),
        Option::Some(JsonValue::Str(s)) => Ok(Option::Some(s.clone())),
        Option::Some(_) => Err(
            DecodeDetail { path: child_of(p, k), message: "expected a string".to_owned() },
        ),
    }
}

} // verus!
