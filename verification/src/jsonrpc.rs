//! JSON-RPC 2.0 envelopes: requests, responses and error objects, read from
//! and written to JSON values.

use vstd::prelude::*;
use vstd::string::*;
use crate::error::{A2AError, INVALID_REQUEST};
use crate::json::{JsonData, JsonNumber, JsonValue, NumberData};
use crate::text::{owned, str_eq, concat2};
use crate::ids::new_uuid_string;

verus! {

/// The id of a JSON-RPC request.
#[derive(Debug)]
pub enum JSONRPCId {
    String(String),
    Number(i64),
    Null,
}

/// The content of a request id.
pub enum IdData {
    String(Seq<char>),
    Number(i64),
    Null,
}

impl DeepView for JSONRPCId {
    type V = IdData;

    open spec fn deep_view(&self) -> IdData {
        match self {
            JSONRPCId::String(s) => IdData::String(s@),
            JSONRPCId::Number(n) => IdData::Number(*n),
            JSONRPCId::Null => IdData::Null,
        }
    }
}

impl Clone for JSONRPCId {
    fn clone(&self) -> (r: Self)
        ensures
            r.deep_view() == self.deep_view(),
    {
        match self {
            JSONRPCId::String(s) => JSONRPCId::String(s.clone()),
            JSONRPCId::Number(n) => JSONRPCId::Number(*n),
            JSONRPCId::Null => JSONRPCId::Null,
        }
    }
}

/// A JSON-RPC error object.
#[derive(Debug)]
pub struct JSONRPCError {
    pub code: i32,
    pub message: String,
    pub data: Option<JsonValue>,
}

impl JSONRPCError {
    /// An error with the given code and message and no data.
    pub fn new(code: i32, message: String) -> (r: Self)
        ensures
            r.code == code,
            r.message@ == message@,
            r.data is None,
    {
        JSONRPCError { code, message, data: None }
    }
}

/// A JSON-RPC request.
#[derive(Debug)]
pub struct JSONRPCRequest {
    pub jsonrpc: String,
    pub method: String,
    pub params: Option<JsonValue>,
    pub id: Option<JSONRPCId>,
}

/// The request id a JSON value denotes: a string, an integer that fits in
/// an `i64`, or null; other values denote no id.
pub open spec fn id_of(v: JsonData) -> Option<IdData> {
    match v {
        JsonData::Str(s) => Some(IdData::String(s)),
        JsonData::Null => Some(IdData::Null),
        JsonData::Number(_) => match v.as_i64() {
            Some(n) => Some(IdData::Number(n)),
            None => None,
        },
        _ => None,
    }
}

/// The JSON value of a request id (null when there is none).
pub open spec fn id_json(id: Option<IdData>) -> JsonData {
    match id {
        Some(IdData::String(s)) => JsonData::Str(s),
        Some(IdData::Number(n)) => if n >= 0 {
            JsonData::Number(NumberData::PosInt(n as u64))
        } else {
            JsonData::Number(NumberData::NegInt(n))
        },
        _ => JsonData::Null,
    }
}

/// Reads a request id from a JSON value.
pub fn id_from_value(v: &JsonValue) -> (r: Option<JSONRPCId>)
    ensures
        r.deep_view() == id_of(v.deep_view()),
{
    match v {
        JsonValue::String(s) => Some(JSONRPCId::String(s.clone())),
        JsonValue::Null => Some(JSONRPCId::Null),
        JsonValue::Number(_) => match v.as_i64() {
            Some(n) => Some(JSONRPCId::Number(n)),
            None => None,
        },
        _ => None,
    }
}

/// The JSON value of a request id; null when there is none.
pub fn id_to_value(id: &Option<JSONRPCId>) -> (r: JsonValue)
    ensures
        r.deep_view() == id_json(id.deep_view()),
{
    match id {
        Some(JSONRPCId::String(s)) => JsonValue::String(s.clone()),
        Some(JSONRPCId::Number(n)) => if *n >= 0 {
            JsonValue::Number(JsonNumber::PosInt(*n as u64))
        } else {
            JsonValue::Number(JsonNumber::NegInt(*n))
        },
        _ => JsonValue::Null,
    }
}

/// A JSON object with the given members, in order.
pub open spec fn object(members: Seq<(Seq<char>, JsonData)>) -> JsonData {
    JsonData::Object(members)
}

fn member(name: &str, value: JsonValue) -> (r: (String, JsonValue))
    ensures
        r.0@ == name@,
        r.1.deep_view() == value.deep_view(),
{
    (owned(name), value)
}

fn object3(a: (String, JsonValue), b: (String, JsonValue), c: (String, JsonValue)) -> (r: JsonValue)
    ensures
        r.deep_view() == object(seq![(a.0@, a.1.deep_view()), (b.0@, b.1.deep_view()), (c.0@, c.1.deep_view())]),
{
    let mut v: Vec<(String, JsonValue)> = Vec::new();
    v.push(a);
    v.push(b);
    v.push(c);
    let r = JsonValue::Object(v);
    proof {
        reveal_with_fuel(crate::json::member_seq_data, 4);
        assert(v@.drop_last().drop_last().drop_last() =~= Seq::<(String, JsonValue)>::empty());
        assert(v@.drop_last().drop_last() =~= seq![v@[0]]);
        assert(v@.drop_last() =~= seq![v@[0], v@[1]]);
        assert(crate::json::member_seq_data(v@) =~= seq![(v@[0].0@, crate::json::json_data(v@[0].1)),
            (v@[1].0@, crate::json::json_data(v@[1].1)), (v@[2].0@, crate::json::json_data(v@[2].1))]);
    }
    r
}

fn object4(a: (String, JsonValue), b: (String, JsonValue), c: (String, JsonValue), d: (String, JsonValue)) -> (r: JsonValue)
    ensures
        r.deep_view() == object(seq![(a.0@, a.1.deep_view()), (b.0@, b.1.deep_view()), (c.0@, c.1.deep_view()), (d.0@, d.1.deep_view())]),
{
    let mut v: Vec<(String, JsonValue)> = Vec::new();
    v.push(a);
    v.push(b);
    v.push(c);
    v.push(d);
    let r = JsonValue::Object(v);
    proof {
        reveal_with_fuel(crate::json::member_seq_data, 5);
        assert(v@.drop_last().drop_last().drop_last().drop_last() =~= Seq::<(String, JsonValue)>::empty());
        assert(v@.drop_last().drop_last().drop_last() =~= seq![v@[0]]);
        assert(v@.drop_last().drop_last() =~= seq![v@[0], v@[1]]);
        assert(v@.drop_last() =~= seq![v@[0], v@[1], v@[2]]);
        assert(crate::json::member_seq_data(v@) =~= seq![(v@[0].0@, crate::json::json_data(v@[0].1)),
            (v@[1].0@, crate::json::json_data(v@[1].1)), (v@[2].0@, crate::json::json_data(v@[2].1)),
            (v@[3].0@, crate::json::json_data(v@[3].1))]);
    }
    r
}

/// A JSON-RPC request object: version "2.0", the method, the parameters
/// and the id, in that order.
pub open spec fn request_json(method: Seq<char>, params: JsonData, id: Seq<char>) -> JsonData {
    object(seq![("jsonrpc"@, JsonData::Str("2.0"@)), ("method"@, JsonData::Str(method)), ("params"@, params),
        ("id"@, JsonData::Str(id))])
}

/// A JSON-RPC request object with the given id.
pub fn jsonrpc_request_with_id(method: &str, params: JsonValue, id: String) -> (r: JsonValue)
    ensures
        r.deep_view() == request_json(method@, params.deep_view(), id@),
{
    let ghost p = params.deep_view();
    let ghost i = id@;
    let r = object4(
        member("jsonrpc", JsonValue::string("2.0")),
        member("method", JsonValue::string(method)),
        member("params", params),
        member("id", JsonValue::String(id)),
    );
    r
}

/// A JSON-RPC request object whose id is a fresh random UUID.
pub fn create_jsonrpc_request(method: &str, params: JsonValue) -> (r: JsonValue)
    ensures
        exists|id: Seq<char>| r.deep_view() == #[trigger] request_json(method@, params.deep_view(), id)
            && crate::ids::uuid_canonical_text(id) == Some(id),
{
    let id = new_uuid_string();
    let ghost i = id@;
    let r = jsonrpc_request_with_id(method, params, id);
    assert(r.deep_view() == request_json(method@, params.deep_view(), i));
    r
}

/// A success response: version "2.0", the result and the request's id.
pub open spec fn success_json(result: JsonData, id: Option<IdData>) -> JsonData {
    object(seq![("jsonrpc"@, JsonData::Str("2.0"@)), ("result"@, result), ("id"@, id_json(id))])
}

/// A success response to the request with id `id`.
pub fn success_response(result: JsonValue, id: &Option<JSONRPCId>) -> (r: JsonValue)
    ensures
        r.deep_view() == success_json(result.deep_view(), id.deep_view()),
{
    object3(member("jsonrpc", JsonValue::string("2.0")), member("result", result), member("id", id_to_value(id)))
}

/// The JSON value of an error object: code, message, and data when there
/// is some.
pub open spec fn error_json(code: i32, message: Seq<char>, data: Option<JsonData>) -> JsonData {
    let base = seq![("code"@, int_json(code as i64)), ("message"@, JsonData::Str(message))];
    match data {
        Some(d) => object(base.push(("data"@, d))),
        None => object(base),
    }
}

/// The JSON value of an integer.
pub open spec fn int_json(n: i64) -> JsonData {
    if n >= 0 {
        JsonData::Number(NumberData::PosInt(n as u64))
    } else {
        JsonData::Number(NumberData::NegInt(n))
    }
}

/// An error response: version "2.0", the error object and the request's
/// id.
pub open spec fn error_response_json(code: i32, message: Seq<char>, data: Option<JsonData>, id: Option<IdData>) -> JsonData {
    object(seq![("jsonrpc"@, JsonData::Str("2.0"@)), ("error"@, error_json(code, message, data)), ("id"@, id_json(id))])
}

/// The JSON value of an error object.
pub fn error_to_value(e: &JSONRPCError) -> (r: JsonValue)
    ensures
        r.deep_view() == error_json(e.code, e.message@, e.data.deep_view()),
{
    let code = JsonValue::from_i64(e.code as i64);
    assert(code.deep_view() == int_json(e.code as i64));
    let mut v: Vec<(String, JsonValue)> = Vec::new();
    v.push(member("code", code));
    v.push(member("message", JsonValue::String(e.message.clone())));
    let has_data = e.data.is_some();
    match &e.data {
        Some(d) => {
            v.push(member("data", d.clone()));
        },
        None => {},
    }
    let r = JsonValue::Object(v);
    proof {
        reveal_with_fuel(crate::json::member_seq_data, 4);
        let m0 = (v@[0].0@, crate::json::json_data(v@[0].1));
        let m1 = (v@[1].0@, crate::json::json_data(v@[1].1));
        if has_data {
            assert(v@.drop_last().drop_last().drop_last() =~= Seq::<(String, JsonValue)>::empty());
            assert(v@.drop_last().drop_last() =~= seq![v@[0]]);
            assert(v@.drop_last() =~= seq![v@[0], v@[1]]);
            let m2 = (v@[2].0@, crate::json::json_data(v@[2].1));
            assert(crate::json::member_seq_data(v@) =~= seq![m0, m1, m2]);
            assert(seq![m0, m1, m2] =~= seq![m0, m1].push(m2));
        } else {
            assert(v@.drop_last().drop_last() =~= Seq::<(String, JsonValue)>::empty());
            assert(v@.drop_last() =~= seq![v@[0]]);
            assert(crate::json::member_seq_data(v@) =~= seq![m0, m1]);
        }
    }
    r
}

/// An error response to the request with id `id`.
pub fn error_response(id: &Option<JSONRPCId>, e: &JSONRPCError) -> (r: JsonValue)
    ensures
        r.deep_view() == error_response_json(e.code, e.message@, e.data.deep_view(), id.deep_view()),
{
    object3(member("jsonrpc", JsonValue::string("2.0")), member("error", error_to_value(e)), member("id", id_to_value(id)))
}

/// The message of a request that is not valid JSON-RPC 2.0.
pub open spec fn bad_version_message() -> Seq<char> {
    "Invalid or missing 'jsonrpc' version field"@
}

/// How a JSON value reads as a request: it must name version "2.0" and a
/// method as a string; the parameters default to null, and the id is read
/// as `id_of` reads it.
pub open spec fn request_outcome(v: JsonData) -> Result<(Seq<char>, JsonData, Option<IdData>), (i32, Seq<char>)> {
    if !(v.get("jsonrpc"@) matches Some(j) && j == JsonData::Str("2.0"@)) {
        Err((INVALID_REQUEST, bad_version_message()))
    } else if !(v.get("method"@) matches Some(m) && m is Str) {
        Err((INVALID_REQUEST, "Missing 'method' field"@))
    } else {
        Ok((
            v.get("method"@)->0->Str_0,
            match v.get("params"@) {
                Some(p) => p,
                None => JsonData::Null,
            },
            match v.get("id"@) {
                Some(i) => id_of(i),
                None => None,
            },
        ))
    }
}

/// Reads a JSON-RPC request (see `request_outcome`).
pub fn parse_request(request: &JsonValue) -> (r: Result<JSONRPCRequest, JSONRPCError>)
    ensures
        r is Ok == request_outcome(request.deep_view()) is Ok,
        r matches Ok(q) ==> request_outcome(request.deep_view()) == Ok::<_, (i32, Seq<char>)>((q.method@,
            q.params->0.deep_view(), q.id.deep_view())) && q.jsonrpc@ == "2.0"@ && q.params is Some,
        r matches Err(e) ==> request_outcome(request.deep_view()) == Err::<(Seq<char>, JsonData, Option<IdData>), _>((
            e.code, e.message@)) && e.data is None,
{
    proof {
        reveal_strlit("2.0");
    }
    let version_ok = match request.get("jsonrpc") {
        Some(j) => match j.as_str() {
            Some(s) => str_eq(s, "2.0"),
            None => false,
        },
        None => false,
    };
    if !version_ok {
        return Err(JSONRPCError::new(INVALID_REQUEST, owned("Invalid or missing 'jsonrpc' version field")));
    }
    let method = match request.get("method") {
        Some(m) => match m.as_str() {
            Some(s) => owned(s),
            None => return Err(JSONRPCError::new(INVALID_REQUEST, owned("Missing 'method' field"))),
        },
        None => return Err(JSONRPCError::new(INVALID_REQUEST, owned("Missing 'method' field"))),
    };
    let params = match request.get("params") {
        Some(p) => p.clone(),
        None => JsonValue::Null,
    };
    let id = match request.get("id") {
        Some(i) => id_from_value(i),
        None => None,
    };
    Ok(JSONRPCRequest { jsonrpc: owned("2.0"), method, params: Some(params), id })
}

/// What a JSON-RPC response carries.
#[derive(Debug)]
pub enum JsonRpcReply {
    Success(JsonValue),
    Error { code: i32, message: String },
}

/// The error object a JSON value denotes: an object whose "code" is an
/// integer that fits in an `i32` and whose "message" is a string.
pub open spec fn error_object_of(v: JsonData) -> Option<(i32, Seq<char>)> {
    match v.get("code"@) {
        Some(c) => match c.as_i64() {
            Some(n) => if i32::MIN <= n <= i32::MAX {
                match v.get("message"@) {
                    Some(JsonData::Str(m)) => Some((n as i32, m)),
                    _ => None,
                }
            } else {
                None
            },
            None => None,
        },
        None => None,
    }
}

/// How a JSON-RPC response reads: an "error" member that is an error
/// object, or else a "result" member; a response with neither is refused,
/// as is one whose error member is not an error object.
pub open spec fn reply_outcome(v: JsonData) -> Result<Result<JsonData, (i32, Seq<char>)>, Seq<char>> {
    if v.get("error"@) is Some {
        match error_object_of(v.get("error"@)->0) {
            Some(e) => Ok(Err(e)),
            None => Err("Failed to parse JSON-RPC error: invalid error object"@),
        }
    } else if v.get("result"@) is Some {
        Ok(Ok(v.get("result"@)->0))
    } else {
        Err("Invalid JSON-RPC response: missing result or error"@)
    }
}

/// Reads a JSON-RPC response (see `reply_outcome`); a refusal is a JSON
/// error.
pub fn parse_jsonrpc_response(value: &JsonValue) -> (r: Result<JsonRpcReply, A2AError>)
    ensures
        r is Ok == reply_outcome(value.deep_view()) is Ok,
        r matches Ok(JsonRpcReply::Success(x)) ==> reply_outcome(value.deep_view()) == Ok::<_, Seq<char>>(
            Ok::<_, (i32, Seq<char>)>(x.deep_view())),
        r matches Ok(JsonRpcReply::Error { code, message }) ==> reply_outcome(value.deep_view()) == Ok::<_, Seq<char>>(
            Err::<JsonData, _>((code, message@))),
        r matches Err(e) ==> e matches A2AError::JsonParse(m) && reply_outcome(value.deep_view()) == Err::<
            Result<JsonData, (i32, Seq<char>)>,
            _,
        >(m@),
{
    match value.get("error") {
        Some(err) => {
            let code = match err.get("code") {
                Some(c) => c.as_i64(),
                None => None,
            };
            let message = match err.get("message") {
                Some(m) => m.as_str(),
                None => None,
            };
            match (code, message) {
                (Some(n), Some(m)) => {
                    if i32::MIN as i64 <= n && n <= i32::MAX as i64 {
                        Ok(JsonRpcReply::Error { code: n as i32, message: owned(m) })
                    } else {
                        Err(A2AError::json_error(owned("Failed to parse JSON-RPC error: invalid error object")))
                    }
                },
                _ => Err(A2AError::json_error(owned("Failed to parse JSON-RPC error: invalid error object"))),
            }
        },
        None => match value.get("result") {
            Some(res) => Ok(JsonRpcReply::Success(res.clone())),
            None => Err(A2AError::json_error(owned("Invalid JSON-RPC response: missing result or error"))),
        },
    }
}

/// The result of a JSON-RPC response: its result member, or the error the
/// remote side reported, or the refusal of the response.
pub fn jsonrpc_result(value: &JsonValue) -> (r: Result<JsonValue, A2AError>)
    ensures
        reply_outcome(value.deep_view()) matches Ok(Ok(x)) ==> r matches Ok(y) && y.deep_view() == x,
        reply_outcome(value.deep_view()) matches Ok(Err(e)) ==> r matches Err(A2AError::JsonRpc { code, message })
            && code == e.0 && message@ == e.1,
        reply_outcome(value.deep_view()) matches Err(m) ==> r matches Err(A2AError::JsonParse(x)) && x@ == m,
{
    match parse_jsonrpc_response(value) {
        Ok(JsonRpcReply::Success(x)) => Ok(x),
        Ok(JsonRpcReply::Error { code, message }) => Err(A2AError::jsonrpc_error(code, message)),
        Err(e) => Err(e),
    }
}

proof fn lemma_member_keys_differ()
    ensures
        "jsonrpc"@ != "method"@,
        "jsonrpc"@ != "params"@,
        "jsonrpc"@ != "id"@,
        "method"@ != "params"@,
        "method"@ != "id"@,
        "params"@ != "id"@,
        "jsonrpc"@ != "error"@,
        "result"@ != "error"@,
        "id"@ != "error"@,
        "jsonrpc"@ != "result"@,
        "code"@ != "message"@,
{
    reveal_strlit("jsonrpc");
    reveal_strlit("method");
    reveal_strlit("params");
    reveal_strlit("id");
    reveal_strlit("error");
    reveal_strlit("result");
    reveal_strlit("code");
    reveal_strlit("message");
    assert("jsonrpc"@.len() == 7 && "method"@.len() == 6 && "params"@.len() == 6 && "id"@.len() == 2);
    assert("error"@.len() == 5 && "result"@.len() == 6 && "code"@.len() == 4 && "message"@.len() == 7);
    assert("method"@[0] != "params"@[0]);
    assert("result"@[0] != "method"@[0]);
}

/// A request that a client builds is read by a server as the same method,
/// parameters and id.
pub proof fn law_request_round_trip(method: Seq<char>, params: JsonData, id: Seq<char>)
    ensures
        request_outcome(request_json(method, params, id)) == Ok::<_, (i32, Seq<char>)>((
            method,
            params,
            Some(IdData::String(id)),
        )),
{
    lemma_member_keys_differ();
    let members = seq![("jsonrpc"@, JsonData::Str("2.0"@)), ("method"@, JsonData::Str(method)), ("params"@, params),
        ("id"@, JsonData::Str(id))];
    reveal_with_fuel(crate::json::member_lookup, 5);
    assert(members.drop_first() =~= seq![("method"@, JsonData::Str(method)), ("params"@, params), ("id"@, JsonData::Str(id))]);
    assert(members.drop_first().drop_first() =~= seq![("params"@, params), ("id"@, JsonData::Str(id))]);
    assert(members.drop_first().drop_first().drop_first() =~= seq![("id"@, JsonData::Str(id))]);
}

/// What a server answers with a result, a client reads as that result.
pub proof fn law_success_round_trip(result: JsonData, id: Option<IdData>)
    ensures
        reply_outcome(success_json(result, id)) == Ok::<_, Seq<char>>(Ok::<_, (i32, Seq<char>)>(result)),
{
    lemma_member_keys_differ();
    let members = seq![("jsonrpc"@, JsonData::Str("2.0"@)), ("result"@, result), ("id"@, id_json(id))];
    reveal_with_fuel(crate::json::member_lookup, 4);
    assert(members.drop_first() =~= seq![("result"@, result), ("id"@, id_json(id))]);
    assert(members.drop_first().drop_first() =~= seq![("id"@, id_json(id))]);
    assert(members.drop_first().drop_first().drop_first() =~= Seq::<(Seq<char>, JsonData)>::empty());
}

/// What a server answers with an error (without data), a client reads as
/// that error's code and message.
pub proof fn law_error_round_trip(code: i32, message: Seq<char>, id: Option<IdData>)
    ensures
        reply_outcome(error_response_json(code, message, None, id)) == Ok::<_, Seq<char>>(Err::<JsonData, _>((code, message))),
{
    lemma_member_keys_differ();
    let e = error_json(code, message, None);
    let members = seq![("jsonrpc"@, JsonData::Str("2.0"@)), ("error"@, e), ("id"@, id_json(id))];
    reveal_with_fuel(crate::json::member_lookup, 4);
    assert(members.drop_first() =~= seq![("error"@, e), ("id"@, id_json(id))]);
    let em = seq![("code"@, int_json(code as i64)), ("message"@, JsonData::Str(message))];
    assert(em.drop_first() =~= seq![("message"@, JsonData::Str(message))]);
    assert(int_json(code as i64).as_i64() == Some(code as i64));
}

} // verus!
