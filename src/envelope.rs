use vstd::prelude::*;
use crate::decimal::{decimal, decimal_text, lemma_decimal_round_trip};
use crate::json::{
    i32_value, is_json_text, json_doc, json_text, member, member_in, present_member, opt_json, str_member,
    u64_value, Json, JsonValue,
};
use crate::types::{
    lemma_method_name_round_trip, method_name, method_named, ClientError, RequestType,
};

verus! {

/// The protocol tag of every envelope.
pub open spec fn protocol_tag() -> Seq<char> {
    "2.0"@
}

/// One request: method `method` with `params`, under id `id`.
#[derive(Debug, Clone)]
pub struct JsonRpcRequest {
    pub id: u64,
    pub method: RequestType,
    pub params: Json,
}

/// The envelope of request `r` as a JSON object.
pub open spec fn request_json(r: JsonRpcRequest) -> JsonValue {
    JsonValue::Object(
        seq![
            ("jsonrpc"@, JsonValue::Str(protocol_tag())),
            ("id"@, JsonValue::Number(decimal(r.id as nat))),
            ("method"@, JsonValue::Str(method_name(r.method))),
            ("params"@, r.params@),
        ],
    )
}

/// A string member.
fn text_member(key: &str, value: &str) -> (r: (String, Json))
    ensures
        r.0@ == key@,
        r.1@ == JsonValue::Str(value@),
{
    (String::from_str(key), Json::Str(String::from_str(value)))
}

impl JsonRpcRequest {
    /// A request of `method` with `params` under `id`.
    pub fn new(id: u64, method: RequestType, params: Json) -> (r: JsonRpcRequest)
        ensures
            r.id == id,
            r.method == method,
            r.params@ == params@,
    {
        JsonRpcRequest { id, method, params }
    }

    /// The envelope as a JSON object:
    /// `{"jsonrpc":"2.0","id":<id>,"method":<name>,"params":<params>}`.
    pub fn to_json(&self) -> (r: Json)
        ensures
            r@ == request_json(*self),
    {
        let mut members: Vec<(String, Json)> = Vec::new();
        members.push(text_member("jsonrpc", "2.0"));
        let id_text = decimal_text(self.id);
        members.push((String::from_str("id"), Json::Number(id_text)));
        members.push(text_member("method", self.method.as_str()));
        members.push((String::from_str("params"), self.params.deep_copy()));
        let r = Json::Object(members);
        assert(r == Json::Object(members));
        assert(r@->Object_0.len() == 4);
        assert(r@->Object_0[0] == request_json(*self)->Object_0[0]);
        assert(members@[1].0@ == "id"@);
        assert(members@[1].1@ == JsonValue::Number(decimal(self.id as nat)));
        assert(r@->Object_0[1] == request_json(*self)->Object_0[1]);
        assert(r@->Object_0[2] == request_json(*self)->Object_0[2]);
        assert(r@->Object_0[3] == request_json(*self)->Object_0[3]);
        assert(r@->Object_0 =~= request_json(*self)->Object_0);
        r
    }

    /// The line that carries this request, newline not included.
    pub fn encode(&self) -> (r: String)
        ensures
            r@ == json_text(request_json(*self)),
    {
        self.to_json().to_text()
    }

    /// `v` is the envelope of a request, as a peer reads it.
    pub open spec fn json_ok(v: JsonValue) -> bool {
        &&& str_member(v, "jsonrpc"@) == Some(protocol_tag())
        &&& member(v, "id"@) matches Some(i) && u64_value(i) is Some
        &&& str_member(v, "method"@) matches Some(m) && method_named(m) is Some
        &&& member(v, "params"@) is Some
    }

    /// `r` is the request that envelope `v` carries.
    pub open spec fn json_from(v: JsonValue, r: JsonRpcRequest) -> bool {
        &&& member(v, "id"@) matches Some(i) && u64_value(i) == Some(r.id)
        &&& str_member(v, "method"@) matches Some(m) && method_named(m) == Some(r.method)
        &&& member(v, "params"@) == Some(r.params@)
    }

    /// Reads a request envelope, as the peer that serves it does.
    pub fn from_json(v: &Json) -> (r: Option<JsonRpcRequest>)
        ensures
            r is Some <==> Self::json_ok(v@),
            r matches Some(x) ==> Self::json_from(v@, x),
    {
        let tag = match v.get_str("jsonrpc") {
            Some(t) => t,
            None => {
                return None;
            },
        };
        if !crate::types::same_text(tag.as_str(), "2.0") {
            return None;
        }
        let id = match v.get("id") {
            Some(i) => match i.as_u64() {
                Some(id) => id,
                None => {
                    return None;
                },
            },
            None => {
                return None;
            },
        };
        let method = match v.get_str("method") {
            Some(m) => match RequestType::from_name(m.as_str()) {
                Some(method) => method,
                None => {
                    return None;
                },
            },
            None => {
                return None;
            },
        };
        match v.get("params") {
            Some(p) => Some(JsonRpcRequest { id, method, params: p.deep_copy() }),
            None => None,
        }
    }
}

/// A peer that reads the envelope of a request gets the same id, method and
/// params back.
pub proof fn lemma_request_round_trip(r: JsonRpcRequest)
    ensures
        JsonRpcRequest::json_ok(request_json(r)),
        forall|q: JsonRpcRequest|
            JsonRpcRequest::json_from(request_json(r), q) ==> q.id == r.id && q.method == r.method
                && q.params@ == r.params@,
{
    reveal_strlit("jsonrpc");
    reveal_strlit("id");
    reveal_strlit("method");
    reveal_strlit("params");
    reveal_with_fuel(member_in, 5);
    let ms = request_json(r)->Object_0;
    assert(ms.drop_first() =~= seq![ms[1], ms[2], ms[3]]);
    assert(ms.drop_first().drop_first() =~= seq![ms[2], ms[3]]);
    assert(ms.drop_first().drop_first().drop_first() =~= seq![ms[3]]);
    assert("jsonrpc"@.len() == 7);
    assert("id"@.len() == 2);
    assert(ms[0].0 == "jsonrpc"@);
    assert(ms[0].0 != "id"@ && ms[0].0 != "method"@ && ms[0].0 != "params"@);
    assert(ms[1].0 != "method"@ && ms[1].0 != "params"@);
    assert("method"@[0] != "params"@[0]);
    assert(ms[2].0 != "params"@);
    assert(member_in(ms, "id"@) == Some(JsonValue::Number(decimal(r.id as nat))));
    assert(member_in(ms, "method"@) == Some(JsonValue::Str(method_name(r.method))));
    assert(member_in(ms, "params"@) == Some(r.params@));
    assert(member_in(ms, "jsonrpc"@) == Some(JsonValue::Str(protocol_tag())));
    lemma_decimal_round_trip(r.id as nat);
    lemma_method_name_round_trip(r.method);
}

/// The error that a failure envelope carries.
#[derive(Debug, Clone)]
pub struct JsonRpcError {
    pub code: i32,
    pub message: String,
    pub data: Option<Json>,
}

impl JsonRpcError {
    pub open spec fn json_ok(v: JsonValue) -> bool {
        &&& member(v, "code"@) matches Some(c) && i32_value(c) is Some
        &&& str_member(v, "message"@) is Some
    }

    pub open spec fn json_from(v: JsonValue, e: JsonRpcError) -> bool {
        &&& member(v, "code"@) matches Some(c) && i32_value(c) == Some(e.code)
        &&& str_member(v, "message"@) == Some(e.message@)
        &&& opt_json(e.data) == present_member(v, "data"@)
    }

    /// Reads `{"code": i32, "message": string, "data"?: any}`.
    pub fn from_json(v: &Json) -> (r: Option<JsonRpcError>)
        ensures
            r is Some <==> Self::json_ok(v@),
            r matches Some(x) ==> Self::json_from(v@, x),
    {
        let code = match v.get("code") {
            Some(c) => match c.as_i32() {
                Some(code) => code,
                None => {
                    return None;
                },
            },
            None => {
                return None;
            },
        };
        match v.get_str("message") {
            Some(message) => Some(JsonRpcError { code, message, data: v.get_present("data") }),
            None => None,
        }
    }
}

/// The two shapes of a response: a result, or an error.
#[derive(Debug, Clone)]
pub enum ResponseContent {
    Success { result: Json },
    Error { error: JsonRpcError },
}

/// One response.
#[derive(Debug, Clone)]
pub struct JsonRpcResponse {
    pub jsonrpc: String,
    pub id: u64,
    pub response: ResponseContent,
}

impl JsonRpcResponse {
    /// `v` is a response envelope: a protocol tag, an id, and exactly one of a
    /// result and a well-formed error.
    pub open spec fn json_ok(v: JsonValue) -> bool {
        &&& str_member(v, "jsonrpc"@) is Some
        &&& member(v, "id"@) matches Some(i) && u64_value(i) is Some
        &&& match (member(v, "result"@), member(v, "error"@)) {
            (Some(_), None) => true,
            (None, Some(e)) => JsonRpcError::json_ok(e),
            _ => false,
        }
    }

    /// `r` is the response that envelope `v` carries.
    pub open spec fn json_from(v: JsonValue, r: JsonRpcResponse) -> bool {
        &&& str_member(v, "jsonrpc"@) == Some(r.jsonrpc@)
        &&& member(v, "id"@) matches Some(i) && u64_value(i) == Some(r.id)
        &&& match r.response {
            ResponseContent::Success { result } => member(v, "result"@) == Some(result@),
            ResponseContent::Error { error } => member(v, "error"@) matches Some(e)
                && JsonRpcError::json_from(e, error),
        }
    }

    /// Reads a response envelope. Which shape it has goes by which of `result`
    /// and `error` is present; an envelope with both or neither is refused.
    pub fn from_json(v: &Json) -> (r: Option<JsonRpcResponse>)
        ensures
            r is Some <==> Self::json_ok(v@),
            r matches Some(x) ==> Self::json_from(v@, x),
    {
        let jsonrpc = match v.get_str("jsonrpc") {
            Some(t) => t,
            None => {
                return None;
            },
        };
        let id = match v.get("id") {
            Some(i) => match i.as_u64() {
                Some(id) => id,
                None => {
                    return None;
                },
            },
            None => {
                return None;
            },
        };
        let response = match (v.get("result"), v.get("error")) {
            (Some(result), None) => ResponseContent::Success { result: result.deep_copy() },
            (None, Some(e)) => match JsonRpcError::from_json(e) {
                Some(error) => ResponseContent::Error { error },
                None => {
                    return None;
                },
            },
            _ => {
                return None;
            },
        };
        Some(JsonRpcResponse { jsonrpc, id, response })
    }

    /// Reads the line that carries a response. A line that holds no JSON
    /// document, or a document that is no response envelope, is a
    /// `ProtocolError`.
    pub fn decode(line: &str) -> (r: Result<JsonRpcResponse, ClientError>)
        ensures
            r is Ok <==> is_json_text(line@) && Self::json_ok(json_doc(line@)),
            r matches Ok(x) ==> Self::json_from(json_doc(line@), x),
            r matches Err(e) ==> e is ProtocolError,
    {
        match Json::parse(line) {
            Ok(v) => match Self::from_json(&v) {
                Some(x) => Ok(x),
                None => Err(ClientError::ProtocolError(
                    String::from_str("Failed to parse response: not a response envelope"),
                )),
            },
            Err(e) => {
                let mut message = String::from_str("Failed to parse response: ");
                message.append(e.as_str());
                Err(ClientError::ProtocolError(message))
            },
        }
    }
}

/// An envelope with both a result and an error, or with neither, is no response.
pub proof fn lemma_ambiguous_response_refused(v: JsonValue)
    requires
        member(v, "result"@) is Some <==> member(v, "error"@) is Some,
    ensures
        !JsonRpcResponse::json_ok(v),
{
}

} // verus!
