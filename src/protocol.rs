use vstd::prelude::*;
use crate::capabilities::{offers, ServerCapabilities};
use crate::envelope::{JsonRpcRequest, JsonRpcResponse, ResponseContent};
use crate::json::{is_json_text, json_doc, member, Json, JsonValue};
use crate::messages::{
    prompts_from, prompts_from_json, prompts_ok, CallToolResponse, InitializeResponse,
    ListToolsResponse, Prompt, ResourcesListResponse, ResourcesReadResponse, ServerInfo,
};
use crate::types::{capability_name, method_name, ClientError, RequestType, ServerCapability};

verus! {

/// The name that the client gives in the handshake.
pub const CLIENT_NAME: &'static str = "test";

/// The version that the client gives in the handshake.
pub const CLIENT_VERSION: &'static str = "0.1.0";

/// The empty object `{}`.
pub open spec fn empty_object() -> JsonValue {
    JsonValue::Object(Seq::empty())
}

/// The params of the handshake request:
/// `{"protocolVersion":<version>,"capabilities":{},"clientInfo":{"name":..,"version":..}}`.
pub open spec fn initialize_params(version: Seq<char>) -> JsonValue {
    JsonValue::Object(
        seq![
            ("protocolVersion"@, JsonValue::Str(version)),
            ("capabilities"@, empty_object()),
            (
                "clientInfo"@,
                JsonValue::Object(
                    seq![("name"@, JsonValue::Str(CLIENT_NAME@)), ("version"@, JsonValue::Str(CLIENT_VERSION@))],
                ),
            ),
        ],
    )
}

/// The params of a tool call: `{"name":<name>,"arguments":<arguments>}`.
pub open spec fn tool_call_params(name: Seq<char>, arguments: JsonValue) -> JsonValue {
    JsonValue::Object(seq![("name"@, JsonValue::Str(name)), ("arguments"@, arguments)])
}

/// The params of a resource read: `{"uris":[<uri>, ...]}`.
pub open spec fn read_params(uris: Seq<String>) -> JsonValue {
    JsonValue::Object(
        seq![
            (
                "uris"@,
                JsonValue::Array(Seq::new(uris.len(), |i: int| JsonValue::Str(uris[i]@))),
            ),
        ],
    )
}

/// Who the client is, in the handshake.
#[derive(Debug, Clone)]
pub struct ClientInfo {
    pub name: String,
    pub version: String,
}

/// The params of the handshake request.
#[derive(Debug, Clone)]
pub struct InitializeParams {
    pub protocol_version: String,
    pub capabilities: Json,
    pub client_info: ClientInfo,
}

impl InitializeParams {
    /// The params that this client sends: no capabilities of its own, and its
    /// name and version.
    pub fn new(version: &str) -> (r: InitializeParams)
        ensures
            r.protocol_version@ == version@,
            r.capabilities@ == empty_object(),
            r.client_info.name@ == CLIENT_NAME@,
            r.client_info.version@ == CLIENT_VERSION@,
    {
        let r = InitializeParams {
            protocol_version: String::from_str(version),
            capabilities: Json::Object(Vec::new()),
            client_info: ClientInfo {
                name: String::from_str(CLIENT_NAME),
                version: String::from_str(CLIENT_VERSION),
            },
        };
        assert(r.capabilities@->Object_0 =~= Seq::<(Seq<char>, JsonValue)>::empty());
        r
    }

    /// These params as a JSON object.
    pub fn to_json(&self) -> (r: Json)
        ensures
            r@ == JsonValue::Object(
                seq![
                    ("protocolVersion"@, JsonValue::Str(self.protocol_version@)),
                    ("capabilities"@, self.capabilities@),
                    (
                        "clientInfo"@,
                        JsonValue::Object(
                            seq![
                                ("name"@, JsonValue::Str(self.client_info.name@)),
                                ("version"@, JsonValue::Str(self.client_info.version@)),
                            ],
                        ),
                    ),
                ],
            ),
    {
        let mut info: Vec<(String, Json)> = Vec::new();
        info.push((String::from_str("name"), Json::Str(self.client_info.name.clone())));
        info.push((String::from_str("version"), Json::Str(self.client_info.version.clone())));
        assert(info@[0].1@ == JsonValue::Str(self.client_info.name@));
        assert(info@[1].1@ == JsonValue::Str(self.client_info.version@));
        let info = Json::Object(info);
        assert(info@->Object_0 =~= seq![
            ("name"@, JsonValue::Str(self.client_info.name@)),
            ("version"@, JsonValue::Str(self.client_info.version@)),
        ]);
        let mut members: Vec<(String, Json)> = Vec::new();
        members.push((String::from_str("protocolVersion"), Json::Str(self.protocol_version.clone())));
        members.push((String::from_str("capabilities"), self.capabilities.deep_copy()));
        members.push((String::from_str("clientInfo"), info));
        let r = Json::Object(members);
        assert(members@[0].1@ == JsonValue::Str(self.protocol_version@));
        assert(members@[1].1@ == self.capabilities@);
        assert(members@[2].1@ == info@);
        assert(r@->Object_0 =~= seq![
            ("protocolVersion"@, JsonValue::Str(self.protocol_version@)),
            ("capabilities"@, self.capabilities@),
            ("clientInfo"@, info@),
        ]);
        r
    }
}

/// The params of a tool call.
#[derive(Debug, Clone)]
pub struct ToolCallParams {
    pub name: String,
    pub arguments: Json,
}

impl ToolCallParams {
    /// These params as a JSON object.
    pub fn to_json(&self) -> (r: Json)
        ensures
            r@ == tool_call_params(self.name@, self.arguments@),
    {
        let mut members: Vec<(String, Json)> = Vec::new();
        members.push((String::from_str("name"), Json::Str(self.name.clone())));
        members.push((String::from_str("arguments"), self.arguments.deep_copy()));
        assert(members@[0].1@ == JsonValue::Str(self.name@));
        assert(members@[1].1@ == self.arguments@);
        let r = Json::Object(members);
        assert(r@->Object_0 =~= tool_call_params(self.name@, self.arguments@)->Object_0);
        r
    }
}

/// Where an engine stands in its life.
#[derive(Debug, Clone, Copy, PartialEq, Eq, Structural)]
pub enum EngineState {
    /// Made, no handshake sent.
    Uninitialized,
    /// The handshake request is out; its response is awaited.
    Initializing,
    /// The handshake succeeded: the only state that serves operations.
    Ready,
    /// The handshake failed.
    Failed,
}

/// What an engine holds: the next request id, its state, and what the server
/// said in the handshake.
pub struct EngineView {
    pub next_id: u64,
    pub state: EngineState,
    pub handshake: Option<InitializeResponse>,
}

impl EngineView {
    /// The handshake result is held exactly when the engine is ready.
    pub open spec fn wf(self) -> bool {
        (self.state == EngineState::Ready) <==> self.handshake is Some
    }

    /// The capabilities that the server offered, once the handshake succeeded.
    pub open spec fn capabilities(self) -> Option<ServerCapabilities> {
        match self.handshake {
            Some(h) => Some(h.capabilities),
            None => None,
        }
    }

    /// Whether capability `c` was offered in a successful handshake.
    pub open spec fn offered(self, c: ServerCapability) -> bool {
        self.capabilities() matches Some(caps) && offers(caps, c)
    }
}

/// The id that follows `n`. The counter never passes `u64::MAX`: every call
/// that may issue an id asks for a counter below it.
pub open spec fn next_after(n: u64) -> u64 {
    (n + 1) as u64
}

/// `doc` is a success envelope whose result reads as a handshake result.
pub open spec fn handshake_accepted(doc: JsonValue) -> bool {
    &&& JsonRpcResponse::json_ok(doc)
    &&& member(doc, "result"@) matches Some(result)
    &&& InitializeResponse::json_ok(result)
}

/// The message of the capability error for `c`.
pub open spec fn capability_message(c: ServerCapability) -> Seq<char> {
    "Server does not support "@ + capability_name(c) + " capability"@
}

/// The detail of a failure of method `m`: its wire name, then `detail`.
pub open spec fn failure_text(m: RequestType, detail: Seq<char>) -> Seq<char> {
    method_name(m) + ": "@ + detail
}

/// The detail of a result that does not have the shape that the method returns.
pub open spec fn unexpected_result() -> Seq<char> {
    "unexpected result"@
}

/// `e` is the failure of method `m` with `detail`, of the kind of that
/// method's family.
pub open spec fn family_error(m: RequestType, e: ClientError, detail: Seq<char>) -> bool {
    match m {
        RequestType::Initialize => e matches ClientError::InitializationFailed(s) && s@
            == failure_text(m, detail),
        RequestType::CallTool | RequestType::ListTools => e matches ClientError::ToolError(s)
            && s@ == failure_text(m, detail),
        RequestType::ResourcesUnsubscribe | RequestType::ResourcesSubscribe
        | RequestType::ResourcesRead | RequestType::ResourcesList
        | RequestType::ListResourceTemplates => e matches ClientError::ResourceError(s) && s@
            == failure_text(m, detail),
        RequestType::PromptsGet | RequestType::PromptsList => e matches ClientError::PromptError(s)
            && s@ == failure_text(m, detail),
        _ => e matches ClientError::ProtocolError(s) && s@ == failure_text(m, detail),
    }
}

/// The failure of method `m` with `detail`.
pub fn failure(m: RequestType, detail: &str) -> (e: ClientError)
    ensures
        family_error(m, e, detail@),
{
    let mut s = String::from_str(m.as_str());
    s.append(": ");
    s.append(detail);
    match m {
        RequestType::Initialize => ClientError::InitializationFailed(s),
        RequestType::CallTool | RequestType::ListTools => ClientError::ToolError(s),
        RequestType::ResourcesUnsubscribe | RequestType::ResourcesSubscribe
        | RequestType::ResourcesRead | RequestType::ResourcesList
        | RequestType::ListResourceTemplates => ClientError::ResourceError(s),
        RequestType::PromptsGet | RequestType::PromptsList => ClientError::PromptError(s),
        _ => ClientError::ProtocolError(s),
    }
}

/// What a response to method `m` says, before its result is read: the result
/// of a success envelope, or the failure that an error envelope carries.
pub open spec fn outcome_of(m: RequestType, response: JsonRpcResponse, r: Result<&Json, ClientError>) -> bool {
    match response.response {
        ResponseContent::Success { result } => r matches Ok(j) && j@ == result@,
        ResponseContent::Error { error } => r matches Err(e) && family_error(m, e, error.message@),
    }
}

/// The result of a success envelope; for an error envelope, the failure of
/// method `m` with the remote message.
pub fn outcome(m: RequestType, response: &JsonRpcResponse) -> (r: Result<&Json, ClientError>)
    ensures
        outcome_of(m, *response, r),
{
    match &response.response {
        ResponseContent::Success { result } => Ok(result),
        ResponseContent::Error { error } => Err(failure(m, error.message.as_str())),
    }
}

/// The protocol engine of one connection: the request ids, the handshake, and
/// the capability gate in front of every operation. It does no I/O: each
/// operation hands back the request to send, and the response that comes back
/// is handed to the matching `*_result` function.
pub struct Protocol {
    next_id: u64,
    state: EngineState,
    handshake: Option<InitializeResponse>,
}

impl View for Protocol {
    type V = EngineView;

    closed spec fn view(&self) -> EngineView {
        EngineView { next_id: self.next_id, state: self.state, handshake: self.handshake }
    }
}

/// What a gated operation does: where capability `c` was offered, it issues the
/// next id for a request of method `m` with `params`; where it was not, it
/// fails with a capability error and changes nothing, so that no request exists
/// to be written.
pub open spec fn gated(
    before: EngineView,
    after: EngineView,
    r: Result<JsonRpcRequest, ClientError>,
    c: ServerCapability,
    m: RequestType,
    params: JsonValue,
) -> bool {
    if before.offered(c) {
        &&& r matches Ok(q) && q.id == before.next_id && q.method == m && q.params@ == params
        &&& after == EngineView { next_id: next_after(before.next_id), ..before }
    } else {
        &&& r matches Err(e) && e matches ClientError::CapabilityError(s) && s@
            == capability_message(c)
        &&& after == before
    }
}

impl Protocol {
    /// An engine before its handshake, whose first request id is 0.
    pub fn new() -> (r: Protocol)
        ensures
            r@ == (EngineView { next_id: 0, state: EngineState::Uninitialized, handshake: None }),
            r@.wf(),
    {
        Protocol { next_id: 0, state: EngineState::Uninitialized, handshake: None }
    }

    /// Issues the next request id.
    pub fn next_id(&mut self) -> (r: u64)
        requires
            old(self)@.next_id < u64::MAX,
        ensures
            r == old(self)@.next_id,
            final(self)@.next_id == old(self)@.next_id + 1,
            final(self)@ == (EngineView { next_id: next_after(old(self)@.next_id), ..old(self)@ }),
    {
        let id = self.next_id;
        self.next_id = id + 1;
        id
    }

    /// The id that the next request gets.
    pub fn next_request_id(&self) -> (r: u64)
        ensures
            r == self@.next_id,
    {
        self.next_id
    }

    /// Where the engine stands.
    pub fn state(&self) -> (r: EngineState)
        ensures
            r == self@.state,
    {
        self.state
    }

    /// Starts the handshake: the `initialize` request with protocol version
    /// `version`, under the next id.
    pub fn initialize(&mut self, version: &str) -> (r: JsonRpcRequest)
        requires
            old(self)@.state == EngineState::Uninitialized,
            old(self)@.wf(),
            old(self)@.next_id < u64::MAX,
        ensures
            r.id == old(self)@.next_id,
            r.method == RequestType::Initialize,
            r.params@ == initialize_params(version@),
            final(self)@ == (EngineView {
                next_id: next_after(old(self)@.next_id),
                state: EngineState::Initializing,
                ..old(self)@
            }),
            final(self)@.wf(),
    {
        let params = InitializeParams::new(version).to_json();
        let id = self.next_id();
        self.state = EngineState::Initializing;
        JsonRpcRequest::new(id, RequestType::Initialize, params)
    }

    /// Ends the handshake with its response. A success envelope whose result
    /// reads as a handshake result makes the engine ready; anything else makes
    /// it fail.
    pub fn complete_initialize(&mut self, response: &JsonRpcResponse) -> (r: Result<(), ClientError>)
        requires
            old(self)@.state == EngineState::Initializing,
            old(self)@.wf(),
        ensures
            final(self)@.next_id == old(self)@.next_id,
            final(self)@.wf(),
            match response.response {
                ResponseContent::Success { result } => if InitializeResponse::json_ok(result@) {
                    &&& r is Ok
                    &&& final(self)@.state == EngineState::Ready
                    &&& final(self)@.handshake matches Some(h) && InitializeResponse::json_from(
                        result@,
                        h,
                    )
                } else {
                    &&& r matches Err(e) && family_error(RequestType::Initialize, e, unexpected_result())
                    &&& final(self)@.state == EngineState::Failed
                    &&& final(self)@.handshake is None
                },
                ResponseContent::Error { error } => {
                    &&& r matches Err(e) && family_error(RequestType::Initialize, e, error.message@)
                    &&& final(self)@.state == EngineState::Failed
                    &&& final(self)@.handshake is None
                },
            },
    {
        match outcome(RequestType::Initialize, response) {
            Ok(result) => match InitializeResponse::from_json(result) {
                Some(h) => {
                    self.handshake = Some(h);
                    self.state = EngineState::Ready;
                    Ok(())
                },
                None => {
                    self.state = EngineState::Failed;
                    Err(failure(RequestType::Initialize, "unexpected result"))
                },
            },
            Err(e) => {
                self.state = EngineState::Failed;
                Err(e)
            },
        }
    }

    /// Ends the handshake with the line that came back. It succeeds exactly
    /// where the line holds a success envelope whose result reads as a
    /// handshake result; anything else, a line that is no response envelope
    /// included, fails the handshake.
    pub fn receive_initialize(&mut self, line: &str) -> (r: Result<(), ClientError>)
        requires
            old(self)@.state == EngineState::Initializing,
            old(self)@.wf(),
        ensures
            final(self)@.next_id == old(self)@.next_id,
            final(self)@.wf(),
            r is Ok <==> is_json_text(line@) && handshake_accepted(json_doc(line@)),
            r is Ok ==> {
                &&& final(self)@.state == EngineState::Ready
                &&& member(json_doc(line@), "result"@) matches Some(result)
                &&& final(self)@.handshake matches Some(h) && InitializeResponse::json_from(result, h)
            },
            r is Err ==> {
                &&& final(self)@.state == EngineState::Failed
                &&& final(self)@.handshake is None
                &&& r->Err_0 is InitializationFailed
            },
    {
        match JsonRpcResponse::decode(line) {
            Ok(response) => self.complete_initialize(&response),
            Err(_) => {
                self.state = EngineState::Failed;
                Err(failure(RequestType::Initialize, "no response envelope"))
            },
        }
    }

    /// The capabilities that the server offered, once the handshake succeeded.
    pub fn get_capabilities(&self) -> (r: Option<&ServerCapabilities>)
        ensures
            r matches Some(c) ==> self@.capabilities() == Some(*c),
            r is None ==> self@.capabilities() is None,
    {
        match &self.handshake {
            Some(h) => Some(&h.capabilities),
            None => None,
        }
    }

    /// The result of the handshake, once it succeeded.
    pub fn handshake(&self) -> (r: Option<&InitializeResponse>)
        ensures
            r matches Some(h) ==> self@.handshake == Some(*h),
            r is None ==> self@.handshake is None,
    {
        self.handshake.as_ref()
    }

    /// Who the server said it is, once the handshake succeeded.
    pub fn server_info(&self) -> (r: Option<&ServerInfo>)
        ensures
            r matches Some(s) ==> self@.handshake matches Some(h) && h.server_info == *s,
            r is None ==> self@.handshake is None,
    {
        match &self.handshake {
            Some(h) => Some(&h.server_info),
            None => None,
        }
    }

    /// Whether the server offered capability `capability`; `false` for every
    /// capability before the handshake succeeded.
    pub fn capable(&self, capability: ServerCapability) -> (r: bool)
        ensures
            r == self@.offered(capability),
    {
        match &self.handshake {
            Some(h) => h.capabilities.offers(capability),
            None => false,
        }
    }

    /// Passes where the server offered `capability`, and fails with a
    /// capability error where it did not.
    fn check_capability(&self, capability: ServerCapability) -> (r: Result<(), ClientError>)
        ensures
            self@.offered(capability) ==> r is Ok,
            !self@.offered(capability) ==> (r matches Err(e) && e matches ClientError::CapabilityError(
                s,
            ) && s@ == capability_message(capability)),
    {
        if self.capable(capability) {
            Ok(())
        } else {
            let mut s = String::from_str("Server does not support ");
            s.append(capability.name());
            s.append(" capability");
            Err(ClientError::CapabilityError(s))
        }
    }

    /// The request that lists the server's tools.
    pub fn list_tools(&mut self) -> (r: Result<JsonRpcRequest, ClientError>)
        requires
            old(self)@.next_id < u64::MAX,
        ensures
            gated(
                old(self)@,
                final(self)@,
                r,
                ServerCapability::Tools,
                RequestType::ListTools,
                empty_object(),
            ),
    {
        match self.check_capability(ServerCapability::Tools) {
            Ok(()) => {},
            Err(e) => {
                return Err(e);
            },
        }
        let params = Json::Object(Vec::new());
        assert(params@->Object_0 =~= Seq::<(Seq<char>, JsonValue)>::empty());
        let id = self.next_id();
        Ok(JsonRpcRequest::new(id, RequestType::ListTools, params))
    }

    /// The request that calls tool `name` with `arguments`.
    pub fn call_tool(&mut self, name: &str, arguments: Json) -> (r: Result<JsonRpcRequest, ClientError>)
        requires
            old(self)@.next_id < u64::MAX,
        ensures
            gated(
                old(self)@,
                final(self)@,
                r,
                ServerCapability::Tools,
                RequestType::CallTool,
                tool_call_params(name@, arguments@),
            ),
    {
        match self.check_capability(ServerCapability::Tools) {
            Ok(()) => {},
            Err(e) => {
                return Err(e);
            },
        }
        let params = ToolCallParams { name: String::from_str(name), arguments }.to_json();
        let id = self.next_id();
        Ok(JsonRpcRequest::new(id, RequestType::CallTool, params))
    }

    /// The request that lists the server's resources.
    pub fn list_resources(&mut self) -> (r: Result<JsonRpcRequest, ClientError>)
        requires
            old(self)@.next_id < u64::MAX,
        ensures
            gated(
                old(self)@,
                final(self)@,
                r,
                ServerCapability::Resources,
                RequestType::ResourcesList,
                empty_object(),
            ),
    {
        match self.check_capability(ServerCapability::Resources) {
            Ok(()) => {},
            Err(e) => {
                return Err(e);
            },
        }
        let params = Json::Object(Vec::new());
        assert(params@->Object_0 =~= Seq::<(Seq<char>, JsonValue)>::empty());
        let id = self.next_id();
        Ok(JsonRpcRequest::new(id, RequestType::ResourcesList, params))
    }

    /// The request that reads the resources at `uris`.
    pub fn read_resources(&mut self, uris: Vec<String>) -> (r: Result<JsonRpcRequest, ClientError>)
        requires
            old(self)@.next_id < u64::MAX,
        ensures
            gated(
                old(self)@,
                final(self)@,
                r,
                ServerCapability::Resources,
                RequestType::ResourcesRead,
                read_params(uris@),
            ),
    {
        match self.check_capability(ServerCapability::Resources) {
            Ok(()) => {},
            Err(e) => {
                return Err(e);
            },
        }
        let mut items: Vec<Json> = Vec::new();
        let mut i: usize = 0;
        while i < uris.len()
            invariant
                0 <= i <= uris.len(),
                items.len() == i,
                forall|k: int| 0 <= k < i ==> (#[trigger] items@[k])@ == JsonValue::Str(uris@[k]@),
            decreases uris.len() - i,
        {
            items.push(Json::Str(uris[i].clone()));
            i = i + 1;
        }
        let list = Json::Array(items);
        assert(list@->Array_0 =~= Seq::new(uris@.len(), |k: int| JsonValue::Str(uris@[k]@)));
        let mut members: Vec<(String, Json)> = Vec::new();
        members.push((String::from_str("uris"), list));
        assert(members@[0].1@ == list@);
        let params = Json::Object(members);
        assert(params@->Object_0 =~= read_params(uris@)->Object_0);
        let id = self.next_id();
        Ok(JsonRpcRequest::new(id, RequestType::ResourcesRead, params))
    }

    /// The request that lists the server's prompts.
    pub fn list_prompts(&mut self) -> (r: Result<JsonRpcRequest, ClientError>)
        requires
            old(self)@.next_id < u64::MAX,
        ensures
            gated(
                old(self)@,
                final(self)@,
                r,
                ServerCapability::Prompts,
                RequestType::PromptsList,
                empty_object(),
            ),
    {
        match self.check_capability(ServerCapability::Prompts) {
            Ok(()) => {},
            Err(e) => {
                return Err(e);
            },
        }
        let params = Json::Object(Vec::new());
        assert(params@->Object_0 =~= Seq::<(Seq<char>, JsonValue)>::empty());
        let id = self.next_id();
        Ok(JsonRpcRequest::new(id, RequestType::PromptsList, params))
    }

    /// Reads the response to `list_tools`.
    pub fn list_tools_result(response: &JsonRpcResponse) -> (r: Result<ListToolsResponse, ClientError>)
        ensures
            match response.response {
                ResponseContent::Success { result } => if ListToolsResponse::json_ok(result@) {
                    r matches Ok(x) && ListToolsResponse::json_from(result@, x)
                } else {
                    r matches Err(e) && family_error(RequestType::ListTools, e, unexpected_result())
                },
                ResponseContent::Error { error } => r matches Err(e) && family_error(
                    RequestType::ListTools,
                    e,
                    error.message@,
                ),
            },
    {
        match outcome(RequestType::ListTools, response) {
            Ok(result) => match ListToolsResponse::from_json(result) {
                Some(x) => Ok(x),
                None => Err(failure(RequestType::ListTools, "unexpected result")),
            },
            Err(e) => Err(e),
        }
    }

    /// Reads the response to `call_tool`.
    pub fn call_tool_result(response: &JsonRpcResponse) -> (r: Result<CallToolResponse, ClientError>)
        ensures
            match response.response {
                ResponseContent::Success { result } => if CallToolResponse::json_ok(result@) {
                    r matches Ok(x) && CallToolResponse::json_from(result@, x)
                } else {
                    r matches Err(e) && family_error(RequestType::CallTool, e, unexpected_result())
                },
                ResponseContent::Error { error } => r matches Err(e) && family_error(
                    RequestType::CallTool,
                    e,
                    error.message@,
                ),
            },
    {
        match outcome(RequestType::CallTool, response) {
            Ok(result) => match CallToolResponse::from_json(result) {
                Some(x) => Ok(x),
                None => Err(failure(RequestType::CallTool, "unexpected result")),
            },
            Err(e) => Err(e),
        }
    }

    /// Reads the response to `list_resources`.
    pub fn list_resources_result(response: &JsonRpcResponse) -> (r: Result<ResourcesListResponse, ClientError>)
        ensures
            match response.response {
                ResponseContent::Success { result } => if ResourcesListResponse::json_ok(result@) {
                    r matches Ok(x) && ResourcesListResponse::json_from(result@, x)
                } else {
                    r matches Err(e) && family_error(RequestType::ResourcesList, e, unexpected_result())
                },
                ResponseContent::Error { error } => r matches Err(e) && family_error(
                    RequestType::ResourcesList,
                    e,
                    error.message@,
                ),
            },
    {
        match outcome(RequestType::ResourcesList, response) {
            Ok(result) => match ResourcesListResponse::from_json(result) {
                Some(x) => Ok(x),
                None => Err(failure(RequestType::ResourcesList, "unexpected result")),
            },
            Err(e) => Err(e),
        }
    }

    /// Reads the response to `read_resources`.
    pub fn read_resources_result(response: &JsonRpcResponse) -> (r: Result<ResourcesReadResponse, ClientError>)
        ensures
            match response.response {
                ResponseContent::Success { result } => if ResourcesReadResponse::json_ok(result@) {
                    r matches Ok(x) && ResourcesReadResponse::json_from(result@, x)
                } else {
                    r matches Err(e) && family_error(RequestType::ResourcesRead, e, unexpected_result())
                },
                ResponseContent::Error { error } => r matches Err(e) && family_error(
                    RequestType::ResourcesRead,
                    e,
                    error.message@,
                ),
            },
    {
        match outcome(RequestType::ResourcesRead, response) {
            Ok(result) => match ResourcesReadResponse::from_json(result) {
                Some(x) => Ok(x),
                None => Err(failure(RequestType::ResourcesRead, "unexpected result")),
            },
            Err(e) => Err(e),
        }
    }

    /// Reads the response to `list_prompts`.
    pub fn list_prompts_result(response: &JsonRpcResponse) -> (r: Result<Vec<Prompt>, ClientError>)
        ensures
            match response.response {
                ResponseContent::Success { result } => if prompts_ok(result@) {
                    r matches Ok(x) && prompts_from(result@, x@)
                } else {
                    r matches Err(e) && family_error(RequestType::PromptsList, e, unexpected_result())
                },
                ResponseContent::Error { error } => r matches Err(e) && family_error(
                    RequestType::PromptsList,
                    e,
                    error.message@,
                ),
            },
    {
        match outcome(RequestType::PromptsList, response) {
            Ok(result) => match prompts_from_json(result) {
                Some(x) => Ok(x),
                None => Err(failure(RequestType::PromptsList, "unexpected result")),
            },
            Err(e) => Err(e),
        }
    }
}

/// What an operation may do to the id counter: leave it, or issue the current
/// id and move on to the next.
pub open spec fn id_step(before: EngineView, after: EngineView) -> bool {
    after.next_id == before.next_id || after.next_id == before.next_id + 1
}

/// A gated operation steps the counter as `id_step` says, and a request that
/// it hands back carries the id that it issued.
pub proof fn lemma_gated_id_step(
    before: EngineView,
    after: EngineView,
    r: Result<JsonRpcRequest, ClientError>,
    c: ServerCapability,
    m: RequestType,
    params: JsonValue,
)
    requires
        before.next_id < u64::MAX,
        gated(before, after, r, c, m, params),
    ensures
        id_step(before, after),
        r matches Ok(q) ==> q.id == before.next_id && after.next_id == before.next_id + 1,
        r is Err ==> after.next_id == before.next_id,
{
}

proof fn lemma_counter_grows(run: Seq<EngineView>, k: int)
    requires
        forall|t: int| 0 <= t < run.len() - 1 ==> id_step(#[trigger] run[t], run[t + 1]),
        0 <= k < run.len(),
    ensures
        forall|a: int| 0 <= a <= k ==> run[a].next_id <= #[trigger] run[k].next_id,
    decreases k,
{
    if k > 0 {
        lemma_counter_grows(run, k - 1);
        assert(id_step(run[k - 1], run[k]));
    }
}

/// Along any run of operations on one engine, each id that is issued is
/// greater than every id issued before it, failed operations included: no id
/// is issued twice.
pub proof fn lemma_ids_increase(run: Seq<EngineView>, i: int, j: int)
    requires
        forall|t: int| 0 <= t < run.len() - 1 ==> id_step(#[trigger] run[t], run[t + 1]),
        0 <= i < j,
        j + 1 < run.len(),
        run[i + 1].next_id != run[i].next_id,
        run[j + 1].next_id != run[j].next_id,
    ensures
        run[i].next_id < run[j].next_id,
{
    lemma_counter_grows(run, j);
    assert(id_step(run[i], run[i + 1]));
    assert(run[i + 1].next_id <= run[j].next_id);
}

} // verus!
