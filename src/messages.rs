use vstd::prelude::*;
use crate::capabilities::ServerCapabilities;
use crate::types::same_text;
use crate::json::{
    member, opt_bool_member, opt_json, opt_object_member, opt_str_member, opt_text, str_member,
    Json, JsonValue,
};

verus! {

/// Who the server is.
#[derive(Debug, Clone)]
pub struct ServerInfo {
    pub name: String,
    pub version: String,
}

impl ServerInfo {
    pub open spec fn json_ok(v: JsonValue) -> bool {
        str_member(v, "name"@) is Some && str_member(v, "version"@) is Some
    }

    pub open spec fn json_from(v: JsonValue, s: ServerInfo) -> bool {
        str_member(v, "name"@) == Some(s.name@) && str_member(v, "version"@) == Some(s.version@)
    }

    /// Reads `{"name": string, "version": string}`.
    pub fn from_json(v: &Json) -> (r: Option<ServerInfo>)
        ensures
            r is Some <==> Self::json_ok(v@),
            r matches Some(s) ==> Self::json_from(v@, s),
    {
        match (v.get_str("name"), v.get_str("version")) {
            (Some(name), Some(version)) => Some(ServerInfo { name, version }),
            _ => None,
        }
    }
}

/// The result of a successful handshake.
#[derive(Debug, Clone)]
pub struct InitializeResponse {
    pub protocol_version: String,
    pub capabilities: ServerCapabilities,
    pub server_info: ServerInfo,
    pub meta: Option<Json>,
}

impl InitializeResponse {
    pub open spec fn json_ok(v: JsonValue) -> bool {
        &&& str_member(v, "protocolVersion"@) is Some
        &&& member(v, "capabilities"@) matches Some(c) && ServerCapabilities::json_ok(c)
        &&& member(v, "serverInfo"@) matches Some(s) && ServerInfo::json_ok(s)
        &&& opt_object_member(v, "_meta"@) is Some
    }

    pub open spec fn json_from(v: JsonValue, r: InitializeResponse) -> bool {
        &&& str_member(v, "protocolVersion"@) == Some(r.protocol_version@)
        &&& member(v, "capabilities"@) matches Some(c) && ServerCapabilities::json_from(
            c,
            r.capabilities,
        )
        &&& member(v, "serverInfo"@) matches Some(s) && ServerInfo::json_from(s, r.server_info)
        &&& opt_object_member(v, "_meta"@) == Some(opt_json(r.meta))
    }

    /// Reads `{"protocolVersion": string, "capabilities": {...}, "serverInfo": {...},
    /// "_meta"?: {...}}`.
    pub fn from_json(v: &Json) -> (r: Option<InitializeResponse>)
        ensures
            r is Some <==> Self::json_ok(v@),
            r matches Some(x) ==> Self::json_from(v@, x),
    {
        let protocol_version = match v.get_str("protocolVersion") {
            Some(p) => p,
            None => {
                return None;
            },
        };
        let capabilities = match v.get("capabilities") {
            Some(c) => match ServerCapabilities::from_json(c) {
                Some(c) => c,
                None => {
                    return None;
                },
            },
            None => {
                return None;
            },
        };
        let server_info = match v.get("serverInfo") {
            Some(s) => match ServerInfo::from_json(s) {
                Some(s) => s,
                None => {
                    return None;
                },
            },
            None => {
                return None;
            },
        };
        match v.get_opt_object("_meta") {
            Some(meta) => Some(InitializeResponse { protocol_version, capabilities, server_info, meta }),
            None => None,
        }
    }
}

/// A tool that the server offers.
#[derive(Debug, Clone)]
pub struct Tool {
    pub name: String,
    pub description: String,
    /// The JSON schema of the tool's arguments.
    pub input_schema: Json,
}

impl Tool {
    pub open spec fn json_ok(v: JsonValue) -> bool {
        &&& str_member(v, "name"@) is Some
        &&& str_member(v, "description"@) is Some
        &&& member(v, "inputSchema"@) is Some
    }

    pub open spec fn json_from(v: JsonValue, t: Tool) -> bool {
        &&& str_member(v, "name"@) == Some(t.name@)
        &&& str_member(v, "description"@) == Some(t.description@)
        &&& member(v, "inputSchema"@) == Some(t.input_schema@)
    }

    /// Reads `{"name": string, "description": string, "inputSchema": any}`.
    pub fn from_json(v: &Json) -> (r: Option<Tool>)
        ensures
            r is Some <==> Self::json_ok(v@),
            r matches Some(t) ==> Self::json_from(v@, t),
    {
        match (v.get_str("name"), v.get_str("description"), v.get("inputSchema")) {
            (Some(name), Some(description), Some(schema)) => Some(
                Tool { name, description, input_schema: schema.deep_copy() },
            ),
            _ => None,
        }
    }
}

/// The result of `tools/list`.
#[derive(Debug, Clone)]
pub struct ListToolsResponse {
    pub tools: Vec<Tool>,
}

impl ListToolsResponse {
    pub open spec fn json_ok(v: JsonValue) -> bool {
        &&& member(v, "tools"@) matches Some(l)
        &&& l is Array
        &&& forall|i: int| 0 <= i < l->Array_0.len() ==> Tool::json_ok(#[trigger] l->Array_0[i])
    }

    pub open spec fn json_from(v: JsonValue, r: ListToolsResponse) -> bool {
        &&& member(v, "tools"@) matches Some(l)
        &&& l is Array
        &&& r.tools@.len() == l->Array_0.len()
        &&& forall|i: int|
            0 <= i < r.tools@.len() ==> Tool::json_from(l->Array_0[i], #[trigger] r.tools@[i])
    }

    /// Reads `{"tools": [tool]}`.
    pub fn from_json(v: &Json) -> (r: Option<ListToolsResponse>)
        ensures
            r is Some <==> Self::json_ok(v@),
            r matches Some(x) ==> Self::json_from(v@, x),
    {
        let l = match v.get("tools") {
            Some(l) => l,
            None => {
                return None;
            },
        };
        match l {
            Json::Array(items) => {
                let ghost vs = l@->Array_0;
                let mut out: Vec<Tool> = Vec::new();
                let mut i: usize = 0;
                while i < items.len()
                    invariant
                        0 <= i <= items.len(),
                        *l == Json::Array(*items),
                        member(v@, "tools"@) == Some(l@),
                        vs == l@->Array_0,
                        vs.len() == items.len(),
                        forall|k: int| 0 <= k < items.len() ==> vs[k] == items[k]@,
                        out.len() == i,
                        forall|k: int| 0 <= k < i ==> Tool::json_from(vs[k], #[trigger] out@[k]),
                        forall|k: int| 0 <= k < i ==> Tool::json_ok(#[trigger] vs[k]),
                    decreases items.len() - i,
                {
                    match Tool::from_json(&items[i]) {
                        Some(t) => {
                            out.push(t);
                        },
                        None => {
                            assert(!Tool::json_ok(vs[i as int]));
                            return None;
                        },
                    }
                    i = i + 1;
                }
                Some(ListToolsResponse { tools: out })
            },
            _ => None,
        }
    }
}

/// A resource that a tool result carries.
#[derive(Debug, Clone)]
pub struct EmbeddedResource {
    pub uri: String,
    pub mime_type: Option<String>,
}

impl EmbeddedResource {
    pub open spec fn json_ok(v: JsonValue) -> bool {
        str_member(v, "uri"@) is Some && opt_str_member(v, "mimeType"@) is Some
    }

    pub open spec fn json_from(v: JsonValue, r: EmbeddedResource) -> bool {
        str_member(v, "uri"@) == Some(r.uri@) && opt_str_member(v, "mimeType"@) == Some(
            opt_text(r.mime_type),
        )
    }

    /// Reads `{"uri": string, "mimeType"?: string}`.
    pub fn from_json(v: &Json) -> (r: Option<EmbeddedResource>)
        ensures
            r is Some <==> Self::json_ok(v@),
            r matches Some(x) ==> Self::json_from(v@, x),
    {
        match (v.get_str("uri"), v.get_opt_str("mimeType")) {
            (Some(uri), Some(mime_type)) => Some(EmbeddedResource { uri, mime_type }),
            _ => None,
        }
    }
}

/// One item of a tool result, told apart by its member `type`.
#[derive(Debug, Clone)]
pub enum ToolResponseContent {
    Text { text: String },
    Image { data: String, mime_type: String },
    Resource { resource: EmbeddedResource },
}

impl ToolResponseContent {
    pub open spec fn json_ok(v: JsonValue) -> bool {
        match str_member(v, "type"@) {
            Some(t) => if t == "text"@ {
                str_member(v, "text"@) is Some
            } else if t == "image"@ {
                str_member(v, "data"@) is Some && str_member(v, "mimeType"@) is Some
            } else if t == "resource"@ {
                member(v, "resource"@) matches Some(x) && EmbeddedResource::json_ok(x)
            } else {
                false
            },
            None => false,
        }
    }

    pub open spec fn json_from(v: JsonValue, c: ToolResponseContent) -> bool {
        match c {
            ToolResponseContent::Text { text } => str_member(v, "type"@) == Some("text"@)
                && str_member(v, "text"@) == Some(text@),
            ToolResponseContent::Image { data, mime_type } => str_member(v, "type"@) == Some(
                "image"@,
            ) && str_member(v, "data"@) == Some(data@) && str_member(v, "mimeType"@) == Some(
                mime_type@,
            ),
            ToolResponseContent::Resource { resource } => {
                &&& str_member(v, "type"@) == Some("resource"@)
                &&& member(v, "resource"@) matches Some(x) && EmbeddedResource::json_from(
                    x,
                    resource,
                )
            },
        }
    }

    /// Reads `{"type": "text", "text": string}`, `{"type": "image", "data": string,
    /// "mimeType": string}` or `{"type": "resource", "resource": {...}}`.
    pub fn from_json(v: &Json) -> (r: Option<ToolResponseContent>)
        ensures
            r is Some <==> Self::json_ok(v@),
            r matches Some(x) ==> Self::json_from(v@, x),
    {
        let t = match v.get_str("type") {
            Some(t) => t,
            None => {
                return None;
            },
        };
        if same_text(t.as_str(), "text") {
            match v.get_str("text") {
                Some(text) => Some(ToolResponseContent::Text { text }),
                None => None,
            }
        } else if same_text(t.as_str(), "image") {
            match (v.get_str("data"), v.get_str("mimeType")) {
                (Some(data), Some(mime_type)) => Some(ToolResponseContent::Image { data, mime_type }),
                _ => None,
            }
        } else if same_text(t.as_str(), "resource") {
            match v.get("resource") {
                Some(x) => match EmbeddedResource::from_json(x) {
                    Some(resource) => Some(ToolResponseContent::Resource { resource }),
                    None => None,
                },
                None => None,
            }
        } else {
            None
        }
    }
}

/// The result of `tools/call`.
#[derive(Debug, Clone)]
pub struct CallToolResponse {
    pub content: Vec<ToolResponseContent>,
    pub is_error: Option<bool>,
    pub meta: Option<Json>,
}

/// A resource that the server offers.
#[derive(Debug, Clone)]
pub struct Resource {
    pub uri: String,
    /// Member `type` of the resource.
    pub resource_type: String,
}

impl Resource {
    pub open spec fn json_ok(v: JsonValue) -> bool {
        str_member(v, "uri"@) is Some && str_member(v, "type"@) is Some
    }

    pub open spec fn json_from(v: JsonValue, r: Resource) -> bool {
        str_member(v, "uri"@) == Some(r.uri@) && str_member(v, "type"@) == Some(r.resource_type@)
    }

    /// Reads `{"uri": string, "type": string}`.
    pub fn from_json(v: &Json) -> (r: Option<Resource>)
        ensures
            r is Some <==> Self::json_ok(v@),
            r matches Some(x) ==> Self::json_from(v@, x),
    {
        match (v.get_str("uri"), v.get_str("type")) {
            (Some(uri), Some(resource_type)) => Some(Resource { uri, resource_type }),
            _ => None,
        }
    }
}

/// The result of `resources/list`.
#[derive(Debug, Clone)]
pub struct ResourcesListResponse {
    pub resources: Vec<Resource>,
    pub next_cursor: Option<String>,
    pub meta: Option<Json>,
}

/// What a read resource holds.
#[derive(Debug, Clone)]
pub struct ResourceContents {
    pub uri: String,
    pub content: String,
}

impl ResourceContents {
    pub open spec fn json_ok(v: JsonValue) -> bool {
        str_member(v, "uri"@) is Some && str_member(v, "content"@) is Some
    }

    pub open spec fn json_from(v: JsonValue, r: ResourceContents) -> bool {
        str_member(v, "uri"@) == Some(r.uri@) && str_member(v, "content"@) == Some(r.content@)
    }

    /// Reads `{"uri": string, "content": string}`.
    pub fn from_json(v: &Json) -> (r: Option<ResourceContents>)
        ensures
            r is Some <==> Self::json_ok(v@),
            r matches Some(x) ==> Self::json_from(v@, x),
    {
        match (v.get_str("uri"), v.get_str("content")) {
            (Some(uri), Some(content)) => Some(ResourceContents { uri, content }),
            _ => None,
        }
    }
}

/// The result of `resources/read`.
#[derive(Debug, Clone)]
pub struct ResourcesReadResponse {
    pub contents: Vec<ResourceContents>,
    pub meta: Option<Json>,
}

/// A prompt that the server offers.
#[derive(Debug, Clone)]
pub struct Prompt {
    pub id: String,
    pub description: String,
}

impl Prompt {
    pub open spec fn json_ok(v: JsonValue) -> bool {
        str_member(v, "id"@) is Some && str_member(v, "description"@) is Some
    }

    pub open spec fn json_from(v: JsonValue, p: Prompt) -> bool {
        str_member(v, "id"@) == Some(p.id@) && str_member(v, "description"@) == Some(
            p.description@,
        )
    }

    /// Reads `{"id": string, "description": string}`.
    pub fn from_json(v: &Json) -> (r: Option<Prompt>)
        ensures
            r is Some <==> Self::json_ok(v@),
            r matches Some(x) ==> Self::json_from(v@, x),
    {
        match (v.get_str("id"), v.get_str("description")) {
            (Some(id), Some(description)) => Some(Prompt { id, description }),
            _ => None,
        }
    }
}

/// `v` is an array of prompts.
pub open spec fn prompts_ok(v: JsonValue) -> bool {
    &&& v is Array
    &&& forall|i: int| 0 <= i < v->Array_0.len() ==> Prompt::json_ok(#[trigger] v->Array_0[i])
}

/// `l` holds the prompts of array `v`, in order.
pub open spec fn prompts_from(v: JsonValue, l: Seq<Prompt>) -> bool {
    &&& v is Array
    &&& l.len() == v->Array_0.len()
    &&& forall|i: int| 0 <= i < l.len() ==> Prompt::json_from(v->Array_0[i], #[trigger] l[i])
}

/// Reads the result of `prompts/list`: `[prompt]`.
pub fn prompts_from_json(l: &Json) -> (r: Option<Vec<Prompt>>)
    ensures
        r is Some <==> prompts_ok(l@),
        r matches Some(x) ==> prompts_from(l@, x@),
{
    match l {
        Json::Array(items) => {
            let ghost vs = l@->Array_0;
            let mut out: Vec<Prompt> = Vec::new();
            let mut i: usize = 0;
            while i < items.len()
                invariant
                    0 <= i <= items.len(),
                    *l == Json::Array(*items),
                    vs == l@->Array_0,
                    vs.len() == items.len(),
                    forall|k: int| 0 <= k < items.len() ==> vs[k] == items[k]@,
                    out.len() == i,
                    forall|k: int| 0 <= k < i ==> Prompt::json_from(vs[k], #[trigger] out@[k]),
                    forall|k: int| 0 <= k < i ==> Prompt::json_ok(#[trigger] vs[k]),
                decreases items.len() - i,
            {
                match Prompt::from_json(&items[i]) {
                    Some(x) => {
                        out.push(x);
                    },
                    None => {
                        assert(!Prompt::json_ok(vs[i as int]));
                        return None;
                    },
                }
                i = i + 1;
            }
            Some(out)
        },
        _ => None,
    }
}

impl CallToolResponse {
    pub open spec fn json_ok(v: JsonValue) -> bool {
        &&& member(v, "content"@) matches Some(l)
        &&& l is Array
        &&& forall|i: int| 0 <= i < l->Array_0.len() ==> ToolResponseContent::json_ok(#[trigger] l->Array_0[i])
        &&& opt_bool_member(v, "isError"@) is Some
        &&& opt_object_member(v, "_meta"@) is Some
    }

    pub open spec fn json_from(v: JsonValue, r: CallToolResponse) -> bool {
        &&& member(v, "content"@) matches Some(l)
        &&& l is Array
        &&& r.content@.len() == l->Array_0.len()
        &&& forall|i: int|
            0 <= i < r.content@.len() ==> ToolResponseContent::json_from(l->Array_0[i], #[trigger] r.content@[i])
        &&& opt_bool_member(v, "isError"@) == Some(r.is_error)
        &&& opt_object_member(v, "_meta"@) == Some(opt_json(r.meta))
    }

    /// Reads `{"content": [item], "isError"?: bool, "_meta"?: {...}}`.
    pub fn from_json(v: &Json) -> (r: Option<CallToolResponse>)
        ensures
            r is Some <==> Self::json_ok(v@),
            r matches Some(x) ==> Self::json_from(v@, x),
    {
        let l = match v.get("content") {
            Some(l) => l,
            None => {
                return None;
            },
        };
        let is_error = match v.get_opt_bool("isError") {
            Some(e) => e,
            None => {
                return None;
            },
        };
        let meta = match v.get_opt_object("_meta") {
            Some(m) => m,
            None => {
                return None;
            },
        };
        match l {
            Json::Array(items) => {
                let ghost vs = l@->Array_0;
                let mut out: Vec<ToolResponseContent> = Vec::new();
                let mut i: usize = 0;
                while i < items.len()
                    invariant
                        0 <= i <= items.len(),
                        *l == Json::Array(*items),
                        member(v@, "content"@) == Some(l@),
                        opt_bool_member(v@, "isError"@) == Some(is_error),
                        opt_object_member(v@, "_meta"@) == Some(opt_json(meta)),
                        vs == l@->Array_0,
                        vs.len() == items.len(),
                        forall|k: int| 0 <= k < items.len() ==> vs[k] == items[k]@,
                        out.len() == i,
                        forall|k: int| 0 <= k < i ==> ToolResponseContent::json_from(vs[k], #[trigger] out@[k]),
                        forall|k: int| 0 <= k < i ==> ToolResponseContent::json_ok(#[trigger] vs[k]),
                    decreases items.len() - i,
                {
                    match ToolResponseContent::from_json(&items[i]) {
                        Some(x) => {
                            out.push(x);
                        },
                        None => {
                            assert(!ToolResponseContent::json_ok(vs[i as int]));
                            return None;
                        },
                    }
                    i = i + 1;
                }
                Some(CallToolResponse { content: out, is_error, meta })
            },
            _ => None,
        }
    }
}

impl ResourcesListResponse {
    pub open spec fn json_ok(v: JsonValue) -> bool {
        &&& member(v, "resources"@) matches Some(l)
        &&& l is Array
        &&& forall|i: int| 0 <= i < l->Array_0.len() ==> Resource::json_ok(#[trigger] l->Array_0[i])
        &&& opt_str_member(v, "nextCursor"@) is Some
        &&& opt_object_member(v, "_meta"@) is Some
    }

    pub open spec fn json_from(v: JsonValue, r: ResourcesListResponse) -> bool {
        &&& member(v, "resources"@) matches Some(l)
        &&& l is Array
        &&& r.resources@.len() == l->Array_0.len()
        &&& forall|i: int|
            0 <= i < r.resources@.len() ==> Resource::json_from(l->Array_0[i], #[trigger] r.resources@[i])
        &&& opt_str_member(v, "nextCursor"@) == Some(opt_text(r.next_cursor))
        &&& opt_object_member(v, "_meta"@) == Some(opt_json(r.meta))
    }

    /// Reads `{"resources": [resource], "nextCursor"?: string, "_meta"?: {...}}`.
    pub fn from_json(v: &Json) -> (r: Option<ResourcesListResponse>)
        ensures
            r is Some <==> Self::json_ok(v@),
            r matches Some(x) ==> Self::json_from(v@, x),
    {
        let l = match v.get("resources") {
            Some(l) => l,
            None => {
                return None;
            },
        };
        let next_cursor = match v.get_opt_str("nextCursor") {
            Some(c) => c,
            None => {
                return None;
            },
        };
        let meta = match v.get_opt_object("_meta") {
            Some(m) => m,
            None => {
                return None;
            },
        };
        match l {
            Json::Array(items) => {
                let ghost vs = l@->Array_0;
                let mut out: Vec<Resource> = Vec::new();
                let mut i: usize = 0;
                while i < items.len()
                    invariant
                        0 <= i <= items.len(),
                        *l == Json::Array(*items),
                        member(v@, "resources"@) == Some(l@),
                        opt_str_member(v@, "nextCursor"@) == Some(opt_text(next_cursor)),
                        opt_object_member(v@, "_meta"@) == Some(opt_json(meta)),
                        vs == l@->Array_0,
                        vs.len() == items.len(),
                        forall|k: int| 0 <= k < items.len() ==> vs[k] == items[k]@,
                        out.len() == i,
                        forall|k: int| 0 <= k < i ==> Resource::json_from(vs[k], #[trigger] out@[k]),
                        forall|k: int| 0 <= k < i ==> Resource::json_ok(#[trigger] vs[k]),
                    decreases items.len() - i,
                {
                    match Resource::from_json(&items[i]) {
                        Some(x) => {
                            out.push(x);
                        },
                        None => {
                            assert(!Resource::json_ok(vs[i as int]));
                            return None;
                        },
                    }
                    i = i + 1;
                }
                Some(ResourcesListResponse { resources: out, next_cursor, meta })
            },
            _ => None,
        }
    }
}

impl ResourcesReadResponse {
    pub open spec fn json_ok(v: JsonValue) -> bool {
        &&& member(v, "contents"@) matches Some(l)
        &&& l is Array
        &&& forall|i: int| 0 <= i < l->Array_0.len() ==> ResourceContents::json_ok(#[trigger] l->Array_0[i])
        &&& opt_object_member(v, "_meta"@) is Some
    }

    pub open spec fn json_from(v: JsonValue, r: ResourcesReadResponse) -> bool {
        &&& member(v, "contents"@) matches Some(l)
        &&& l is Array
        &&& r.contents@.len() == l->Array_0.len()
        &&& forall|i: int|
            0 <= i < r.contents@.len() ==> ResourceContents::json_from(l->Array_0[i], #[trigger] r.contents@[i])
        &&& opt_object_member(v, "_meta"@) == Some(opt_json(r.meta))
    }

    /// Reads `{"contents": [contents], "_meta"?: {...}}`.
    pub fn from_json(v: &Json) -> (r: Option<ResourcesReadResponse>)
        ensures
            r is Some <==> Self::json_ok(v@),
            r matches Some(x) ==> Self::json_from(v@, x),
    {
        let l = match v.get("contents") {
            Some(l) => l,
            None => {
                return None;
            },
        };
        let meta = match v.get_opt_object("_meta") {
            Some(m) => m,
            None => {
                return None;
            },
        };
        match l {
            Json::Array(items) => {
                let ghost vs = l@->Array_0;
                let mut out: Vec<ResourceContents> = Vec::new();
                let mut i: usize = 0;
                while i < items.len()
                    invariant
                        0 <= i <= items.len(),
                        *l == Json::Array(*items),
                        member(v@, "contents"@) == Some(l@),
                        opt_object_member(v@, "_meta"@) == Some(opt_json(meta)),
                        vs == l@->Array_0,
                        vs.len() == items.len(),
                        forall|k: int| 0 <= k < items.len() ==> vs[k] == items[k]@,
                        out.len() == i,
                        forall|k: int| 0 <= k < i ==> ResourceContents::json_from(vs[k], #[trigger] out@[k]),
                        forall|k: int| 0 <= k < i ==> ResourceContents::json_ok(#[trigger] vs[k]),
                    decreases items.len() - i,
                {
                    match ResourceContents::from_json(&items[i]) {
                        Some(x) => {
                            out.push(x);
                        },
                        None => {
                            assert(!ResourceContents::json_ok(vs[i as int]));
                            return None;
                        },
                    }
                    i = i + 1;
                }
                Some(ResourcesReadResponse { contents: out, meta })
            },
            _ => None,
        }
    }
}

} // verus!
