use vstd::prelude::*;
use crate::json::{
    bool_member, member, opt_json, present_member, str_member, u32_value, Json, JsonValue,
};
use crate::types::ServerCapability;

verus! {

/// `v` is an array of strings.
pub open spec fn string_list_ok(v: JsonValue) -> bool {
    &&& v is Array
    &&& forall|i: int| 0 <= i < v->Array_0.len() ==> (#[trigger] v->Array_0[i]) is Str
}

/// `l` holds the strings of array `v`, in order.
pub open spec fn string_list_from(v: JsonValue, l: Seq<String>) -> bool {
    &&& v is Array
    &&& l.len() == v->Array_0.len()
    &&& forall|i: int| 0 <= i < l.len() ==> v->Array_0[i] == JsonValue::Str((#[trigger] l[i])@)
}

/// Reads an array of strings.
pub fn strings_from_json(v: &Json) -> (r: Option<Vec<String>>)
    ensures
        r is Some <==> string_list_ok(v@),
        r matches Some(l) ==> string_list_from(v@, l@),
{
    match v {
        Json::Array(items) => {
            let ghost vs = v@->Array_0;
            let mut out: Vec<String> = Vec::new();
            let mut i: usize = 0;
            while i < items.len()
                invariant
                    0 <= i <= items.len(),
                    *v == Json::Array(*items),
                    vs == v@->Array_0,
                    vs.len() == items.len(),
                    forall|k: int| 0 <= k < items.len() ==> vs[k] == items[k]@,
                    out.len() == i,
                    forall|k: int| 0 <= k < i ==> vs[k] == JsonValue::Str((#[trigger] out@[k])@),
                decreases items.len() - i,
            {
                match &items[i] {
                    Json::Str(s) => {
                        out.push(s.clone());
                    },
                    _ => {
                        assert(!(vs[i as int] is Str));
                        return None;
                    },
                }
                i = i + 1;
            }
            assert forall|k: int| 0 <= k < vs.len() implies (#[trigger] vs[k]) is Str by {
                assert(vs[k] == JsonValue::Str(out@[k]@));
            }
            Some(out)
        },
        _ => None,
    }
}

/// The server offers logging at these levels.
#[derive(Debug, Clone)]
pub struct LoggingCapability {
    pub levels: Vec<String>,
}

impl LoggingCapability {
    pub open spec fn json_ok(v: JsonValue) -> bool {
        member(v, "levels"@) matches Some(l) && string_list_ok(l)
    }

    pub open spec fn json_from(v: JsonValue, c: LoggingCapability) -> bool {
        member(v, "levels"@) matches Some(l) && string_list_from(l, c.levels@)
    }

    /// Reads `{"levels": [string]}`.
    pub fn from_json(v: &Json) -> (r: Option<LoggingCapability>)
        ensures
            r is Some <==> Self::json_ok(v@),
            r matches Some(c) ==> Self::json_from(v@, c),
    {
        match v.get("levels") {
            Some(l) => match strings_from_json(l) {
                Some(levels) => Some(LoggingCapability { levels }),
                None => None,
            },
            None => None,
        }
    }
}

/// The server offers prompts.
#[derive(Debug, Clone)]
pub struct PromptsCapability {
    pub supports_custom: bool,
}

impl PromptsCapability {
    pub open spec fn json_ok(v: JsonValue) -> bool {
        bool_member(v, "supportsCustom"@) is Some
    }

    pub open spec fn json_from(v: JsonValue, c: PromptsCapability) -> bool {
        bool_member(v, "supportsCustom"@) == Some(c.supports_custom)
    }

    /// Reads `{"supportsCustom": bool}`.
    pub fn from_json(v: &Json) -> (r: Option<PromptsCapability>)
        ensures
            r is Some <==> Self::json_ok(v@),
            r matches Some(c) ==> Self::json_from(v@, c),
    {
        match v.get_bool("supportsCustom") {
            Some(supports_custom) => Some(PromptsCapability { supports_custom }),
            None => None,
        }
    }
}

/// The server offers resources.
#[derive(Debug, Clone)]
pub struct ResourcesCapability {
    pub supports_subscribe: bool,
    pub supports_delta: bool,
}

impl ResourcesCapability {
    pub open spec fn json_ok(v: JsonValue) -> bool {
        bool_member(v, "supportsSubscribe"@) is Some && bool_member(v, "supportsDelta"@) is Some
    }

    pub open spec fn json_from(v: JsonValue, c: ResourcesCapability) -> bool {
        bool_member(v, "supportsSubscribe"@) == Some(c.supports_subscribe) && bool_member(
            v,
            "supportsDelta"@,
        ) == Some(c.supports_delta)
    }

    /// Reads `{"supportsSubscribe": bool, "supportsDelta": bool}`.
    pub fn from_json(v: &Json) -> (r: Option<ResourcesCapability>)
        ensures
            r is Some <==> Self::json_ok(v@),
            r matches Some(c) ==> Self::json_from(v@, c),
    {
        match (v.get_bool("supportsSubscribe"), v.get_bool("supportsDelta")) {
            (Some(supports_subscribe), Some(supports_delta)) => Some(
                ResourcesCapability { supports_subscribe, supports_delta },
            ),
            _ => None,
        }
    }
}

/// The server offers tools.
#[derive(Debug, Clone)]
pub struct ToolsCapability {
    pub supports_streaming: bool,
}

impl ToolsCapability {
    pub open spec fn json_ok(v: JsonValue) -> bool {
        v is Object && (member(v, "supportsStreaming"@) is None || bool_member(
            v,
            "supportsStreaming"@,
        ) is Some)
    }

    pub open spec fn json_from(v: JsonValue, c: ToolsCapability) -> bool {
        c.supports_streaming == (bool_member(v, "supportsStreaming"@) == Some(true))
    }

    /// Reads `{"supportsStreaming"?: bool}`; an absent flag is `false`.
    pub fn from_json(v: &Json) -> (r: Option<ToolsCapability>)
        ensures
            r is Some <==> Self::json_ok(v@),
            r matches Some(c) ==> Self::json_from(v@, c),
    {
        match v {
            Json::Object(_) => match v.get("supportsStreaming") {
                None => Some(ToolsCapability { supports_streaming: false }),
                Some(Json::Bool(b)) => Some(ToolsCapability { supports_streaming: *b }),
                Some(_) => None,
            },
            _ => None,
        }
    }
}

/// The server offers sampling.
#[derive(Debug, Clone)]
pub struct SamplingCapability {
    pub max_tokens: Option<u32>,
    pub supported_methods: Vec<String>,
}

impl SamplingCapability {
    /// Member `maxTokens` of `v` is absent, `null` or a `u32`.
    pub open spec fn max_tokens_ok(v: JsonValue) -> bool {
        present_member(v, "maxTokens"@) matches Some(n) ==> u32_value(n) is Some
    }

    pub open spec fn json_ok(v: JsonValue) -> bool {
        &&& Self::max_tokens_ok(v)
        &&& member(v, "supportedMethods"@) matches Some(l) && string_list_ok(l)
    }

    pub open spec fn json_from(v: JsonValue, c: SamplingCapability) -> bool {
        &&& c.max_tokens == match present_member(v, "maxTokens"@) {
            Some(n) => u32_value(n),
            None => None,
        }
        &&& member(v, "supportedMethods"@) matches Some(l) && string_list_from(
            l,
            c.supported_methods@,
        )
    }

    /// Reads `{"maxTokens"?: u32, "supportedMethods": [string]}`.
    pub fn from_json(v: &Json) -> (r: Option<SamplingCapability>)
        ensures
            r is Some <==> Self::json_ok(v@),
            r matches Some(c) ==> Self::json_from(v@, c),
    {
        let max_tokens = match v.get("maxTokens") {
            None => None,
            Some(Json::Null) => None,
            Some(n) => match n.as_u32() {
                Some(m) => Some(m),
                None => {
                    return None;
                },
            },
        };
        match v.get("supportedMethods") {
            Some(l) => match strings_from_json(l) {
                Some(supported_methods) => Some(SamplingCapability { max_tokens, supported_methods }),
                None => None,
            },
            None => None,
        }
    }
}

/// What the server offers, as it said in the handshake. A capability is offered
/// where its member is present.
#[derive(Debug, Clone)]
pub struct ServerCapabilities {
    pub experimental: Option<Json>,
    pub logging: Option<LoggingCapability>,
    pub prompts: Option<PromptsCapability>,
    pub resources: Option<ResourcesCapability>,
    pub tools: Option<ToolsCapability>,
    pub sampling: Option<SamplingCapability>,
}

/// Whether `caps` offers capability `c`.
pub open spec fn offers(caps: ServerCapabilities, c: ServerCapability) -> bool {
    match c {
        ServerCapability::Experimental => caps.experimental is Some,
        ServerCapability::Logging => caps.logging is Some,
        ServerCapability::Prompts => caps.prompts is Some,
        ServerCapability::Resources => caps.resources is Some,
        ServerCapability::Tools => caps.tools is Some,
        ServerCapability::Sampling => caps.sampling is Some,
    }
}

impl ServerCapabilities {
    pub open spec fn json_ok(v: JsonValue) -> bool {
        &&& v is Object
        &&& present_member(v, "logging"@) matches Some(x) ==> LoggingCapability::json_ok(x)
        &&& present_member(v, "prompts"@) matches Some(x) ==> PromptsCapability::json_ok(x)
        &&& present_member(v, "resources"@) matches Some(x) ==> ResourcesCapability::json_ok(x)
        &&& present_member(v, "tools"@) matches Some(x) ==> ToolsCapability::json_ok(x)
        &&& present_member(v, "sampling"@) matches Some(x) ==> SamplingCapability::json_ok(x)
    }

    pub open spec fn json_from(v: JsonValue, c: ServerCapabilities) -> bool {
        &&& opt_json(c.experimental) == present_member(v, "experimental"@)
        &&& match present_member(v, "logging"@) {
            Some(x) => c.logging matches Some(l) && LoggingCapability::json_from(x, l),
            None => c.logging is None,
        }
        &&& match present_member(v, "prompts"@) {
            Some(x) => c.prompts matches Some(p) && PromptsCapability::json_from(x, p),
            None => c.prompts is None,
        }
        &&& match present_member(v, "resources"@) {
            Some(x) => c.resources matches Some(r) && ResourcesCapability::json_from(x, r),
            None => c.resources is None,
        }
        &&& match present_member(v, "tools"@) {
            Some(x) => c.tools matches Some(t) && ToolsCapability::json_from(x, t),
            None => c.tools is None,
        }
        &&& match present_member(v, "sampling"@) {
            Some(x) => c.sampling matches Some(s) && SamplingCapability::json_from(x, s),
            None => c.sampling is None,
        }
    }

    /// Reads the capabilities object of a handshake result. A member that is
    /// absent or `null` is a capability that is not offered.
    pub fn from_json(v: &Json) -> (r: Option<ServerCapabilities>)
        ensures
            r is Some <==> Self::json_ok(v@),
            r matches Some(c) ==> Self::json_from(v@, c),
    {
        match v {
            Json::Object(_) => {},
            _ => {
                return None;
            },
        }
        let experimental = v.get_present("experimental");
        let logging = match v.get_present("logging") {
            Some(x) => match LoggingCapability::from_json(&x) {
                Some(l) => Some(l),
                None => {
                    return None;
                },
            },
            None => None,
        };
        let prompts = match v.get_present("prompts") {
            Some(x) => match PromptsCapability::from_json(&x) {
                Some(p) => Some(p),
                None => {
                    return None;
                },
            },
            None => None,
        };
        let resources = match v.get_present("resources") {
            Some(x) => match ResourcesCapability::from_json(&x) {
                Some(r) => Some(r),
                None => {
                    return None;
                },
            },
            None => None,
        };
        let tools = match v.get_present("tools") {
            Some(x) => match ToolsCapability::from_json(&x) {
                Some(t) => Some(t),
                None => {
                    return None;
                },
            },
            None => None,
        };
        let sampling = match v.get_present("sampling") {
            Some(x) => match SamplingCapability::from_json(&x) {
                Some(s) => Some(s),
                None => {
                    return None;
                },
            },
            None => None,
        };
        Some(ServerCapabilities { experimental, logging, prompts, resources, tools, sampling })
    }

    /// Whether capability `c` is offered.
    pub fn offers(&self, c: ServerCapability) -> (r: bool)
        ensures
            r == offers(*self, c),
    {
        match c {
            ServerCapability::Experimental => self.experimental.is_some(),
            ServerCapability::Logging => self.logging.is_some(),
            ServerCapability::Prompts => self.prompts.is_some(),
            ServerCapability::Resources => self.resources.is_some(),
            ServerCapability::Tools => self.tools.is_some(),
            ServerCapability::Sampling => self.sampling.is_some(),
        }
    }
}

} // verus!
