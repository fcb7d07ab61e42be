use vstd::prelude::*;
use crate::json::Json;

verus! {

/// The methods of the protocol, each with one name on the wire.
#[derive(Debug, Clone, Copy, PartialEq, Eq, Structural)]
pub enum RequestType {
    Initialize,
    CallTool,
    ResourcesUnsubscribe,
    ResourcesSubscribe,
    ResourcesRead,
    ResourcesList,
    LoggingSetLevel,
    PromptsGet,
    PromptsList,
    CompletionComplete,
    Ping,
    ListTools,
    ListResourceTemplates,
    ListRoots,
}

/// The name of method `m` on the wire.
pub open spec fn method_name(m: RequestType) -> Seq<char> {
    match m {
        RequestType::Initialize => "initialize"@,
        RequestType::CallTool => "tools/call"@,
        RequestType::ResourcesUnsubscribe => "resources/unsubscribe"@,
        RequestType::ResourcesSubscribe => "resources/subscribe"@,
        RequestType::ResourcesRead => "resources/read"@,
        RequestType::ResourcesList => "resources/list"@,
        RequestType::LoggingSetLevel => "logging/setLevel"@,
        RequestType::PromptsGet => "prompts/get"@,
        RequestType::PromptsList => "prompts/list"@,
        RequestType::CompletionComplete => "completion/complete"@,
        RequestType::Ping => "ping"@,
        RequestType::ListTools => "tools/list"@,
        RequestType::ListResourceTemplates => "resources/templates/list"@,
        RequestType::ListRoots => "roots/list"@,
    }
}

/// The method whose wire name is `s`.
pub open spec fn method_named(s: Seq<char>) -> Option<RequestType> {
    if s == method_name(RequestType::Initialize) {
        Some(RequestType::Initialize)
    } else if s == method_name(RequestType::CallTool) {
        Some(RequestType::CallTool)
    } else if s == method_name(RequestType::ResourcesUnsubscribe) {
        Some(RequestType::ResourcesUnsubscribe)
    } else if s == method_name(RequestType::ResourcesSubscribe) {
        Some(RequestType::ResourcesSubscribe)
    } else if s == method_name(RequestType::ResourcesRead) {
        Some(RequestType::ResourcesRead)
    } else if s == method_name(RequestType::ResourcesList) {
        Some(RequestType::ResourcesList)
    } else if s == method_name(RequestType::LoggingSetLevel) {
        Some(RequestType::LoggingSetLevel)
    } else if s == method_name(RequestType::PromptsGet) {
        Some(RequestType::PromptsGet)
    } else if s == method_name(RequestType::PromptsList) {
        Some(RequestType::PromptsList)
    } else if s == method_name(RequestType::CompletionComplete) {
        Some(RequestType::CompletionComplete)
    } else if s == method_name(RequestType::Ping) {
        Some(RequestType::Ping)
    } else if s == method_name(RequestType::ListTools) {
        Some(RequestType::ListTools)
    } else if s == method_name(RequestType::ListResourceTemplates) {
        Some(RequestType::ListResourceTemplates)
    } else if s == method_name(RequestType::ListRoots) {
        Some(RequestType::ListRoots)
    } else {
        None
    }
}

/// Whether two texts are equal.
pub fn same_text(a: &str, b: &str) -> (r: bool)
    ensures
        r == (a@ == b@),
{
    String::from_str(a) == String::from_str(b)
}

/// No two methods share a wire name, so a wire name gives its method back.
pub proof fn lemma_method_name_round_trip(m: RequestType)
    ensures
        method_named(method_name(m)) == Some(m),
{
    reveal_strlit("initialize");
    reveal_strlit("tools/call");
    reveal_strlit("resources/unsubscribe");
    reveal_strlit("resources/subscribe");
    reveal_strlit("resources/read");
    reveal_strlit("resources/list");
    reveal_strlit("logging/setLevel");
    reveal_strlit("prompts/get");
    reveal_strlit("prompts/list");
    reveal_strlit("completion/complete");
    reveal_strlit("ping");
    reveal_strlit("tools/list");
    reveal_strlit("resources/templates/list");
    reveal_strlit("roots/list");
    match m {
        RequestType::Initialize => {
        },
        RequestType::CallTool => {
            assert("initialize"@[0] != "tools/call"@[0]);
        },
        RequestType::ResourcesUnsubscribe => {
            assert("initialize"@.len() != "resources/unsubscribe"@.len());
            assert("tools/call"@.len() != "resources/unsubscribe"@.len());
        },
        RequestType::ResourcesSubscribe => {
            assert("initialize"@.len() != "resources/subscribe"@.len());
            assert("tools/call"@.len() != "resources/subscribe"@.len());
            assert("resources/unsubscribe"@.len() != "resources/subscribe"@.len());
        },
        RequestType::ResourcesRead => {
            assert("initialize"@.len() != "resources/read"@.len());
            assert("tools/call"@.len() != "resources/read"@.len());
            assert("resources/unsubscribe"@.len() != "resources/read"@.len());
            assert("resources/subscribe"@.len() != "resources/read"@.len());
        },
        RequestType::ResourcesList => {
            assert("initialize"@.len() != "resources/list"@.len());
            assert("tools/call"@.len() != "resources/list"@.len());
            assert("resources/unsubscribe"@.len() != "resources/list"@.len());
            assert("resources/subscribe"@.len() != "resources/list"@.len());
            assert("resources/read"@[10] != "resources/list"@[10]);
        },
        RequestType::LoggingSetLevel => {
            assert("initialize"@.len() != "logging/setLevel"@.len());
            assert("tools/call"@.len() != "logging/setLevel"@.len());
            assert("resources/unsubscribe"@.len() != "logging/setLevel"@.len());
            assert("resources/subscribe"@.len() != "logging/setLevel"@.len());
            assert("resources/read"@.len() != "logging/setLevel"@.len());
            assert("resources/list"@.len() != "logging/setLevel"@.len());
        },
        RequestType::PromptsGet => {
            assert("initialize"@.len() != "prompts/get"@.len());
            assert("tools/call"@.len() != "prompts/get"@.len());
            assert("resources/unsubscribe"@.len() != "prompts/get"@.len());
            assert("resources/subscribe"@.len() != "prompts/get"@.len());
            assert("resources/read"@.len() != "prompts/get"@.len());
            assert("resources/list"@.len() != "prompts/get"@.len());
            assert("logging/setLevel"@.len() != "prompts/get"@.len());
        },
        RequestType::PromptsList => {
            assert("initialize"@.len() != "prompts/list"@.len());
            assert("tools/call"@.len() != "prompts/list"@.len());
            assert("resources/unsubscribe"@.len() != "prompts/list"@.len());
            assert("resources/subscribe"@.len() != "prompts/list"@.len());
            assert("resources/read"@.len() != "prompts/list"@.len());
            assert("resources/list"@.len() != "prompts/list"@.len());
            assert("logging/setLevel"@.len() != "prompts/list"@.len());
            assert("prompts/get"@.len() != "prompts/list"@.len());
        },
        RequestType::CompletionComplete => {
            assert("initialize"@.len() != "completion/complete"@.len());
            assert("tools/call"@.len() != "completion/complete"@.len());
            assert("resources/unsubscribe"@.len() != "completion/complete"@.len());
            assert("resources/subscribe"@[0] != "completion/complete"@[0]);
            assert("resources/read"@.len() != "completion/complete"@.len());
            assert("resources/list"@.len() != "completion/complete"@.len());
            assert("logging/setLevel"@.len() != "completion/complete"@.len());
            assert("prompts/get"@.len() != "completion/complete"@.len());
            assert("prompts/list"@.len() != "completion/complete"@.len());
        },
        RequestType::Ping => {
            assert("initialize"@.len() != "ping"@.len());
            assert("tools/call"@.len() != "ping"@.len());
            assert("resources/unsubscribe"@.len() != "ping"@.len());
            assert("resources/subscribe"@.len() != "ping"@.len());
            assert("resources/read"@.len() != "ping"@.len());
            assert("resources/list"@.len() != "ping"@.len());
            assert("logging/setLevel"@.len() != "ping"@.len());
            assert("prompts/get"@.len() != "ping"@.len());
            assert("prompts/list"@.len() != "ping"@.len());
            assert("completion/complete"@.len() != "ping"@.len());
        },
        RequestType::ListTools => {
            assert("initialize"@[0] != "tools/list"@[0]);
            assert("tools/call"@[6] != "tools/list"@[6]);
            assert("resources/unsubscribe"@.len() != "tools/list"@.len());
            assert("resources/subscribe"@.len() != "tools/list"@.len());
            assert("resources/read"@.len() != "tools/list"@.len());
            assert("resources/list"@.len() != "tools/list"@.len());
            assert("logging/setLevel"@.len() != "tools/list"@.len());
            assert("prompts/get"@.len() != "tools/list"@.len());
            assert("prompts/list"@.len() != "tools/list"@.len());
            assert("completion/complete"@.len() != "tools/list"@.len());
            assert("ping"@.len() != "tools/list"@.len());
        },
        RequestType::ListResourceTemplates => {
            assert("initialize"@.len() != "resources/templates/list"@.len());
            assert("tools/call"@.len() != "resources/templates/list"@.len());
            assert("resources/unsubscribe"@.len() != "resources/templates/list"@.len());
            assert("resources/subscribe"@.len() != "resources/templates/list"@.len());
            assert("resources/read"@.len() != "resources/templates/list"@.len());
            assert("resources/list"@.len() != "resources/templates/list"@.len());
            assert("logging/setLevel"@.len() != "resources/templates/list"@.len());
            assert("prompts/get"@.len() != "resources/templates/list"@.len());
            assert("prompts/list"@.len() != "resources/templates/list"@.len());
            assert("completion/complete"@.len() != "resources/templates/list"@.len());
            assert("ping"@.len() != "resources/templates/list"@.len());
            assert("tools/list"@.len() != "resources/templates/list"@.len());
        },
        RequestType::ListRoots => {
            assert("initialize"@[0] != "roots/list"@[0]);
            assert("tools/call"@[0] != "roots/list"@[0]);
            assert("resources/unsubscribe"@.len() != "roots/list"@.len());
            assert("resources/subscribe"@.len() != "roots/list"@.len());
            assert("resources/read"@.len() != "roots/list"@.len());
            assert("resources/list"@.len() != "roots/list"@.len());
            assert("logging/setLevel"@.len() != "roots/list"@.len());
            assert("prompts/get"@.len() != "roots/list"@.len());
            assert("prompts/list"@.len() != "roots/list"@.len());
            assert("completion/complete"@.len() != "roots/list"@.len());
            assert("ping"@.len() != "roots/list"@.len());
            assert("tools/list"@[0] != "roots/list"@[0]);
            assert("resources/templates/list"@.len() != "roots/list"@.len());
        },
    }
}

impl RequestType {
    /// The name of this method on the wire.
    pub fn as_str(&self) -> (r: &'static str)
        ensures
            r@ == method_name(*self),
    {
        match self {
            RequestType::Initialize => "initialize",
            RequestType::CallTool => "tools/call",
            RequestType::ResourcesUnsubscribe => "resources/unsubscribe",
            RequestType::ResourcesSubscribe => "resources/subscribe",
            RequestType::ResourcesRead => "resources/read",
            RequestType::ResourcesList => "resources/list",
            RequestType::LoggingSetLevel => "logging/setLevel",
            RequestType::PromptsGet => "prompts/get",
            RequestType::PromptsList => "prompts/list",
            RequestType::CompletionComplete => "completion/complete",
            RequestType::Ping => "ping",
            RequestType::ListTools => "tools/list",
            RequestType::ListResourceTemplates => "resources/templates/list",
            RequestType::ListRoots => "roots/list",
        }
    }

    /// The method whose wire name is `s`, if any.
    pub fn from_name(s: &str) -> (r: Option<RequestType>)
        ensures
            r == method_named(s@),
    {
        if same_text(s, RequestType::Initialize.as_str()) {
            Some(RequestType::Initialize)
        } else if same_text(s, RequestType::CallTool.as_str()) {
            Some(RequestType::CallTool)
        } else if same_text(s, RequestType::ResourcesUnsubscribe.as_str()) {
            Some(RequestType::ResourcesUnsubscribe)
        } else if same_text(s, RequestType::ResourcesSubscribe.as_str()) {
            Some(RequestType::ResourcesSubscribe)
        } else if same_text(s, RequestType::ResourcesRead.as_str()) {
            Some(RequestType::ResourcesRead)
        } else if same_text(s, RequestType::ResourcesList.as_str()) {
            Some(RequestType::ResourcesList)
        } else if same_text(s, RequestType::LoggingSetLevel.as_str()) {
            Some(RequestType::LoggingSetLevel)
        } else if same_text(s, RequestType::PromptsGet.as_str()) {
            Some(RequestType::PromptsGet)
        } else if same_text(s, RequestType::PromptsList.as_str()) {
            Some(RequestType::PromptsList)
        } else if same_text(s, RequestType::CompletionComplete.as_str()) {
            Some(RequestType::CompletionComplete)
        } else if same_text(s, RequestType::Ping.as_str()) {
            Some(RequestType::Ping)
        } else if same_text(s, RequestType::ListTools.as_str()) {
            Some(RequestType::ListTools)
        } else if same_text(s, RequestType::ListResourceTemplates.as_str()) {
            Some(RequestType::ListResourceTemplates)
        } else if same_text(s, RequestType::ListRoots.as_str()) {
            Some(RequestType::ListRoots)
        } else {
            None
        }
    }
}

/// A capability that the server may offer.
#[derive(Debug, Clone, Copy, PartialEq, Eq, Structural)]
pub enum ServerCapability {
    Experimental,
    Logging,
    Prompts,
    Resources,
    Tools,
    Sampling,
}

/// The name of capability `c` in messages.
pub open spec fn capability_name(c: ServerCapability) -> Seq<char> {
    match c {
        ServerCapability::Experimental => "Experimental"@,
        ServerCapability::Logging => "Logging"@,
        ServerCapability::Prompts => "Prompts"@,
        ServerCapability::Resources => "Resources"@,
        ServerCapability::Tools => "Tools"@,
        ServerCapability::Sampling => "Sampling"@,
    }
}

impl ServerCapability {
    /// The name of this capability in messages.
    pub fn name(&self) -> (r: &'static str)
        ensures
            r@ == capability_name(*self),
    {
        match self {
            ServerCapability::Experimental => "Experimental",
            ServerCapability::Logging => "Logging",
            ServerCapability::Prompts => "Prompts",
            ServerCapability::Resources => "Resources",
            ServerCapability::Tools => "Tools",
            ServerCapability::Sampling => "Sampling",
        }
    }
}

#[verifier::external_type_specification]
#[verifier::external_body]
pub struct ExIoError(std::io::Error);

/// The failures that the engine reports.
#[derive(Debug)]
pub enum ClientError {
    /// The transport failed: the process could not start, or a pipe broke or closed.
    Io(std::io::Error),
    /// The handshake did not complete.
    InitializationFailed(String),
    ResourceError(String),
    ToolError(String),
    PromptError(String),
    /// The server did not offer the capability that an operation needs.
    CapabilityError(String),
    /// A request could not be written as JSON. Kept for callers: the encoder of
    /// this crate does not fail.
    SerializationError(String),
    /// A response line is no response envelope.
    ProtocolError(String),
}

impl From<std::io::Error> for ClientError {
    fn from(err: std::io::Error) -> (r: ClientError)
        ensures
            r == ClientError::Io(err),
    {
        ClientError::Io(err)
    }
}

impl vstd::std_specs::convert::FromSpecImpl<std::io::Error> for ClientError {
    open spec fn obeys_from_spec() -> bool {
        true
    }

    open spec fn from_spec(err: std::io::Error) -> ClientError {
        ClientError::Io(err)
    }
}

} // verus!
