pub mod capabilities;
pub mod decimal;
pub mod envelope;
pub mod json;
pub mod messages;
pub mod protocol;
pub mod protocol_manager;
pub mod types;

pub use capabilities::{
    LoggingCapability, PromptsCapability, ResourcesCapability, SamplingCapability,
    ServerCapabilities, ToolsCapability,
};
pub use envelope::{JsonRpcError, JsonRpcRequest, JsonRpcResponse, ResponseContent};
pub use json::Json;
pub use messages::{
    CallToolResponse, EmbeddedResource, InitializeResponse, ListToolsResponse, Prompt, Resource,
    ResourceContents, ResourcesListResponse, ResourcesReadResponse, ServerInfo, Tool,
    ToolResponseContent,
};
pub use protocol::{ClientInfo, EngineState, InitializeParams, Protocol, ToolCallParams};
pub use protocol_manager::ProtocolManager;
pub use types::{ClientError, RequestType, ServerCapability};
