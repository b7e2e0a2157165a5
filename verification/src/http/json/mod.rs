//! JSON over HTTP, and JSON-RPC in particular.

pub mod id;
pub mod request;
pub mod response;
pub mod version;

pub use id::{ConstantSizeId, Id, IdView};
pub use request::{
    add_content_type_header_if_missing, HttpJsonRpcRequest, JsonRequestConversionError,
    JsonRequestConverter, JsonRpcRequest, JsonRpcRequestBody,
};
pub use response::{
    ConsistentJsonRpcIdFilter, ConsistentResponseIdFilterError, CreateJsonRpcIdFilter,
    HttpJsonRpcResponse, JsonResponseConversionError, JsonResponseConverter, JsonRpcError,
    JsonRpcResponse, JsonRpcResult,
};
pub use version::Version;
