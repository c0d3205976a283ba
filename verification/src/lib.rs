//! JSON-RPC 2.0 messages over `serde_json` values: decoding and encoding with
//! the three-state treatment of optional members, the derivation of example
//! pairings from observed traffic, and the decisions of a replay run.

pub mod json;
pub mod types;
pub mod codec;
pub mod laws;
mod text;
pub mod capture;
pub mod replay;
pub mod batch;

pub use crate::types::Error;
pub use crate::types::Id;
pub use crate::types::MaybeBatchedRequest;
pub use crate::types::MaybeBatchedResponse;
pub use crate::types::Request;
pub use crate::types::RequestParameters;
pub use crate::types::Response;
pub use crate::types::V2;
