//! One node of a line-delimited JSON echo protocol: the message schema, its
//! wire codec and the request/response rules of the node, with their contracts.
pub mod codec;
pub mod json;
pub mod message;
pub mod node;
