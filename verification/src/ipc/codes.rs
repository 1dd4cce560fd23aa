//! Standard and Chip Loom-specific JSON-RPC error codes.

use vstd::prelude::*;

verus! {

/// Invalid JSON was received.
pub const PARSE_ERROR: i32 = -32700;

/// The JSON is not a valid Request object.
pub const INVALID_REQUEST: i32 = -32600;

/// The method does not exist.
pub const METHOD_NOT_FOUND: i32 = -32601;

/// The params do not match the method.
pub const INVALID_PARAMS: i32 = -32602;

/// An unexpected failure inside the server.
pub const INTERNAL_ERROR: i32 = -32603;

/// A request arrived before `initialize` completed.
pub const SERVER_NOT_INITIALIZED: i32 = -32002;

/// The request was understood and attempted, but failed.
pub const REQUEST_FAILED: i32 = -32001;

/// The client asked for a protocol version this build does not implement.
pub const UNSUPPORTED_PROTOCOL_VERSION: i32 = -32000;

} // verus!
