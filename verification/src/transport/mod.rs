//! Framing of the byte stream that carries JSON-RPC messages.

/// Splits a byte stream into lines, one message each.
pub mod jsonrpc_frame_codec;

pub use jsonrpc_frame_codec::JsonRpcFrameCodec;
