//! Types of the encrypted-session and local remote procedure call paths.
use vstd::prelude::*;

verus! {

/// A remote procedure call request: a method name and CBOR-encoded
/// arguments.
#[derive(Clone, Debug)]
pub struct RpcRequest {
    /// Method name.
    pub method: String,
    /// CBOR encoding of the request arguments.
    pub args: Vec<u8>,
}

/// A remote procedure call response; holds the CBOR encoding of its body.
#[derive(Clone, Debug)]
pub struct RpcResponse {
    pub body: Vec<u8>,
}

/// A typed message carried over an established session.
#[derive(Clone, Debug)]
pub enum RpcMessage {
    Request(RpcRequest),
    Response(RpcResponse),
    Close,
}

/// Information about an authenticated session, opaque to the dispatcher.
#[derive(Clone, Debug)]
pub struct SessionInfo {
    pub raw: Vec<u8>,
}

/// Per-call context handed to remote procedure call handlers.
#[derive(Clone, Debug)]
pub struct RpcContext {
    /// Session information, absent for local calls.
    pub session_info: Option<SessionInfo>,
}

/// What the session demux made of one incoming frame.
pub enum ProcessedFrame {
    /// The handshake is still in progress; the bytes go back to the peer.
    Handshake { response: Vec<u8> },
    /// A full message arrived on an established session, together with the
    /// host's plaintext copy of the claimed method name.
    Message {
        session_id: u64,
        session_info: Option<SessionInfo>,
        message: RpcMessage,
        untrusted_plaintext: String,
    },
}

} // verus!
