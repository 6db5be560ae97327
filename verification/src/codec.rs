//! Trusted boundary to the outside CBOR codec and digest routines.
//!
//! Every function here is `external_body`: its body calls into `serde_cbor`
//! or `sha2`, and its contract names the result through an uninterpreted
//! spec function, since the exact byte layout of a CBOR document or a digest
//! is a function of the arguments alone but far too long to state.
use vstd::prelude::*;

use serde_cbor::Value;



use crate::txn_types::{TxnCall, TxnOutput};
use crate::types::{ComputeResultsHeader, Header, HASH_SIZE};
use crate::rpc_types::RpcRequest;

verus! {

/// The SHA-512/256 digest of a byte string.
pub uninterp spec fn digest_of(data: Seq<u8>) -> Seq<u8>;

/// Whether a byte string parses as a single CBOR value.
pub uninterp spec fn cbor_ok(data: Seq<u8>) -> bool;

/// The re-encoding of a CBOR document: parse it and serialize it again.
pub uninterp spec fn cbor_norm(data: Seq<u8>) -> Seq<u8>;

/// The decoded form of a CBOR transaction call: method name and the
/// re-encoded arguments, or nothing when the bytes are not a call.
pub uninterp spec fn txn_call_dec(data: Seq<u8>) -> Option<(Seq<char>, Seq<u8>)>;

/// The CBOR encoding of a transaction output. `success` selects the
/// variant; `value` holds the encoded result, `message` the error text.
pub uninterp spec fn txn_output_enc(success: bool, value: Seq<u8>, message: Seq<char>) -> Seq<u8>;

/// The CBOR encoding of a plain text value.
pub uninterp spec fn text_value_enc(text: Seq<char>) -> Seq<u8>;

/// The CBOR encoding of a list of byte strings.
pub uninterp spec fn bytes_list_enc(items: Seq<Seq<u8>>) -> Seq<u8>;

/// The decoded form of a CBOR list of byte strings.
pub uninterp spec fn bytes_list_dec(data: Seq<u8>) -> Option<Seq<Seq<u8>>>;

/// The CBOR encoding of a compute results header.
pub uninterp spec fn header_enc(
    round: u64,
    previous_hash: Seq<u8>,
    io_root: Option<Seq<u8>>,
    state_root: Option<Seq<u8>>,
    messages_hash: Option<Seq<u8>>,
) -> Seq<u8>;

/// The CBOR encoding of a runtime block header.
pub uninterp spec fn block_header_enc(
    namespace: Seq<u8>,
    round: u64,
    timestamp: u64,
    previous_hash: Seq<u8>,
    io_root: Seq<u8>,
    state_root: Seq<u8>,
) -> Seq<u8>;

/// The decoded form of a CBOR remote procedure call request: method name
/// and the re-encoded arguments.
pub uninterp spec fn rpc_request_dec(data: Seq<u8>) -> Option<(Seq<char>, Seq<u8>)>;

/// The CBOR encoding of a response message wrapping an encoded body.
pub uninterp spec fn rpc_response_msg_enc(body: Seq<u8>) -> Seq<u8>;

/// The body recovered from a CBOR response message.
pub uninterp spec fn rpc_response_msg_dec(data: Seq<u8>) -> Option<Seq<u8>>;

/// Relies on sha2::Sha512_256: the digest is a pure function of the input
/// bytes and is always 32 bytes long.
#[verifier::external_body]
pub fn digest_bytes(data: &Vec<u8>) -> (r: Vec<u8>)
    ensures
        r@ == digest_of(data@),
        r@.len() == HASH_SIZE,
{
    <sha2::Sha512_256 as sha2::Digest>::digest(data.as_slice()).to_vec()
}

/// Relies on serde_cbor::from_slice and serde_cbor::to_vec: decodes a map
/// `{"args": <value>, "method": <text>}` into the method name and the
/// re-encoded argument value.
#[verifier::external_body]
pub fn decode_txn_call(data: &Vec<u8>) -> (r: Option<TxnCall>)
    ensures
        r is Some <==> txn_call_dec(data@) is Some,
        r matches Some(c) ==> txn_call_dec(data@) == Some((c.method@, c.args@)),
        r matches Some(c) ==> cbor_ok(c.args@) && cbor_norm(c.args@) == c.args@,
{
    let value: serde_cbor::Value = serde_cbor::from_slice(data.as_slice()).ok()?;
    let map = if let Value::Map(m) = value { m } else { return None };
    let method = match map.get(&Value::Text("method".to_string())) {
        Some(Value::Text(s)) => s.clone(),
        _ => return None,
    };
    let args_value = map.get(&Value::Text("args".to_string()))?;
    let args = serde_cbor::to_vec(args_value).ok()?;
    Some(TxnCall { method, args })
}

/// Relies on serde_cbor::from_slice and serde_cbor::to_vec: encodes an
/// output as the map `{"Success": <value>}` or `{"Error": <text>}`. Fails
/// exactly when a success value is not itself a CBOR document.
#[verifier::external_body]
pub fn encode_txn_output(output: &TxnOutput) -> (r: Option<Vec<u8>>)
    ensures
        r matches Some(v) ==> (match output {
            TxnOutput::Success(value) => v@ == txn_output_enc(true, value@, Seq::<char>::empty()),
            TxnOutput::Error(message) => v@ == txn_output_enc(
                false,
                Seq::<u8>::empty(),
                message@,
            ),
        }),
        (match output {
            TxnOutput::Success(value) => r is Some <==> cbor_ok(value@),
            TxnOutput::Error(_) => r is Some,
        }),
{
    let mut map = std::collections::BTreeMap::new();
    match output {
        TxnOutput::Success(value) => {
            let v: serde_cbor::Value = serde_cbor::from_slice(value.as_slice()).ok()?;
            map.insert(Value::Text("Success".to_string()), v);
        }
        TxnOutput::Error(message) => {
            let m = Value::Text(message.clone());
            map.insert(Value::Text("Error".to_string()), m);
        }
    }
    serde_cbor::to_vec(&Value::Map(map)).ok()
}

/// Relies on serde_cbor::to_vec: a text value always serializes, and
/// re-encoding it is the identity.
#[verifier::external_body]
pub fn encode_cbor_text(text: &str) -> (r: Vec<u8>)
    ensures
        r@ == text_value_enc(text@),
        cbor_ok(r@) && cbor_norm(r@) == r@,
{
    serde_cbor::to_vec(&Value::Text(text.to_string())).unwrap()
}

/// Relies on serde_cbor::to_vec and serde_cbor::from_slice: a list of byte
/// strings always serializes, and decoding the encoding returns the list.
#[verifier::external_body]
pub fn encode_bytes_list(items: &Vec<Vec<u8>>) -> (r: Vec<u8>)
    ensures
        r@ == bytes_list_enc(Seq::new(items@.len(), |i: int| items@[i]@)),
        bytes_list_dec(r@) == Some(Seq::new(items@.len(), |i: int| items@[i]@)),
{
    let list: Vec<serde_cbor::Value> =
        items.iter().map(|b| Value::Bytes(b.clone())).collect();
    serde_cbor::to_vec(&Value::Array(list)).unwrap()
}

/// Relies on serde_cbor::from_slice: decodes a CBOR array of byte strings.
#[verifier::external_body]
pub fn decode_bytes_list(data: &Vec<u8>) -> (r: Option<Vec<Vec<u8>>>)
    ensures
        r is Some <==> bytes_list_dec(data@) is Some,
        r matches Some(v) ==> bytes_list_dec(data@) == Some(
            Seq::new(v@.len(), |i: int| v@[i]@),
        ),
{
    let value: serde_cbor::Value = serde_cbor::from_slice(data.as_slice()).ok()?;
    let list = if let Value::Array(l) = value { l } else { return None };
    let mut out = Vec::with_capacity(list.len());
    for item in list {
        let bytes = if let Value::Bytes(b) = item { b } else { return None };
        out.push(bytes);
    }
    Some(out)
}

/// Relies on serde_cbor::to_vec: encodes a compute results header as a map
/// of its fields, leaving out the fields that are absent.
#[verifier::external_body]
pub fn encode_compute_results_header(header: &ComputeResultsHeader) -> (r: Vec<u8>)
    ensures
        r@ == header_enc(
            header.round,
            header.previous_hash@,
            (match header.io_root {
                Some(h) => Some(h@),
                None => None,
            }),
            (match header.state_root {
                Some(h) => Some(h@),
                None => None,
            }),
            (match header.messages_hash {
                Some(h) => Some(h@),
                None => None,
            }),
        ),
{
    let mut map = std::collections::BTreeMap::new();
    let text = |s: &str| Value::Text(s.to_string());
    map.insert(text("round"), Value::Integer(header.round as i128));
    map.insert(text("previous_hash"), Value::Bytes(header.previous_hash.bytes.clone()));
    if let Some(h) = &header.io_root {
        map.insert(text("io_root"), Value::Bytes(h.bytes.clone()));
    }
    if let Some(h) = &header.state_root {
        map.insert(text("state_root"), Value::Bytes(h.bytes.clone()));
    }
    if let Some(h) = &header.messages_hash {
        map.insert(text("messages_hash"), Value::Bytes(h.bytes.clone()));
    }
    serde_cbor::to_vec(&Value::Map(map)).unwrap()
}

/// Relies on serde_cbor::to_vec: encodes a block header as a map of its
/// fields.
#[verifier::external_body]
pub fn encode_block_header(header: &Header) -> (r: Vec<u8>)
    ensures
        r@ == block_header_enc(
            header.namespace@,
            header.round,
            header.timestamp,
            header.previous_hash@,
            header.io_root@,
            header.state_root@,
        ),
{
    let mut map = std::collections::BTreeMap::new();
    let text = |s: &str| Value::Text(s.to_string());
    map.insert(text("namespace"), Value::Bytes(header.namespace.bytes.clone()));
    map.insert(text("round"), Value::Integer(header.round as i128));
    map.insert(text("timestamp"), Value::Integer(header.timestamp as i128));
    map.insert(text("previous_hash"), Value::Bytes(header.previous_hash.bytes.clone()));
    map.insert(text("io_root"), Value::Bytes(header.io_root.bytes.clone()));
    map.insert(text("state_root"), Value::Bytes(header.state_root.bytes.clone()));
    serde_cbor::to_vec(&Value::Map(map)).unwrap()
}

/// Relies on serde_cbor::from_slice and serde_cbor::to_vec: decodes a map
/// `{"args": <value>, "method": <text>}` into a remote procedure call
/// request with re-encoded arguments.
#[verifier::external_body]
pub fn decode_rpc_request(data: &Vec<u8>) -> (r: Option<RpcRequest>)
    ensures
        r is Some <==> rpc_request_dec(data@) is Some,
        r matches Some(q) ==> rpc_request_dec(data@) == Some((q.method@, q.args@)),
        r matches Some(q) ==> cbor_ok(q.args@) && cbor_norm(q.args@) == q.args@,
{
    let value: serde_cbor::Value = serde_cbor::from_slice(data.as_slice()).ok()?;
    let map = if let Value::Map(m) = value { m } else { return None };
    let method = match map.get(&Value::Text("method".to_string())) {
        Some(Value::Text(s)) => s.clone(),
        _ => return None,
    };
    let args_value = map.get(&Value::Text("args".to_string()))?;
    let args = serde_cbor::to_vec(args_value).ok()?;
    Some(RpcRequest { method, args })
}

/// Relies on serde_cbor::to_vec and serde_cbor::from_slice: wraps an
/// encoded body as the message `{"Response": {"body": <value>}}`; decoding
/// the result recovers the re-encoded body. Fails exactly when the body is
/// not a CBOR document. Since serializing a parsed value and serializing
/// the value parsed from that serialization give the same bytes, encoding
/// a body and encoding its re-encoding agree.
#[verifier::external_body]
pub fn encode_rpc_response_message(body: &Vec<u8>) -> (r: Option<Vec<u8>>)
    ensures
        r is Some <==> cbor_ok(body@),
        r matches Some(v) ==> v@ == rpc_response_msg_enc(body@),
        r matches Some(v) ==> v@ == rpc_response_msg_enc(cbor_norm(body@)),
        r matches Some(v) ==> rpc_response_msg_dec(v@) == Some(cbor_norm(body@)),
{
    let value: serde_cbor::Value = serde_cbor::from_slice(body.as_slice()).ok()?;
    let mut inner = std::collections::BTreeMap::new();
    inner.insert(Value::Text("body".to_string()), value);
    let mut outer = std::collections::BTreeMap::new();
    outer.insert(
        Value::Text("Response".to_string()),
        Value::Map(inner),
    );
    serde_cbor::to_vec(&Value::Map(outer)).ok()
}

/// Relies on serde_cbor::from_slice and serde_cbor::to_vec: recovers the
/// re-encoded body from a `{"Response": {"body": <value>}}` message.
#[verifier::external_body]
pub fn decode_rpc_response_message(data: &Vec<u8>) -> (r: Option<Vec<u8>>)
    ensures
        r is Some <==> rpc_response_msg_dec(data@) is Some,
        r matches Some(v) ==> rpc_response_msg_dec(data@) == Some(v@),
{
    let value: serde_cbor::Value = serde_cbor::from_slice(data.as_slice()).ok()?;
    let map = if let Value::Map(m) = value { m } else { return None };
    let inner = match map.get(&Value::Text("Response".to_string())) {
        Some(Value::Map(m)) => m,
        _ => return None,
    };
    let body_value = inner.get(&Value::Text("body".to_string()))?;
    serde_cbor::to_vec(body_value).ok()
}

} // verus!
