use runtime_dispatcher::codec::{
    decode_rpc_response_message, digest_bytes, encode_block_header, encode_compute_results_header,
};
use runtime_dispatcher::dispatcher::{
    build_io_root, run_step, DigestRak, DispatchOutcome, Dispatcher as HostDispatcher,
    FatalReason, RpcDemux, RpcDispatcher, StepAction, Verifier, Worker,
};
use runtime_dispatcher::mkvs::OverlayTree;
use runtime_dispatcher::rpc_types::{
    ProcessedFrame, RpcContext, RpcMessage, RpcRequest, RpcResponse, SessionInfo,
};
use runtime_dispatcher::txn_dispatcher::{
    ExecuteBatchResult, TxOutput, TxnContext, TxnDispatcher,
};
use runtime_dispatcher::txn_types::TxnBatch;
use runtime_dispatcher::types::{
    Block, Body, ComputeResultsHeader, ConsensusState, Digest, Error, Header, LightBlock,
    Namespace, RoundResults,
};

fn zero_digest() -> Digest {
    Digest { bytes: vec![0u8; 32] }
}

fn runtime_ns() -> Namespace {
    Namespace { bytes: vec![7u8; 32] }
}

fn header_at(round: u64, state_root: Digest, namespace: Namespace) -> Header {
    Header {
        namespace,
        round,
        timestamp: 1_700_000_000,
        previous_hash: zero_digest(),
        io_root: zero_digest(),
        state_root,
    }
}

fn light_block(height: u64) -> LightBlock {
    LightBlock { height, meta: vec![] }
}

/// Records every call; verification always succeeds.
struct MockVerifier {
    sync_heights: Vec<u64>,
    verify_calls: usize,
    trusted: usize,
}

impl MockVerifier {
    fn new() -> MockVerifier {
        MockVerifier { sync_heights: vec![], verify_calls: 0, trusted: 0 }
    }
}

impl Verifier for MockVerifier {
    fn sync(&mut self, height: u64) -> Result<(), Error> {
        self.sync_heights.push(height);
        Ok(())
    }

    fn verify(&mut self, consensus_block: &LightBlock, _header: &Header) -> Result<
        ConsensusState,
        Error,
    > {
        self.verify_calls += 1;
        Ok(ConsensusState { height: consensus_block.height })
    }

    fn unverified_state(&mut self, consensus_block: &LightBlock) -> Result<ConsensusState, Error> {
        Ok(ConsensusState { height: consensus_block.height })
    }

    fn trust(&mut self, _header: &ComputeResultsHeader) -> Result<(), Error> {
        self.trusted += 1;
        Ok(())
    }
}

/// Hands back one scripted frame, then fails.
struct ScriptDemux {
    next: Option<ProcessedFrame>,
    written: usize,
}

impl RpcDemux for ScriptDemux {
    fn process_frame(&mut self, _request: Vec<u8>) -> Result<ProcessedFrame, Error> {
        match self.next.take() {
            Some(frame) => Ok(frame),
            None => Err(Error::new("demux", 1, "no session")),
        }
    }

    fn write_message(&mut self, _session_id: u64, _message: RpcMessage) -> Result<Vec<u8>, Error> {
        self.written += 1;
        Ok(b"framed response".to_vec())
    }

    fn close(&mut self, _session_id: u64) -> Result<Vec<u8>, Error> {
        Ok(b"closed".to_vec())
    }
}

fn idle_demux() -> ScriptDemux {
    ScriptDemux { next: None, written: 0 }
}

/// Echoes request arguments back as the response body and counts calls.
struct EchoRpc {
    dispatched: usize,
    local_dispatched: usize,
    policies: Vec<Vec<u8>>,
}

impl EchoRpc {
    fn new() -> EchoRpc {
        EchoRpc { dispatched: 0, local_dispatched: 0, policies: vec![] }
    }
}

impl RpcDispatcher for EchoRpc {
    fn dispatch(&mut self, request: RpcRequest, _ctx: RpcContext) -> RpcResponse {
        self.dispatched += 1;
        RpcResponse { body: request.args }
    }

    fn dispatch_local(&mut self, request: RpcRequest, _ctx: RpcContext) -> RpcResponse {
        self.local_dispatched += 1;
        RpcResponse { body: request.args }
    }

    fn handle_km_policy_update(&mut self, signed_policy_raw: Vec<u8>) {
        self.policies.push(signed_policy_raw);
    }
}

/// Echoes each input as its output and writes one key per batch.
struct EchoTxn {
    executed: usize,
    checked: usize,
}

impl EchoTxn {
    fn new() -> EchoTxn {
        EchoTxn { executed: 0, checked: 0 }
    }
}

impl TxnDispatcher for EchoTxn {
    fn execute_batch(
        &mut self,
        _ctx: TxnContext,
        overlay: &mut OverlayTree,
        batch: &TxnBatch,
    ) -> Result<ExecuteBatchResult, Error> {
        self.executed += 1;
        overlay.insert(b"round-key".to_vec(), b"round-value".to_vec());
        let mut results = Vec::new();
        for tx in &batch.0 {
            results.push(TxOutput { output: tx.clone(), tags: vec![] });
        }
        Ok(ExecuteBatchResult {
            results,
            messages: vec![b"message-one".to_vec()],
            block_tags: vec![],
            batch_weight_limits: None,
        })
    }

    fn check_batch(
        &mut self,
        _ctx: TxnContext,
        _overlay: &mut OverlayTree,
        batch: &TxnBatch,
    ) -> Result<TxnBatch, Error> {
        self.checked += 1;
        Ok(TxnBatch(batch.0.clone()))
    }

    fn query(
        &mut self,
        _ctx: TxnContext,
        _overlay: &mut OverlayTree,
        _method: &String,
        args: Vec<u8>,
    ) -> Result<Vec<u8>, Error> {
        Ok(args)
    }

    fn finalize(&mut self, _new_state_root: &Digest) {}
}

type TestWorker = Worker<MockVerifier, DigestRak, ScriptDemux, EchoRpc, EchoTxn>;

fn test_worker(rak_present: bool, demux: ScriptDemux) -> TestWorker {
    Worker::new(
        runtime_ns(),
        MockVerifier::new(),
        DigestRak { present: rak_present },
        demux,
        EchoRpc::new(),
        EchoTxn::new(),
    )
}

fn execute_request(inputs: Vec<Vec<u8>>, io_root: Digest, header: Header) -> Body {
    Body::RuntimeExecuteTxBatchRequest {
        consensus_block: light_block(10),
        round_results: RoundResults { raw: vec![] },
        io_root,
        inputs: Some(TxnBatch(inputs)),
        block: Block { header },
        epoch: 3,
        max_messages: 16,
    }
}

fn respond(outcome: StepAction) -> (u64, Body) {
    match outcome {
        StepAction::Respond { id, body } => (id, body),
        _ => panic!("expected a response directive"),
    }
}

#[test]
fn happy_execute_round_trip() {
    let ns = runtime_ns();
    let inputs = vec![b"a".to_vec(), b"b".to_vec()];
    let header = header_at(5, zero_digest(), ns.clone());
    // The host builds the I/O tree from the same inputs.
    let io_root = build_io_root(&ns, 6, &TxnBatch(inputs.clone()));
    let mut host = HostDispatcher::new();
    let mut worker = test_worker(true, idle_demux());
    host.queue_request(41, execute_request(inputs, io_root, header.clone())).unwrap();
    let outcome = run_step(&mut host, &mut worker);
    assert!(!outcome.acked);
    let (id, body) = respond(outcome.action);
    assert_eq!(id, 41);
    let batch = match body {
        Body::RuntimeExecuteTxBatchResponse { batch, .. } => batch,
        other => panic!("unexpected response: {:?}", other),
    };
    // The new header extends the old one.
    assert_eq!(batch.header.round, 6);
    assert_eq!(
        batch.header.previous_hash.bytes,
        digest_bytes(&encode_block_header(&header)),
    );
    // The cache moved to the committed root.
    assert_eq!(worker.cache.root.version, 6);
    assert_eq!(
        worker.cache.root.hash.bytes,
        batch.header.state_root.as_ref().unwrap().bytes,
    );
    // The attestation signature binds exactly the encoded header, and
    // the encoding really is a CBOR map of the header's fields.
    let signed = encode_compute_results_header(&batch.header);
    assert_eq!(batch.rak_sig.bytes, digest_bytes(&signed));
    let signed_value: serde_cbor::Value = serde_cbor::from_slice(&signed).unwrap();
    match signed_value {
        serde_cbor::Value::Map(m) => {
            assert_eq!(
                m.get(&serde_cbor::Value::Text("round".to_string())),
                Some(&serde_cbor::Value::Integer(6)),
            );
        }
        _ => panic!("encoded header should be a map"),
    }
    let encoded_parent: serde_cbor::Value =
        serde_cbor::from_slice(&encode_block_header(&header)).unwrap();
    match encoded_parent {
        serde_cbor::Value::Map(m) => {
            assert_eq!(
                m.get(&serde_cbor::Value::Text("round".to_string())),
                Some(&serde_cbor::Value::Integer(5)),
            );
            assert_eq!(
                m.get(&serde_cbor::Value::Text("timestamp".to_string())),
                Some(&serde_cbor::Value::Integer(1_700_000_000)),
            );
        }
        _ => panic!("encoded block header should be a map"),
    }
    // One state write from the sub-dispatcher reached the cached tree.
    assert_eq!(worker.cache.mkvs.contents.len(), 1);
    assert_eq!(worker.consensus_verifier.verify_calls, 1);
    assert_eq!(worker.consensus_verifier.trusted, 1);
}

#[test]
fn execute_without_rak_has_empty_signature() {
    let ns = runtime_ns();
    let inputs = vec![b"solo".to_vec()];
    let header = header_at(0, zero_digest(), ns.clone());
    let io_root = build_io_root(&ns, 1, &TxnBatch(inputs.clone()));
    let mut worker = test_worker(false, idle_demux());
    let outcome = worker.dispatch_request(execute_request(inputs, io_root, header));
    match outcome {
        DispatchOutcome::Response(Body::RuntimeExecuteTxBatchResponse { batch, .. }) => {
            assert!(batch.rak_sig.bytes.is_empty());
        }
        other => panic!("unexpected outcome: {:?}", debug_name(&other)),
    }
}

#[test]
fn io_root_mismatch_is_fatal() {
    let ns = runtime_ns();
    let inputs = vec![b"a".to_vec(), b"b".to_vec()];
    let header = header_at(5, zero_digest(), ns.clone());
    let mut bad_root = vec![0xde, 0xad, 0xbe, 0xef];
    bad_root.resize(32, 0xaa);
    let mut worker = test_worker(true, idle_demux());
    let outcome = worker.dispatch_request(execute_request(
        inputs,
        Digest { bytes: bad_root },
        header,
    ));
    assert!(matches!(outcome, DispatchOutcome::Fatal(FatalReason::IoRootMismatch)));
}

#[test]
fn namespace_mismatch_is_fatal() {
    let other_ns = Namespace { bytes: vec![9u8; 32] };
    let inputs = vec![b"a".to_vec()];
    let header = header_at(5, zero_digest(), other_ns.clone());
    let io_root = build_io_root(&other_ns, 6, &TxnBatch(inputs.clone()));
    let mut worker = test_worker(true, idle_demux());
    let outcome = worker.dispatch_request(execute_request(inputs, io_root, header));
    assert!(matches!(outcome, DispatchOutcome::Fatal(FatalReason::NamespaceMismatch)));
}

#[test]
fn cache_is_reused_across_consecutive_rounds() {
    let ns = runtime_ns();
    let mut worker = test_worker(false, idle_demux());
    let inputs = vec![b"a".to_vec()];
    let header = header_at(0, zero_digest(), ns.clone());
    let io_root = build_io_root(&ns, 1, &TxnBatch(inputs.clone()));
    let outcome = worker.dispatch_request(execute_request(inputs.clone(), io_root, header));
    let first_state_root = match outcome {
        DispatchOutcome::Response(Body::RuntimeExecuteTxBatchResponse { batch, .. }) => {
            batch.header.state_root.unwrap()
        }
        _ => panic!("first execute should respond"),
    };
    assert_eq!(worker.cache.mkvs.contents.len(), 1);
    // The next round extends the root the cache now stands at: the tree
    // is reused, so its materialized writes accumulate.
    let header2 = header_at(1, first_state_root, ns.clone());
    let io_root2 = build_io_root(&ns, 2, &TxnBatch(inputs.clone()));
    let outcome2 = worker.dispatch_request(execute_request(inputs, io_root2, header2));
    assert!(matches!(
        outcome2,
        DispatchOutcome::Response(Body::RuntimeExecuteTxBatchResponse { .. })
    ));
    assert_eq!(worker.cache.mkvs.contents.len(), 2);
    assert_eq!(worker.cache.mkvs.contents[0].key, b"round-key".to_vec());
}

fn debug_name(outcome: &DispatchOutcome) -> &'static str {
    match outcome {
        DispatchOutcome::Response(_) => "response",
        DispatchOutcome::Continue => "continue",
        DispatchOutcome::Fatal(_) => "fatal",
        DispatchOutcome::Terminate => "terminate",
    }
}

#[test]
fn check_path_commits_nothing() {
    let ns = runtime_ns();
    let mut worker = test_worker(false, idle_demux());
    let header = header_at(4, zero_digest(), ns.clone());
    let body = Body::RuntimeCheckTxBatchRequest {
        consensus_block: light_block(9),
        inputs: TxnBatch(vec![b"tx1".to_vec(), b"tx2".to_vec()]),
        block: Block { header },
        epoch: 2,
        max_messages: 4,
    };
    let outcome = worker.dispatch_request(body);
    match outcome {
        DispatchOutcome::Response(Body::RuntimeCheckTxBatchResponse { results }) => {
            assert_eq!(results.0, vec![b"tx1".to_vec(), b"tx2".to_vec()]);
        }
        other => panic!("unexpected outcome: {:?}", debug_name(&other)),
    }
    // The check cache is bound to the block's round, not advanced, and
    // nothing was committed into either tree.
    assert_eq!(worker.cache_check.root.version, 4);
    assert_eq!(worker.cache_check.mkvs.contents.len(), 0);
    assert_eq!(worker.cache.mkvs.contents.len(), 0);
    assert_eq!(worker.txn_dispatcher.checked, 1);
}

#[test]
fn rpc_method_confusion_is_rejected_before_dispatch() {
    let frame = ProcessedFrame::Message {
        session_id: 1,
        session_info: Some(SessionInfo { raw: vec![] }),
        message: RpcMessage::Request(RpcRequest {
            method: "transfer".to_string(),
            args: vec![0xf6],
        }),
        untrusted_plaintext: "query".to_string(),
    };
    let mut worker = test_worker(false, ScriptDemux { next: Some(frame), written: 0 });
    let outcome = worker.dispatch_request(Body::RuntimeRPCCallRequest { request: vec![] });
    match outcome {
        DispatchOutcome::Response(Body::Error(e)) => {
            assert_eq!(e.module, "rhp/dispatcher");
            assert_eq!(e.code, 1);
        }
        other => panic!("unexpected outcome: {:?}", debug_name(&other)),
    }
    // The handler was never invoked.
    assert_eq!(worker.rpc_dispatcher.dispatched, 0);
}

#[test]
fn rpc_matching_method_is_dispatched() {
    let frame = ProcessedFrame::Message {
        session_id: 1,
        session_info: None,
        message: RpcMessage::Request(RpcRequest {
            method: "query".to_string(),
            args: vec![0xf6],
        }),
        untrusted_plaintext: "query".to_string(),
    };
    let mut worker = test_worker(false, ScriptDemux { next: Some(frame), written: 0 });
    let outcome = worker.dispatch_request(Body::RuntimeRPCCallRequest { request: vec![] });
    match outcome {
        DispatchOutcome::Response(Body::RuntimeRPCCallResponse { response }) => {
            assert_eq!(response, b"framed response".to_vec());
        }
        other => panic!("unexpected outcome: {:?}", debug_name(&other)),
    }
    assert_eq!(worker.rpc_dispatcher.dispatched, 1);
    assert_eq!(worker.rpc_demux.written, 1);
}

#[test]
fn consensus_sync_calls_verifier_once() {
    let mut host = HostDispatcher::new();
    let mut worker = test_worker(false, idle_demux());
    host.queue_request(7, Body::RuntimeConsensusSyncRequest { height: 42 }).unwrap();
    let outcome = run_step(&mut host, &mut worker);
    let (id, body) = respond(outcome.action);
    assert_eq!(id, 7);
    assert!(matches!(body, Body::RuntimeConsensusSyncResponse {}));
    assert_eq!(worker.consensus_verifier.sync_heights, vec![42]);
}

#[test]
fn km_policy_update_returns_empty_response() {
    let mut worker = test_worker(false, idle_demux());
    let outcome = worker.dispatch_request(Body::RuntimeKeyManagerPolicyUpdateRequest {
        signed_policy_raw: b"policy".to_vec(),
    });
    assert!(matches!(
        outcome,
        DispatchOutcome::Response(Body::RuntimeKeyManagerPolicyUpdateResponse {})
    ));
    assert_eq!(worker.rpc_dispatcher.policies, vec![b"policy".to_vec()]);
}

#[test]
fn local_rpc_round_trips_through_cbor() {
    // Encode a request the way the host would.
    let mut args = std::collections::BTreeMap::new();
    args.insert(
        serde_cbor::Value::Text("greeting".to_string()),
        serde_cbor::Value::Text("hello".to_string()),
    );
    let args_value = serde_cbor::Value::Map(args);
    let mut request = std::collections::BTreeMap::new();
    request.insert(
        serde_cbor::Value::Text("method".to_string()),
        serde_cbor::Value::Text("echo".to_string()),
    );
    request.insert(serde_cbor::Value::Text("args".to_string()), args_value.clone());
    let encoded = serde_cbor::to_vec(&serde_cbor::Value::Map(request)).unwrap();

    let mut worker = test_worker(false, idle_demux());
    let outcome = worker.dispatch_request(Body::RuntimeLocalRPCCallRequest { request: encoded });
    let response = match outcome {
        DispatchOutcome::Response(Body::RuntimeLocalRPCCallResponse { response }) => response,
        other => panic!("unexpected outcome: {:?}", debug_name(&other)),
    };
    assert_eq!(worker.rpc_dispatcher.local_dispatched, 1);
    // The echoed response decodes back to the handler's return value.
    let decoded: serde_cbor::Value = serde_cbor::from_slice(&response).unwrap();
    let map = match decoded {
        serde_cbor::Value::Map(m) => m,
        _ => panic!("response should be a map"),
    };
    let inner = match map.get(&serde_cbor::Value::Text("Response".to_string())) {
        Some(serde_cbor::Value::Map(m)) => m,
        _ => panic!("missing response wrapper"),
    };
    let body = inner.get(&serde_cbor::Value::Text("body".to_string())).unwrap();
    assert_eq!(body, &args_value);
    // The library's own decoder recovers the handler's body bytes.
    let recovered = decode_rpc_response_message(&response).expect("must decode");
    assert_eq!(recovered, serde_cbor::to_vec(&args_value).unwrap());
}

#[test]
fn malformed_local_rpc_is_rejected() {
    let mut worker = test_worker(false, idle_demux());
    let outcome = worker.dispatch_request(Body::RuntimeLocalRPCCallRequest {
        request: vec![0xff, 0x00],
    });
    match outcome {
        DispatchOutcome::Response(Body::Error(e)) => {
            assert_eq!(e.module, "rhp/dispatcher");
            assert_eq!(e.code, 1);
            assert_eq!(e.message, "malformed request");
        }
        other => panic!("unexpected outcome: {:?}", debug_name(&other)),
    }
}

#[test]
fn unsupported_request_terminates_loop() {
    let mut host = HostDispatcher::new();
    let mut worker = test_worker(false, idle_demux());
    host.queue_request(3, Body::Empty {}).unwrap();
    let outcome = run_step(&mut host, &mut worker);
    assert!(matches!(outcome.action, StepAction::Terminate));
}

#[test]
fn query_returns_data_and_leaves_execute_cache_alone() {
    let ns = runtime_ns();
    let mut worker = test_worker(false, idle_demux());
    let header = header_at(2, zero_digest(), ns.clone());
    let outcome = worker.dispatch_request(Body::RuntimeQueryRequest {
        consensus_block: light_block(4),
        header,
        epoch: 1,
        max_messages: 0,
        method: "state".to_string(),
        args: b"query-args".to_vec(),
    });
    match outcome {
        DispatchOutcome::Response(Body::RuntimeQueryResponse { data }) => {
            assert_eq!(data, b"query-args".to_vec());
        }
        other => panic!("unexpected outcome: {:?}", debug_name(&other)),
    }
    assert_eq!(worker.cache.mkvs.contents.len(), 0);
    assert_eq!(worker.cache_check.root.version, 2);
}

#[test]
fn rpc_frame_error_is_reported_as_dispatch_error() {
    let mut worker = test_worker(false, idle_demux());
    let outcome = worker.dispatch_request(Body::RuntimeRPCCallRequest { request: vec![1, 2, 3] });
    match outcome {
        DispatchOutcome::Response(Body::Error(e)) => {
            assert_eq!(e.module, "rhp/dispatcher");
            assert_eq!(e.code, 1);
            assert_eq!(e.message, "no session");
        }
        other => panic!("unexpected outcome: {:?}", debug_name(&other)),
    }
}

#[test]
fn rpc_unexpected_message_type_is_rejected() {
    let frame = ProcessedFrame::Message {
        session_id: 2,
        session_info: None,
        message: RpcMessage::Response(RpcResponse { body: vec![] }),
        untrusted_plaintext: String::new(),
    };
    let mut worker = test_worker(false, ScriptDemux { next: Some(frame), written: 0 });
    let outcome = worker.dispatch_request(Body::RuntimeRPCCallRequest { request: vec![] });
    match outcome {
        DispatchOutcome::Response(Body::Error(e)) => {
            assert_eq!(e.module, "rhp/dispatcher");
            assert_eq!(e.code, 1);
            assert_eq!(e.message, "invalid RPC message type");
        }
        other => panic!("unexpected outcome: {:?}", debug_name(&other)),
    }
}

#[test]
fn rpc_session_close_returns_framed_bytes() {
    let frame = ProcessedFrame::Message {
        session_id: 3,
        session_info: None,
        message: RpcMessage::Close,
        untrusted_plaintext: String::new(),
    };
    let mut worker = test_worker(false, ScriptDemux { next: Some(frame), written: 0 });
    let outcome = worker.dispatch_request(Body::RuntimeRPCCallRequest { request: vec![] });
    match outcome {
        DispatchOutcome::Response(Body::RuntimeRPCCallResponse { response }) => {
            assert_eq!(response, b"closed".to_vec());
        }
        other => panic!("unexpected outcome: {:?}", debug_name(&other)),
    }
}

/// A verifier that refuses to verify: execute batches must surface its
/// error as a response, not abort the process.
struct RefusingVerifier;

impl Verifier for RefusingVerifier {
    fn sync(&mut self, _height: u64) -> Result<(), Error> {
        Err(Error::new("verifier", 7, "sync refused"))
    }

    fn verify(&mut self, _consensus_block: &LightBlock, _header: &Header) -> Result<
        ConsensusState,
        Error,
    > {
        Err(Error::new("verifier", 7, "verification failed"))
    }

    fn unverified_state(&mut self, _consensus_block: &LightBlock) -> Result<
        ConsensusState,
        Error,
    > {
        Err(Error::new("verifier", 7, "no state"))
    }

    fn trust(&mut self, _header: &ComputeResultsHeader) -> Result<(), Error> {
        Ok(())
    }
}

#[test]
fn verifier_failure_on_execute_is_an_error_response() {
    let ns = runtime_ns();
    let inputs = vec![b"a".to_vec()];
    let header = header_at(0, zero_digest(), ns.clone());
    let io_root = build_io_root(&ns, 1, &TxnBatch(inputs.clone()));
    let mut worker = Worker::new(
        ns,
        RefusingVerifier,
        DigestRak { present: false },
        idle_demux(),
        EchoRpc::new(),
        EchoTxn::new(),
    );
    let outcome = worker.dispatch_request(execute_request(inputs, io_root, header));
    match outcome {
        DispatchOutcome::Response(Body::Error(e)) => {
            assert_eq!(e.module, "verifier");
            assert_eq!(e.code, 7);
            assert_eq!(e.message, "verification failed");
        }
        other => panic!("unexpected outcome: {:?}", debug_name(&other)),
    }
    // Nothing was executed and nothing was committed.
    assert_eq!(worker.txn_dispatcher.executed, 0);
    assert_eq!(worker.cache.mkvs.contents.len(), 0);
}

#[test]
fn execute_round_beyond_limits_is_fatal() {
    let ns = runtime_ns();
    let inputs = vec![b"a".to_vec()];
    // A round that cannot be advanced is a broken host: the worker must
    // decide to kill the process, exactly as for other violations.
    let header = header_at(u64::MAX, zero_digest(), ns.clone());
    let mut host = HostDispatcher::new();
    let mut worker = test_worker(false, idle_demux());
    host.queue_request(11, execute_request(inputs, zero_digest(), header)).unwrap();
    let outcome = run_step(&mut host, &mut worker);
    assert!(matches!(
        outcome.action,
        StepAction::Fatal(FatalReason::LimitsExceeded)
    ));
}
