use runtime_dispatcher::dispatcher::{
    run_step, Dispatcher as HostDispatcher, StepAction, Verifier, Worker,
};
use runtime_dispatcher::mkvs::OverlayTree;
use runtime_dispatcher::queue::QueueFull;
use runtime_dispatcher::rpc_types::{ProcessedFrame, RpcContext, RpcMessage, RpcRequest,
    RpcResponse};
use runtime_dispatcher::dispatcher::{NullRak, RpcDemux, RpcDispatcher};
use runtime_dispatcher::txn_dispatcher::NoopDispatcher;
use runtime_dispatcher::types::{Body, ComputeResultsHeader, ConsensusState, Error, Header,
    LightBlock, Namespace};
use runtime_dispatcher::BACKLOG_SIZE;

struct OkVerifier;

impl Verifier for OkVerifier {
    fn sync(&mut self, _height: u64) -> Result<(), Error> {
        Ok(())
    }

    fn verify(&mut self, _consensus_block: &LightBlock, _header: &Header) -> Result<
        ConsensusState,
        Error,
    > {
        Ok(ConsensusState { height: 0 })
    }

    fn unverified_state(&mut self, _consensus_block: &LightBlock) -> Result<
        ConsensusState,
        Error,
    > {
        Ok(ConsensusState { height: 0 })
    }

    fn trust(&mut self, _header: &ComputeResultsHeader) -> Result<(), Error> {
        Ok(())
    }
}

struct DeadDemux;

impl RpcDemux for DeadDemux {
    fn process_frame(&mut self, _request: Vec<u8>) -> Result<ProcessedFrame, Error> {
        Err(Error::new("demux", 1, "closed"))
    }

    fn write_message(&mut self, _session_id: u64, _message: RpcMessage) -> Result<Vec<u8>, Error> {
        Err(Error::new("demux", 1, "closed"))
    }

    fn close(&mut self, _session_id: u64) -> Result<Vec<u8>, Error> {
        Err(Error::new("demux", 1, "closed"))
    }
}

struct DeadRpc;

impl RpcDispatcher for DeadRpc {
    fn dispatch(&mut self, _request: RpcRequest, _ctx: RpcContext) -> RpcResponse {
        RpcResponse { body: vec![] }
    }

    fn dispatch_local(&mut self, _request: RpcRequest, _ctx: RpcContext) -> RpcResponse {
        RpcResponse { body: vec![] }
    }

    fn handle_km_policy_update(&mut self, _signed_policy_raw: Vec<u8>) {}
}

fn plain_worker() -> Worker<OkVerifier, NullRak, DeadDemux, DeadRpc, NoopDispatcher> {
    Worker::new(
        Namespace { bytes: vec![7u8; 32] },
        OkVerifier,
        NullRak,
        DeadDemux,
        DeadRpc,
        NoopDispatcher::new(),
    )
}

#[test]
fn backlog_overflow_returns_queue_full_synchronously() {
    let mut host = HostDispatcher::new();
    for i in 0..BACKLOG_SIZE {
        host.queue_request(i as u64, Body::RuntimeConsensusSyncRequest { height: i as u64 })
            .expect("backlog should accept up to its capacity");
    }
    let over = host.queue_request(
        BACKLOG_SIZE as u64,
        Body::RuntimeConsensusSyncRequest { height: 0 },
    );
    assert_eq!(over, Err(QueueFull));
}

#[test]
fn responses_follow_queue_order() {
    let mut host = HostDispatcher::new();
    let mut worker = plain_worker();
    host.queue_request(1, Body::RuntimeConsensusSyncRequest { height: 10 }).unwrap();
    host.queue_request(2, Body::RuntimeConsensusSyncRequest { height: 20 }).unwrap();
    let first = run_step(&mut host, &mut worker);
    let second = run_step(&mut host, &mut worker);
    match (first.action, second.action) {
        (StepAction::Respond { id: a, .. }, StepAction::Respond { id: b, .. }) => {
            assert_eq!((a, b), (1, 2));
        }
        _ => panic!("both requests should get responses, in order"),
    }
}

#[test]
fn idle_worker_reports_nothing_to_do() {
    let mut host = HostDispatcher::new();
    let mut worker = plain_worker();
    let outcome = run_step(&mut host, &mut worker);
    assert!(!outcome.acked);
    assert!(matches!(outcome.action, StepAction::Idle));
}

#[test]
fn abort_is_acknowledged_within_one_cycle() {
    let mut host = HostDispatcher::new();
    let mut worker = plain_worker();
    // The host raises the abort flag and queues the sentinel so the
    // worker wakes even when idle.
    host.request_abort(99).unwrap();
    assert!(!host.take_ack());
    let outcome = run_step(&mut host, &mut worker);
    // The flag was observed at the top of the cycle and acknowledged;
    // the sentinel itself produces no response.
    assert!(outcome.acked);
    assert!(matches!(outcome.action, StepAction::Continue));
    assert!(host.take_ack());
    // The next request is processed normally.
    host.queue_request(5, Body::RuntimeConsensusSyncRequest { height: 1 }).unwrap();
    let next = run_step(&mut host, &mut worker);
    assert!(!next.acked);
    match next.action {
        StepAction::Respond { id, body } => {
            assert_eq!(id, 5);
            assert!(matches!(body, Body::RuntimeConsensusSyncResponse {}));
        }
        _ => panic!("the request after an abort should be answered"),
    }
}

#[test]
fn start_publishes_the_runtime_id_once() {
    let mut host = HostDispatcher::new();
    assert!(host.take_state().is_none());
    host.start(Namespace { bytes: vec![3u8; 32] });
    let taken = host.take_state().expect("state should be published");
    assert_eq!(taken.bytes, vec![3u8; 32]);
    // The slot is consumed: the worker never consults it again.
    assert!(host.take_state().is_none());
}
