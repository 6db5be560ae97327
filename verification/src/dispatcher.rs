//! The runtime call dispatcher: request routing, the transaction execute,
//! check and query paths, the session and local call pipelines, and the
//! abort protocol.
//!
//! The worker's decisions live here and are verified; the surrounding
//! process — threads, the host transport, the blocking waits — drives
//! these functions and performs what they decide.
use vstd::prelude::*;

use vstd::string::StringExecFns;

use crate::cache::Cache;
use crate::codec::{block_header_enc, bytes_list_enc, cbor_norm, decode_rpc_request, digest_bytes,
    digest_of, encode_block_header, encode_bytes_list, encode_compute_results_header,
    encode_rpc_response_message, header_enc, rpc_request_dec, rpc_response_msg_dec,
    rpc_response_msg_enc};
use crate::mkvs::{clone_tags, inputs_view, io_root_of, log_view, OverlayTree, TxnTree};
use crate::queue::{QueueFull, RequestQueue};
use crate::rpc_types::{ProcessedFrame, RpcContext, RpcMessage, RpcRequest, RpcResponse};
use crate::txn_dispatcher::{ExecuteBatchResult, TxOutput, TxnContext, TxnDispatcher};
use crate::txn_types::TxnBatch;
use crate::types::{clone_bytes, string_equals, Body, ComputeResultsHeader, ComputedBatch,
    ConsensusState, Digest, EpochTime, Error, Header, LightBlock, Namespace, PublicKey, Root,
    RootType, RoundResults, Signature};

verus! {

/// The domain separator compute results headers are signed under.
pub open spec fn compute_results_header_context() -> Seq<char> {
    "oasis-core/roothash: compute results header"@
}

/// The domain separator, as a value.
pub fn header_context() -> (r: String)
    ensures
        r@ == compute_results_header_context(),
{
    "oasis-core/roothash: compute results header".to_string()
}

/// The consensus verifier, as the dispatcher drives it. Out of the
/// dispatcher's scope: nothing is assumed of what its methods return.
pub trait Verifier {
    /// Synchronize the verifier up to the given consensus height.
    fn sync(&mut self, height: u64) -> Result<(), Error>;

    /// Verify the consensus block against the runtime header; returns the
    /// verified consensus state. Must fail closed.
    fn verify(&mut self, consensus_block: &LightBlock, header: &Header) -> Result<
        ConsensusState,
        Error,
    >;

    /// Return consensus state without integrity verification.
    fn unverified_state(&mut self, consensus_block: &LightBlock) -> Result<ConsensusState, Error>;

    /// Record a header this runtime computed itself as trusted.
    fn trust(&mut self, header: &ComputeResultsHeader) -> Result<(), Error>;
}

/// The runtime attestation key, used solely as a signer.
pub trait Rak {
    /// Whether the key pair is present.
    spec fn has_key(&self) -> bool;

    /// The signature this key produces over a context and a message.
    spec fn sig_spec(&self, context: Seq<char>, message: Seq<u8>) -> Seq<u8>;

    /// The public key, when one is present.
    fn public_key(&self) -> (r: Option<PublicKey>)
        ensures
            r is Some <==> self.has_key(),
    ;

    /// Sign a message under a domain-separation context.
    fn sign(&self, context: &str, message: &Vec<u8>) -> (r: Result<Signature, Error>)
        ensures
            r matches Ok(s) ==> s.bytes@ == self.sig_spec(context@, message@),
    ;
}

/// The attestation key of a runtime that has none: it signs nothing.
pub struct NullRak;

impl Rak for NullRak {
    open spec fn has_key(&self) -> bool {
        false
    }

    open spec fn sig_spec(&self, context: Seq<char>, message: Seq<u8>) -> Seq<u8> {
        Seq::<u8>::empty()
    }

    fn public_key(&self) -> (r: Option<PublicKey>) {
        None
    }

    fn sign(&self, context: &str, message: &Vec<u8>) -> (r: Result<Signature, Error>) {
        Ok(Signature::empty())
    }
}

/// A stand-in attestation key for hosts without attestation hardware:
/// its "signature" is the digest of the message, which still binds the
/// signed bytes, but proves nothing about who signed them.
pub struct DigestRak {
    /// Whether the stand-in reports a public key at all.
    pub present: bool,
}

impl Rak for DigestRak {
    open spec fn has_key(&self) -> bool {
        self.present
    }

    open spec fn sig_spec(&self, context: Seq<char>, message: Seq<u8>) -> Seq<u8> {
        digest_of(message)
    }

    fn public_key(&self) -> (r: Option<PublicKey>) {
        if self.present {
            Some(PublicKey { bytes: Vec::new() })
        } else {
            None
        }
    }

    fn sign(&self, context: &str, message: &Vec<u8>) -> (r: Result<Signature, Error>) {
        Ok(Signature { bytes: digest_bytes(message) })
    }
}

/// The session demux: turns framed bytes into typed messages under a
/// session. Out of the dispatcher's scope; nothing is assumed of it.
pub trait RpcDemux {
    /// Process one incoming frame.
    fn process_frame(&mut self, request: Vec<u8>) -> Result<ProcessedFrame, Error>;

    /// Write a message for a session, returning the framed bytes.
    fn write_message(&mut self, session_id: u64, message: RpcMessage) -> Result<Vec<u8>, Error>;

    /// Close a session, returning the framed bytes to send back.
    fn close(&mut self, session_id: u64) -> Result<Vec<u8>, Error>;
}

/// The remote procedure call dispatcher behind the demux. Out of the
/// dispatcher's scope; nothing is assumed of it.
pub trait RpcDispatcher {
    /// Dispatch a request that arrived over a session.
    fn dispatch(&mut self, request: RpcRequest, ctx: RpcContext) -> RpcResponse;

    /// Dispatch a request made locally by the host, without a session.
    fn dispatch_local(&mut self, request: RpcRequest, ctx: RpcContext) -> RpcResponse;

    /// Apply a key-manager policy update.
    fn handle_km_policy_update(&mut self, signed_policy_raw: Vec<u8>);
}

/// A dispatcher initializer: builds the sub-dispatcher and may configure
/// the session layer.
pub trait Initializer<D: RpcDemux, R: RpcDispatcher, T: TxnDispatcher> {
    /// Initializes the dispatcher(s); `None` means the no-op
    /// sub-dispatcher is used.
    fn init(&self, rpc_demux: &mut D, rpc_dispatcher: &mut R) -> Option<T>;
}

/// State threaded through the dispatch of one transaction batch.
pub struct TxDispatchState {
    pub consensus_block: LightBlock,
    pub header: Header,
    pub epoch: EpochTime,
    pub round_results: RoundResults,
    pub max_messages: u32,
    pub check_only: bool,
}

/// What one handler decided.
pub enum HandlerOutcome {
    /// Send this body back for the request.
    Reply(Body),
    /// Send this error back for the request.
    Failure(Error),
    /// A protocol violation: the process must terminate at once.
    Fatal(FatalReason),
}

/// The entries the I/O tree gets from a batch: each input under its order.
pub open spec fn input_entries(batch: Seq<Seq<u8>>) -> Seq<(Seq<u8>, u32)> {
    Seq::new(batch.len(), |i: int| (batch[i], i as u32))
}

/// The I/O root the host and the dispatcher must agree on for a batch:
/// the root of the tree holding exactly the inputs, before any output.
pub open spec fn expected_io_root(namespace: Seq<u8>, round: u64, batch: Seq<Seq<u8>>) -> Seq<u8> {
    io_root_of(
        namespace,
        round,
        input_entries(batch),
        Seq::<(Seq<u8>, Seq<u8>, Seq<(Seq<u8>, Seq<u8>)>)>::empty(),
        Seq::<(Seq<u8>, Seq<u8>)>::empty(),
    )
}

/// Build the I/O tree for `inputs` at `(namespace, round)` and return its
/// root, exactly as the dispatcher will rebuild it.
pub fn build_io_root(namespace: &Namespace, round: u64, inputs: &TxnBatch) -> (r: Digest)
    requires
        inputs@.len() <= u32::MAX,
    ensures
        r@ == expected_io_root(namespace@, round, inputs@),
        r.well_formed(),
{
    let mut tree = TxnTree::new(
        Root {
            namespace: namespace.duplicate(),
            version: round,
            root_type: RootType::IO,
            hash: Digest::zero(),
        },
    );
    let mut i: usize = 0;
    proof {
        assert(inputs_view(tree.inputs@) =~= input_entries(inputs@).subrange(0, 0));
    }
    while i < inputs.0.len()
        invariant
            i <= inputs.0@.len(),
            inputs.0@.len() <= u32::MAX,
            inputs_view(tree.inputs@) == input_entries(inputs@).subrange(0, i as int),
            outputs_empty(&tree),
            tags_empty(&tree),
            tree.namespace@ == namespace@,
            tree.round == round,
        decreases inputs.0@.len() - i,
    {
        let input = clone_bytes(&inputs.0[i]);
        tree.add_input(input, i as u32);
        i = i + 1;
        proof {
            assert(inputs_view(tree.inputs@) =~= input_entries(inputs@).subrange(0, i as int));
        }
    }
    proof {
        assert(input_entries(inputs@).subrange(0, inputs@.len() as int) =~= input_entries(
            inputs@,
        ));
    }
    let (_, root) = tree.commit();
    root
}

/// Whether an I/O tree holds no outputs yet.
pub open spec fn outputs_empty(tree: &TxnTree) -> bool {
    crate::mkvs::outputs_view(tree.outputs@) == Seq::<
        (Seq<u8>, Seq<u8>, Seq<(Seq<u8>, Seq<u8>)>),
    >::empty()
}

/// Whether an I/O tree holds no block tags yet.
pub open spec fn tags_empty(tree: &TxnTree) -> bool {
    crate::mkvs::tags_view(tree.block_tags@) == Seq::<(Seq<u8>, Seq<u8>)>::empty()
}

/// Whether a root model is the state root a header asks for.
pub open spec fn root_matches_header(root: crate::types::RootModel, header: &Header) -> bool {
    root.namespace == header.namespace@ && root.version == header.round && root.hash
        == header.state_root@ && root.root_type == RootType::State
}

/// The message rejecting a request whose decrypted method disagrees
/// with the host's plaintext copy.
pub open spec fn method_mismatch_text() -> Seq<char> {
    "Request's method doesn't match untrusted_plaintext copy."@
}

/// The message rejecting a session message that is neither a request nor
/// a close.
pub open spec fn invalid_message_text() -> Seq<char> {
    "invalid RPC message type"@
}

/// Whether two cache states are identical: same root, same tree.
pub open spec fn cache_untouched(a: &Cache, b: &Cache) -> bool {
    a.root@ == b.root@ && a.mkvs.root@ == b.mkvs.root@ && a.mkvs.contents@ == b.mkvs.contents@
}

/// Why the dispatcher decided the process must terminate.
#[derive(Clone, Copy, Debug, PartialEq, Eq, Structural)]
pub enum FatalReason {
    /// The block's namespace is not this runtime's identifier.
    NamespaceMismatch,
    /// The host's I/O root disagrees with the one rebuilt from the inputs.
    IoRootMismatch,
    /// No consensus state could be obtained for a query.
    StateUnavailable,
    /// The verifier refused a header this runtime computed itself.
    TrustFailed,
    /// The attestation key refused to sign the computed header.
    SigningFailed,
    /// A request carries values beyond the machine limits the dispatcher
    /// can represent: a round that cannot be advanced, or more inputs
    /// than the I/O tree's index width.
    LimitsExceeded,
}

impl FatalReason {
    /// The reason as text, for the process's last words.
    pub fn text(&self) -> (r: String)
        ensures
            self is NamespaceMismatch ==> r@ == "block namespace does not match runtime id"@,
            self is IoRootMismatch ==> r@ == "dispatcher: I/O root inconsistent with inputs"@,
    {
        match self {
            FatalReason::NamespaceMismatch => String::from_str(
                "block namespace does not match runtime id",
            ),
            FatalReason::IoRootMismatch => String::from_str(
                "dispatcher: I/O root inconsistent with inputs",
            ),
            FatalReason::StateUnavailable => String::from_str("verification must succeed"),
            FatalReason::TrustFailed => String::from_str(
                "trusting a computed header must succeed",
            ),
            FatalReason::SigningFailed => String::from_str(
                "signing the compute results header must succeed",
            ),
            FatalReason::LimitsExceeded => String::from_str(
                "request exceeds the dispatcher's machine limits",
            ),
        }
    }
}

/// The worker: everything the dispatch loop owns once started.
pub struct Worker<V: Verifier, K: Rak, D: RpcDemux, R: RpcDispatcher, T: TxnDispatcher> {
    /// This runtime's identifier, as the host reported it.
    pub runtime_id: Namespace,
    /// The consensus verifier, owned exclusively by the worker.
    pub consensus_verifier: V,
    /// The attestation key.
    pub rak: K,
    /// The session demux.
    pub rpc_demux: D,
    /// The remote procedure call dispatcher.
    pub rpc_dispatcher: R,
    /// The transaction sub-dispatcher.
    pub txn_dispatcher: T,
    /// The tree cache of the execute path.
    pub cache: Cache,
    /// The tree cache of the check and query paths.
    pub cache_check: Cache,
}

impl<V: Verifier, K: Rak, D: RpcDemux, R: RpcDispatcher, T: TxnDispatcher> Worker<V, K, D, R, T> {
    /// Both caches are bound to their trees.
    pub open spec fn wf(&self) -> bool {
        self.cache.well_formed() && self.cache_check.well_formed()
    }

    /// Assemble a worker around its collaborators, with fresh caches.
    pub fn new(
        runtime_id: Namespace,
        consensus_verifier: V,
        rak: K,
        rpc_demux: D,
        rpc_dispatcher: R,
        txn_dispatcher: T,
    ) -> (r: Worker<V, K, D, R, T>)
        ensures
            r.wf(),
            r.runtime_id@ == runtime_id@,
    {
        Worker {
            runtime_id,
            consensus_verifier,
            rak,
            rpc_demux,
            rpc_dispatcher,
            txn_dispatcher,
            cache: Cache::new(),
            cache_check: Cache::new(),
        }
    }

    /// Check a batch: unverified state, an overlay that is never
    /// committed, and the sub-dispatcher's per-transaction results.
    fn txn_check_batch(&mut self, inputs: TxnBatch, state: &TxDispatchState) -> (r:
        HandlerOutcome)
        requires
            old(self).wf(),
        ensures
            final(self).wf(),
            !(r is Fatal),
            r matches HandlerOutcome::Reply(b) ==> b is RuntimeCheckTxBatchResponse,
            cache_untouched(&final(self).cache, &old(self).cache),
            cache_untouched(&final(self).cache_check, &old(self).cache_check),
            final(self).runtime_id@ == old(self).runtime_id@,
    {
        let consensus_state = match self.consensus_verifier.unverified_state(
            &state.consensus_block,
        ) {
            Ok(s) => s,
            Err(e) => {
                return HandlerOutcome::Failure(e);
            },
        };
        let mut overlay = OverlayTree::new(&self.cache_check.mkvs);
        let txn_ctx = TxnContext::new(
            consensus_state,
            &state.header,
            state.epoch,
            &state.round_results,
            state.max_messages,
            true,
        );
        let results = match self.txn_dispatcher.check_batch(txn_ctx, &mut overlay, &inputs) {
            Ok(x) => x,
            Err(e) => {
                return HandlerOutcome::Failure(e);
            },
        };
        // The overlay is dropped here: a check commits nothing.
        HandlerOutcome::Reply(Body::RuntimeCheckTxBatchResponse { results })
    }

    /// Answer a read-only query against unverified state.
    pub fn dispatch_query(&mut self, method: String, args: Vec<u8>, state: &TxDispatchState) -> (r:
        HandlerOutcome)
        requires
            old(self).wf(),
        ensures
            final(self).wf(),
            final(self).runtime_id@ == old(self).runtime_id@,
            cache_untouched(&final(self).cache, &old(self).cache),
            state.header.namespace@ != old(self).runtime_id@ <==> r == (HandlerOutcome::Fatal(
                FatalReason::NamespaceMismatch,
            )),
            r matches HandlerOutcome::Reply(b) ==> b is RuntimeQueryResponse,
            !(r is Fatal) ==> root_matches_header(final(self).cache_check.root@, &state.header),
            !(r is Fatal) && root_matches_header(old(self).cache_check.root@, &state.header)
                ==> final(self).cache_check.mkvs.contents@ == old(self).cache_check.mkvs.contents@,
    {
        if !state.header.namespace.equals(&self.runtime_id) {
            return HandlerOutcome::Fatal(FatalReason::NamespaceMismatch);
        }
        // Queries do no consensus-layer integrity verification, but a
        // failure to obtain any state at all is fatal.
        let consensus_state = match self.consensus_verifier.unverified_state(
            &state.consensus_block,
        ) {
            Ok(s) => s,
            Err(_) => {
                return HandlerOutcome::Fatal(FatalReason::StateUnavailable);
            },
        };
        let root = Root {
            namespace: state.header.namespace.duplicate(),
            version: state.header.round,
            root_type: RootType::State,
            hash: state.header.state_root.duplicate(),
        };
        self.cache_check.maybe_replace(root);
        let mut overlay = OverlayTree::new(&self.cache_check.mkvs);
        let txn_ctx = TxnContext::new(
            consensus_state,
            &state.header,
            state.epoch,
            &state.round_results,
            state.max_messages,
            true,
        );
        let data = match self.txn_dispatcher.query(txn_ctx, &mut overlay, &method, args) {
            Ok(d) => d,
            Err(e) => {
                return HandlerOutcome::Failure(e);
            },
        };
        HandlerOutcome::Reply(Body::RuntimeQueryResponse { data })
    }

    /// Apply a key-manager policy update; the response is content-free.
    pub fn handle_km_policy_update(&mut self, signed_policy_raw: Vec<u8>) -> (r: HandlerOutcome)
        requires
            old(self).wf(),
        ensures
            final(self).wf(),
            final(self).runtime_id@ == old(self).runtime_id@,
            cache_untouched(&final(self).cache, &old(self).cache),
            cache_untouched(&final(self).cache_check, &old(self).cache_check),
            r matches HandlerOutcome::Reply(b) && b is RuntimeKeyManagerPolicyUpdateResponse,
    {
        self.rpc_dispatcher.handle_km_policy_update(signed_policy_raw);
        HandlerOutcome::Reply(Body::RuntimeKeyManagerPolicyUpdateResponse {  })
    }

    /// Dispatch a local, plaintext call: decode it, hand it to the
    /// dispatcher without a session, and frame the response.
    pub fn dispatch_local_rpc(&mut self, request: Vec<u8>) -> (r: HandlerOutcome)
        requires
            old(self).wf(),
        ensures
            final(self).wf(),
            final(self).runtime_id@ == old(self).runtime_id@,
            !(r is Fatal),
            cache_untouched(&final(self).cache, &old(self).cache),
            cache_untouched(&final(self).cache_check, &old(self).cache_check),
            rpc_request_dec(request@) is None ==> (r matches HandlerOutcome::Failure(e)
                && e.module@ == "rhp/dispatcher"@ && e.code == 1 && e.message@
                == "malformed request"@),
            (r matches HandlerOutcome::Failure(e) && e.message@ == "malformed request"@)
                ==> rpc_request_dec(request@) is None,
            r matches HandlerOutcome::Failure(e) ==> e.module@ == "rhp/dispatcher"@ && e.code
                == 1,
            r matches HandlerOutcome::Reply(b) ==> (b matches Body::RuntimeLocalRPCCallResponse {
                response,
            } && exists|body: Seq<u8>|
                response@ == rpc_response_msg_enc(body) && rpc_response_msg_dec(response@)
                    == Some(body)),
    {
        let req = match decode_rpc_request(&request) {
            Some(q) => q,
            None => {
                return HandlerOutcome::Failure(Error::new("rhp/dispatcher", 1, "malformed request"));
            },
        };
        let ctx = RpcContext { session_info: None };
        let response = self.rpc_dispatcher.dispatch_local(req, ctx);
        // A local call commits nothing: it must be globally side-effect
        // free.
        match encode_rpc_response_message(&response.body) {
            Some(buffer) => {
                proof {
                    assert(buffer@ == rpc_response_msg_enc(cbor_norm(response.body@))
                        && rpc_response_msg_dec(buffer@) == Some(cbor_norm(response.body@)));
                }
                HandlerOutcome::Reply(Body::RuntimeLocalRPCCallResponse { response: buffer })
            },
            None => {
                proof {
                    reveal_strlit("malformed request");
                    reveal_strlit("malformed response");
                    assert("malformed request"@.len() == 17);
                    assert("malformed response"@.len() == 18);
                }
                HandlerOutcome::Failure(Error::new("rhp/dispatcher", 1, "malformed response"))
            },
        }
    }

    /// Handle one demultiplexed frame. What each variant yields is
    /// fixed: handshake bytes go straight back to the peer; a request
    /// whose decrypted method disagrees with the host's plaintext copy
    /// is rejected before any dispatch; a matched request or a close is
    /// answered by `wrap_session_bytes` over what the demux returned;
    /// any other message type is invalid.
    pub fn handle_frame(&mut self, frame: ProcessedFrame) -> (r: HandlerOutcome)
        requires
            old(self).wf(),
        ensures
            final(self).wf(),
            final(self).runtime_id@ == old(self).runtime_id@,
            !(r is Fatal),
            cache_untouched(&final(self).cache, &old(self).cache),
            cache_untouched(&final(self).cache_check, &old(self).cache_check),
            r matches HandlerOutcome::Reply(b) ==> b is RuntimeRPCCallResponse,
            r matches HandlerOutcome::Failure(e) ==> e.module@ == "rhp/dispatcher"@ && e.code
                == 1,
            (match frame {
                ProcessedFrame::Handshake { response } => r == (HandlerOutcome::Reply(
                    Body::RuntimeRPCCallResponse { response },
                )),
                ProcessedFrame::Message { message, untrusted_plaintext, .. } => (match message {
                    RpcMessage::Request(req) => untrusted_plaintext@ != req.method@ ==> (r
                        matches HandlerOutcome::Failure(e) && e.message@
                        == method_mismatch_text()),
                    RpcMessage::Close => true,
                    RpcMessage::Response(_) => (r matches HandlerOutcome::Failure(e)
                        && e.message@ == invalid_message_text()),
                }),
            }),
    {
        match frame {
            ProcessedFrame::Handshake { response } => HandlerOutcome::Reply(
                Body::RuntimeRPCCallResponse { response },
            ),
            ProcessedFrame::Message { session_id, session_info, message, untrusted_plaintext } => {
                match message {
                    RpcMessage::Request(req) => {
                        // The host's plaintext copy of the method must
                        // agree with the decrypted request, else an
                        // encrypted body could target a method the host
                        // never authorized.
                        if !string_equals(&untrusted_plaintext, &req.method) {
                            return HandlerOutcome::Failure(
                                Error::new(
                                    "rhp/dispatcher",
                                    1,
                                    "Request's method doesn't match untrusted_plaintext copy.",
                                ),
                            );
                        }
                        let ctx = RpcContext { session_info };
                        let response = self.rpc_dispatcher.dispatch(req, ctx);
                        // A session call commits nothing: it must be
                        // globally side-effect free.
                        let written = self.rpc_demux.write_message(
                            session_id,
                            RpcMessage::Response(response),
                        );
                        wrap_session_bytes(written)
                    },
                    RpcMessage::Close => {
                        let closed = self.rpc_demux.close(session_id);
                        wrap_session_bytes(closed)
                    },
                    RpcMessage::Response(_) => HandlerOutcome::Failure(
                        Error::new("rhp/dispatcher", 1, "invalid RPC message type"),
                    ),
                }
            },
        }
    }

    /// Process one session frame: demultiplex it and handle it. A
    /// framing error is recoverable: it becomes the dispatch error
    /// triple, never a process abort.
    pub fn dispatch_rpc(&mut self, request: Vec<u8>) -> (r: HandlerOutcome)
        requires
            old(self).wf(),
        ensures
            final(self).wf(),
            final(self).runtime_id@ == old(self).runtime_id@,
            !(r is Fatal),
            cache_untouched(&final(self).cache, &old(self).cache),
            cache_untouched(&final(self).cache_check, &old(self).cache_check),
            r matches HandlerOutcome::Reply(b) ==> b is RuntimeRPCCallResponse,
            r matches HandlerOutcome::Failure(e) ==> e.module@ == "rhp/dispatcher"@ && e.code
                == 1,
    {
        let frame = match self.rpc_demux.process_frame(request) {
            Ok(f) => f,
            Err(e) => {
                return HandlerOutcome::Failure(
                    Error::new("rhp/dispatcher", 1, e.message.as_str()),
                );
            },
        };
        self.handle_frame(frame)
    }
}

/// Wrap what the demux handed back for a session write or close: the
/// framed bytes become the call response, an error becomes the dispatch
/// error triple carrying the demux's message.
pub fn wrap_session_bytes(result: Result<Vec<u8>, Error>) -> (r: HandlerOutcome)
    ensures
        result matches Ok(buffer) ==> r == (HandlerOutcome::Reply(
            Body::RuntimeRPCCallResponse { response: buffer },
        )),
        result matches Err(e) ==> (r matches HandlerOutcome::Failure(e2) && e2.module@
            == "rhp/dispatcher"@ && e2.code == 1 && e2.message@ == e.message@),
{
    match result {
        Ok(buffer) => HandlerOutcome::Reply(Body::RuntimeRPCCallResponse { response: buffer }),
        Err(e) => HandlerOutcome::Failure(Error::new("rhp/dispatcher", 1, e.message.as_str())),
    }
}

/// What every execute response must satisfy: the compute results header
/// extends the request's block header, carries the committed roots, and
/// is signed by the attestation key when one is present.
pub open spec fn execute_response_ok<K: Rak>(
    batch: &ComputedBatch,
    header: &Header,
    rak: &K,
    new_state_hash: Seq<u8>,
) -> bool {
    &&& batch.header.round == header.round + 1
    &&& batch.header.previous_hash@ == digest_of(
        block_header_enc(
            header.namespace@,
            header.round,
            header.timestamp,
            header.previous_hash@,
            header.io_root@,
            header.state_root@,
        ),
    )
    &&& batch.header.io_root is Some
    &&& batch.header.state_root matches Some(sr) && sr@ == new_state_hash
    &&& batch.header.messages_hash matches Some(mh) && mh@ == digest_of(
        bytes_list_enc(bytes_view(batch.messages@)),
    )
    &&& rak.has_key() ==> batch.rak_sig.bytes@ == rak.sig_spec(
        compute_results_header_context(),
        header_enc(
            batch.header.round,
            batch.header.previous_hash@,
            opt_digest_view(batch.header.io_root),
            opt_digest_view(batch.header.state_root),
            opt_digest_view(batch.header.messages_hash),
        ),
    )
    &&& !rak.has_key() ==> batch.rak_sig.bytes@ == Seq::<u8>::empty()
}

/// The bytes of an optional digest.
pub open spec fn opt_digest_view(d: Option<Digest>) -> Option<Seq<u8>> {
    match d {
        Some(h) => Some(h@),
        None => None,
    }
}

/// The byte strings a list of messages holds.
pub open spec fn bytes_view(v: Seq<Vec<u8>>) -> Seq<Seq<u8>> {
    Seq::new(v.len(), |i: int| v[i]@)
}

impl<V: Verifier, K: Rak, D: RpcDemux, R: RpcDispatcher, T: TxnDispatcher> Worker<V, K, D, R, T> {
    /// Execute a batch: verified consensus state, overlay execution, state
    /// commit, I/O tree rebuild and verification, and the signed compute
    /// results header, in that order.
    fn txn_execute_batch(&mut self, io_root: Digest, inputs: TxnBatch, state: &TxDispatchState)
        -> (r: HandlerOutcome)
        requires
            old(self).wf(),
            state.header.round < u64::MAX,
            inputs@.len() <= u32::MAX,
            state.header.namespace@ == old(self).runtime_id@,
            root_matches_header(old(self).cache.root@, &state.header),
        ensures
            final(self).wf(),
            final(self).runtime_id@ == old(self).runtime_id@,
            final(self).rak == old(self).rak,
            cache_untouched(&final(self).cache_check, &old(self).cache_check),
            r is Failure ==> cache_untouched(&final(self).cache, &old(self).cache),
            r == (HandlerOutcome::Fatal(FatalReason::IoRootMismatch)) ==> io_root@
                != expected_io_root(
                state.header.namespace@,
                (state.header.round + 1) as u64,
                inputs@,
            ),
            r is Reply ==> io_root@ == expected_io_root(
                state.header.namespace@,
                (state.header.round + 1) as u64,
                inputs@,
            ),
            r is Reply ==> final(self).cache.root@.version == state.header.round + 1,
            r is Reply ==> log_view(old(self).cache.mkvs.contents@).is_prefix_of(
                log_view(final(self).cache.mkvs.contents@),
            ),
            r matches HandlerOutcome::Reply(b) ==> (b matches
                Body::RuntimeExecuteTxBatchResponse { batch, .. } && execute_response_ok(
                &batch,
                &state.header,
                &old(self).rak,
                final(self).cache.root@.hash,
            )),
    {
        // Verify consensus state and runtime state root integrity before
        // executing anything.
        let consensus_state = match self.consensus_verifier.verify(
            &state.consensus_block,
            &state.header,
        ) {
            Ok(s) => s,
            Err(e) => {
                return HandlerOutcome::Failure(e);
            },
        };
        let mut overlay = OverlayTree::new(&self.cache.mkvs);
        let txn_ctx = TxnContext::new(
            consensus_state,
            &state.header,
            state.epoch,
            &state.round_results,
            state.max_messages,
            false,
        );
        let results = match self.txn_dispatcher.execute_batch(txn_ctx, &mut overlay, &inputs) {
            Ok(x) => x,
            Err(e) => {
                return HandlerOutcome::Failure(e);
            },
        };
        let ExecuteBatchResult { results: tx_results, messages, block_tags, batch_weight_limits } =
            results;
        let next_round: u64 = state.header.round + 1;
        // Commit the state writes; the cache's tree keeps what it
        // materialized and moves to the new root.
        let (state_write_log, new_state_root) = overlay.commit_both(
            &mut self.cache.mkvs,
            &state.header.namespace,
            next_round,
        );
        self.txn_dispatcher.finalize(&new_state_root);
        self.cache.commit(next_round, new_state_root.duplicate());
        // Rebuild the I/O tree the scheduler built from the same inputs,
        // so they need not be fetched again.
        let mut txn_tree = TxnTree::new(
            Root {
                namespace: state.header.namespace.duplicate(),
                version: next_round,
                root_type: RootType::IO,
                hash: Digest::zero(),
            },
        );
        let mut hashes: Vec<Digest> = Vec::new();
        let mut i: usize = 0;
        proof {
            assert(inputs_view(txn_tree.inputs@) =~= input_entries(inputs@).subrange(0, 0));
        }
        while i < inputs.0.len()
            invariant
                i <= inputs.0@.len(),
                inputs.0@.len() <= u32::MAX,
                inputs_view(txn_tree.inputs@) == input_entries(inputs@).subrange(0, i as int),
                outputs_empty(&txn_tree),
                tags_empty(&txn_tree),
                txn_tree.namespace@ == state.header.namespace@,
                txn_tree.round == next_round,
                hashes@.len() == i,
            decreases inputs.0@.len() - i,
        {
            let input = clone_bytes(&inputs.0[i]);
            hashes.push(Digest { bytes: digest_bytes(&input) });
            txn_tree.add_input(input, i as u32);
            i = i + 1;
            proof {
                assert(inputs_view(txn_tree.inputs@) =~= input_entries(inputs@).subrange(
                    0,
                    i as int,
                ));
            }
        }
        proof {
            assert(input_entries(inputs@).subrange(0, inputs@.len() as int) =~= input_entries(
                inputs@,
            ));
        }
        let commit_result = txn_tree.commit();
        let old_io_root = commit_result.1;
        if !old_io_root.equals(&io_root) {
            // The host's scheduler and this runtime disagree on what the
            // inputs were; nothing this batch computed can be attested.
            return HandlerOutcome::Fatal(FatalReason::IoRootMismatch);
        }
        // Record each output under its transaction's digest, then the
        // block tags.
        let mut j: usize = 0;
        while j < hashes.len() && j < tx_results.len()
            invariant
                j <= hashes@.len(),
                j <= tx_results@.len(),
                inputs_view(txn_tree.inputs@) == input_entries(inputs@),
                txn_tree.namespace@ == state.header.namespace@,
                txn_tree.round == next_round,
                next_round == state.header.round + 1,
                io_root@ == expected_io_root(state.header.namespace@, next_round, inputs@),
            decreases hashes@.len() - j,
        {
            let h = hashes[j].duplicate();
            let out = clone_bytes(&tx_results[j].output);
            let tags = clone_tags(&tx_results[j].tags);
            txn_tree.add_output(h, out, tags);
            j = j + 1;
        }
        txn_tree.add_block_tags(block_tags);
        let io_commit = txn_tree.commit();
        let io_write_log = io_commit.0;
        let io_root_final = io_commit.1;
        let prev_hash = Digest { bytes: digest_bytes(&encode_block_header(&state.header)) };
        let messages_hash = Digest { bytes: digest_bytes(&encode_bytes_list(&messages)) };
        proof {
            assert(bytes_list_enc(Seq::new(messages@.len(), |k: int| messages@[k]@))
                == bytes_list_enc(bytes_view(messages@))) by {
                assert(Seq::new(messages@.len(), |k: int| messages@[k]@) =~= bytes_view(
                    messages@,
                ));
            };
        }
        let header = ComputeResultsHeader {
            round: next_round,
            previous_hash: prev_hash,
            io_root: Some(io_root_final),
            state_root: Some(new_state_root),
            messages_hash: Some(messages_hash),
        };
        // This runtime computed the header itself, so the verifier can
        // record it as trusted; a refusal means the verifier is broken.
        match self.consensus_verifier.trust(&header) {
            Ok(_) => {},
            Err(_) => {
                return HandlerOutcome::Fatal(FatalReason::TrustFailed);
            },
        }
        let rak_sig = match self.rak.public_key() {
            Some(_) => {
                let context = header_context();
                let encoded = encode_compute_results_header(&header);
                match self.rak.sign(context.as_str(), &encoded) {
                    Ok(s) => s,
                    Err(_) => {
                        return HandlerOutcome::Fatal(FatalReason::SigningFailed);
                    },
                }
            },
            None => Signature::empty(),
        };
        HandlerOutcome::Reply(
            Body::RuntimeExecuteTxBatchResponse {
                batch: ComputedBatch {
                    header,
                    io_write_log,
                    state_write_log,
                    rak_sig,
                    messages,
                },
                batch_weight_limits,
            },
        )
    }
}

/// Whether a body is one of the request variants the dispatcher accepts.
pub open spec fn is_request(body: &Body) -> bool {
    ||| body is RuntimeRPCCallRequest
    ||| body is RuntimeLocalRPCCallRequest
    ||| body is RuntimeExecuteTxBatchRequest
    ||| body is RuntimeCheckTxBatchRequest
    ||| body is RuntimeKeyManagerPolicyUpdateRequest
    ||| body is RuntimeQueryRequest
    ||| body is RuntimeConsensusSyncRequest
    ||| body is RuntimeAbortRequest
}

/// The inputs of an execute request, absent meaning the empty batch.
pub open spec fn unwrapped_inputs(inputs: &Option<TxnBatch>) -> Seq<Seq<u8>> {
    match inputs {
        Some(b) => b@,
        None => Seq::<Seq<u8>>::empty(),
    }
}

/// What machine limits ask of a request: a round that can still be
/// advanced, and a batch whose orders fit the I/O tree's index width.
/// A host that sends a request beyond these is broken.
pub open spec fn request_admissible(body: &Body) -> bool {
    match body {
        Body::RuntimeExecuteTxBatchRequest { inputs, block, .. } => block.header.round
            < u64::MAX && unwrapped_inputs(inputs).len() <= u32::MAX,
        _ => true,
    }
}

/// Decide whether a request is within the machine limits.
pub fn check_request_admissible(body: &Body) -> (r: bool)
    ensures
        r == request_admissible(body),
{
    match body {
        Body::RuntimeExecuteTxBatchRequest { inputs, block, .. } => {
            if block.header.round >= u64::MAX {
                return false;
            }
            match inputs {
                Some(batch) => batch.0.len() <= u32::MAX as usize,
                None => true,
            }
        },
        _ => true,
    }
}

/// What the worker decided for one dequeued request.
pub enum DispatchOutcome {
    /// Send this body as the response.
    Response(Body),
    /// The abort sentinel: no response, the loop continues.
    Continue,
    /// A protocol violation: the process must terminate at once.
    Fatal(FatalReason),
    /// An unsupported request: the loop terminates.
    Terminate,
}

impl<V: Verifier, K: Rak, D: RpcDemux, R: RpcDispatcher, T: TxnDispatcher> Worker<V, K, D, R, T> {
    /// Bind the right cache to the block's state root and run the batch
    /// through the check or the execute path.
    pub fn dispatch_txn(&mut self, io_root: Digest, inputs: TxnBatch, state: TxDispatchState)
        -> (r: HandlerOutcome)
        requires
            old(self).wf(),
            state.check_only || (state.header.round < u64::MAX && inputs@.len() <= u32::MAX),
        ensures
            final(self).wf(),
            final(self).runtime_id@ == old(self).runtime_id@,
            state.header.namespace@ != old(self).runtime_id@ ==> r == (HandlerOutcome::Fatal(
                FatalReason::NamespaceMismatch,
            )),
            state.check_only ==> cache_untouched(&final(self).cache, &old(self).cache),
            state.check_only && state.header.namespace@ == old(self).runtime_id@ ==> !(r
                is Fatal) && final(self).cache_check.root@.version == state.header.round,
            state.check_only ==> (r matches HandlerOutcome::Reply(b) ==> b
                is RuntimeCheckTxBatchResponse),
            !state.check_only ==> cache_untouched(&final(self).cache_check, &old(
                self,
            ).cache_check),
            !state.check_only && state.header.namespace@ == old(self).runtime_id@ ==> (r == (
            HandlerOutcome::Fatal(FatalReason::IoRootMismatch)) ==> io_root@ != expected_io_root(
                state.header.namespace@,
                (state.header.round + 1) as u64,
                inputs@,
            )),
            !state.check_only && state.header.namespace@ == old(self).runtime_id@ && r
                is Failure ==> root_matches_header(final(self).cache.root@, &state.header),
            !state.check_only && state.header.namespace@ == old(self).runtime_id@ && r
                is Failure && root_matches_header(old(self).cache.root@, &state.header)
                ==> final(self).cache.mkvs.contents@ == old(self).cache.mkvs.contents@,
            !state.check_only ==> (r matches HandlerOutcome::Reply(b) ==> (b matches
                Body::RuntimeExecuteTxBatchResponse { batch, .. } && execute_response_ok(
                &batch,
                &state.header,
                &old(self).rak,
                final(self).cache.root@.hash,
            ) && io_root@ == expected_io_root(
                state.header.namespace@,
                (state.header.round + 1) as u64,
                inputs@,
            ))),
    {
        if !state.header.namespace.equals(&self.runtime_id) {
            // A namespace mismatch means the host is broken: terminate.
            return HandlerOutcome::Fatal(FatalReason::NamespaceMismatch);
        }
        let root = Root {
            namespace: state.header.namespace.duplicate(),
            version: state.header.round,
            root_type: RootType::State,
            hash: state.header.state_root.duplicate(),
        };
        if state.check_only {
            self.cache_check.maybe_replace(root);
            self.txn_check_batch(inputs, &state)
        } else {
            self.cache.maybe_replace(root);
            self.txn_execute_batch(io_root, inputs, &state)
        }
    }

    /// Route one request body to its handler and turn the outcome into
    /// the loop's decision: every accepted request other than the abort
    /// sentinel gets exactly one response, unless the process must die.
    pub fn dispatch_request(&mut self, body: Body) -> (r: DispatchOutcome)
        requires
            old(self).wf(),
            request_admissible(&body),
        ensures
            final(self).wf(),
            final(self).runtime_id@ == old(self).runtime_id@,
            body is RuntimeAbortRequest <==> r is Continue,
            !is_request(&body) <==> r is Terminate,
            is_request(&body) && !(body is RuntimeAbortRequest) ==> (r is Response || r
                is Fatal),
            r is Fatal ==> (body is RuntimeExecuteTxBatchRequest || body
                is RuntimeCheckTxBatchRequest || body is RuntimeQueryRequest),
            (match body {
                Body::RuntimeExecuteTxBatchRequest { io_root, inputs, block, .. } => {
                    &&& (block.header.namespace@ != old(self).runtime_id@ ==> r == (
                    DispatchOutcome::Fatal(FatalReason::NamespaceMismatch)))
                    &&& (r == (DispatchOutcome::Fatal(FatalReason::IoRootMismatch))
                        ==> io_root@ != expected_io_root(
                        block.header.namespace@,
                        (block.header.round + 1) as u64,
                        unwrapped_inputs(&inputs),
                    ))
                    &&& (r matches DispatchOutcome::Response(b2) ==> (b2 matches
                        Body::RuntimeExecuteTxBatchResponse { batch, .. } ==> (
                    execute_response_ok(
                        &batch,
                        &block.header,
                        &old(self).rak,
                        final(self).cache.root@.hash,
                    ) && io_root@ == expected_io_root(
                        block.header.namespace@,
                        (block.header.round + 1) as u64,
                        unwrapped_inputs(&inputs),
                    ))))
                },
                Body::RuntimeCheckTxBatchRequest { block, .. } => {
                    &&& (block.header.namespace@ != old(self).runtime_id@ ==> r == (
                    DispatchOutcome::Fatal(FatalReason::NamespaceMismatch)))
                    &&& (block.header.namespace@ == old(self).runtime_id@ ==> !(r is Fatal))
                    &&& cache_untouched(&final(self).cache, &old(self).cache)
                    &&& (block.header.namespace@ == old(self).runtime_id@
                        ==> final(self).cache_check.root@.version == block.header.round)
                },
                Body::RuntimeQueryRequest { header, .. } => {
                    &&& (header.namespace@ != old(self).runtime_id@ ==> r == (
                    DispatchOutcome::Fatal(FatalReason::NamespaceMismatch)))
                    &&& cache_untouched(&final(self).cache, &old(self).cache)
                },
                Body::RuntimeConsensusSyncRequest { .. } => (r matches
                    DispatchOutcome::Response(b2) && (b2 is RuntimeConsensusSyncResponse || b2
                    is Error)),
                Body::RuntimeKeyManagerPolicyUpdateRequest { .. } => (r matches
                    DispatchOutcome::Response(b2) && b2 is RuntimeKeyManagerPolicyUpdateResponse),
                _ => true,
            }),
    {
        let outcome: HandlerOutcome = match body {
            Body::RuntimeRPCCallRequest { request } => self.dispatch_rpc(request),
            Body::RuntimeLocalRPCCallRequest { request } => self.dispatch_local_rpc(request),
            Body::RuntimeExecuteTxBatchRequest {
                consensus_block,
                round_results,
                io_root,
                inputs,
                block,
                epoch,
                max_messages,
            } => {
                let batch = match inputs {
                    Some(b) => b,
                    None => TxnBatch::new(),
                };
                self.dispatch_txn(
                    io_root,
                    batch,
                    TxDispatchState {
                        consensus_block,
                        header: block.header,
                        epoch,
                        round_results,
                        max_messages,
                        check_only: false,
                    },
                )
            },
            Body::RuntimeCheckTxBatchRequest {
                consensus_block,
                inputs,
                block,
                epoch,
                max_messages,
            } => self.dispatch_txn(
                Digest::zero(),
                inputs,
                TxDispatchState {
                    consensus_block,
                    header: block.header,
                    epoch,
                    round_results: RoundResults { raw: Vec::new() },
                    max_messages,
                    check_only: true,
                },
            ),
            Body::RuntimeKeyManagerPolicyUpdateRequest { signed_policy_raw } => self
                .handle_km_policy_update(signed_policy_raw),
            Body::RuntimeQueryRequest { consensus_block, header, epoch, max_messages, method, args } => self
                .dispatch_query(
                method,
                args,
                &TxDispatchState {
                    consensus_block,
                    header,
                    epoch,
                    round_results: RoundResults { raw: Vec::new() },
                    max_messages,
                    check_only: true,
                },
            ),
            Body::RuntimeConsensusSyncRequest { height } => {
                match self.consensus_verifier.sync(height) {
                    Ok(_) => HandlerOutcome::Reply(Body::RuntimeConsensusSyncResponse {  }),
                    Err(e) => HandlerOutcome::Failure(e),
                }
            },
            Body::RuntimeAbortRequest {  } => {
                return DispatchOutcome::Continue;
            },
            _ => {
                return DispatchOutcome::Terminate;
            },
        };
        match outcome {
            HandlerOutcome::Reply(b) => DispatchOutcome::Response(b),
            HandlerOutcome::Failure(e) => DispatchOutcome::Response(Body::Error(e)),
            HandlerOutcome::Fatal(reason) => DispatchOutcome::Fatal(reason),
        }
    }
}

/// What one turn of the worker loop decided.
pub enum StepAction {
    /// Send this body as the response for this request id.
    Respond { id: u64, body: Body },
    /// Nothing was queued; the worker should block until something is.
    Idle,
    /// The abort sentinel was consumed; no response is owed.
    Continue,
    /// A protocol violation: the process must terminate at once.
    Fatal(FatalReason),
    /// An unsupported request arrived: the loop terminates.
    Terminate,
}

/// What one turn of the worker loop did: whether an abort was
/// acknowledged at its top, and what to do for the dequeued request.
pub struct StepOutcome {
    /// An abort request was pending and has been acknowledged.
    pub acked: bool,
    /// The action for the dequeued request, if one was dequeued.
    pub action: StepAction,
}

/// The host-facing half of the dispatcher: the bounded backlog, the
/// abort protocol's flag and acknowledgement slot, and the one-shot
/// hand-off of the runtime identifier at start.
pub struct Dispatcher {
    /// The bounded request backlog.
    pub queue: RequestQueue,
    /// The abort flag shared between host and worker.
    pub abort_requested: bool,
    /// The capacity-one acknowledgement channel: true when an
    /// acknowledgement is waiting for the host.
    pub abort_ack: bool,
    /// The runtime identifier, published exactly once by `start`.
    pub state: Option<Namespace>,
}

impl Dispatcher {
    /// A dispatcher with an empty backlog, no abort in flight and no
    /// published state: the worker blocks until `start`.
    pub fn new() -> (r: Dispatcher)
        ensures
            r.queue@ == Seq::<(u64, Body)>::empty(),
            !r.abort_requested,
            !r.abort_ack,
            r.state is None,
    {
        Dispatcher {
            queue: RequestQueue::new(),
            abort_requested: false,
            abort_ack: false,
            state: None,
        }
    }

    /// Publish the runtime identifier and unblock the worker. Must be
    /// called exactly once.
    pub fn start(&mut self, runtime_id: Namespace)
        requires
            old(self).state is None,
        ensures
            final(self).state matches Some(n) && n@ == runtime_id@,
            final(self).queue@ == old(self).queue@,
            final(self).abort_requested == old(self).abort_requested,
            final(self).abort_ack == old(self).abort_ack,
    {
        self.state = Some(runtime_id);
    }

    /// Take the published runtime identifier; the worker calls this once
    /// when it wakes.
    pub fn take_state(&mut self) -> (r: Option<Namespace>)
        ensures
            old(self).state matches Some(n) ==> (r matches Some(m) && m@ == n@),
            old(self).state is None ==> r is None,
            final(self).state is None,
            final(self).queue@ == old(self).queue@,
            final(self).abort_requested == old(self).abort_requested,
            final(self).abort_ack == old(self).abort_ack,
    {
        self.state.take()
    }

    /// Queue a request without blocking; fails when the backlog is full.
    pub fn queue_request(&mut self, id: u64, body: Body) -> (r: Result<(), QueueFull>)
        ensures
            old(self).queue@.len() < RequestQueue::capacity() ==> r is Ok && final(self).queue@
                == old(self).queue@.push((id, body)),
            old(self).queue@.len() >= RequestQueue::capacity() ==> r is Err && final(self).queue@
                == old(self).queue@,
            final(self).abort_requested == old(self).abort_requested,
            final(self).abort_ack == old(self).abort_ack,
            final(self).state == old(self).state,
    {
        self.queue.try_enqueue(id, body)
    }

    /// Raise the abort flag and queue the abort sentinel, so the worker
    /// wakes even when it is idle. The caller then blocks until an
    /// acknowledgement arrives.
    pub fn request_abort(&mut self, id: u64) -> (r: Result<(), QueueFull>)
        ensures
            final(self).abort_requested,
            old(self).queue@.len() < RequestQueue::capacity() ==> r is Ok && final(self).queue@
                == old(self).queue@.push((id, Body::RuntimeAbortRequest {  })),
            old(self).queue@.len() >= RequestQueue::capacity() ==> r is Err && final(self).queue@
                == old(self).queue@,
            final(self).abort_ack == old(self).abort_ack,
    {
        self.abort_requested = true;
        self.queue.try_enqueue(id, Body::RuntimeAbortRequest {  })
    }

    /// The host's side of the acknowledgement channel: take the
    /// acknowledgement if one is waiting.
    pub fn take_ack(&mut self) -> (r: bool)
        ensures
            r == old(self).abort_ack,
            !final(self).abort_ack,
            final(self).abort_requested == old(self).abort_requested,
            final(self).queue@ == old(self).queue@,
    {
        let r = self.abort_ack;
        self.abort_ack = false;
        r
    }

    /// The worker's top-of-loop abort check: when the flag is raised,
    /// lower it and post the acknowledgement.
    pub fn observe_abort(&mut self) -> (r: bool)
        ensures
            r == old(self).abort_requested,
            !final(self).abort_requested,
            old(self).abort_requested ==> final(self).abort_ack,
            !old(self).abort_requested ==> final(self).abort_ack == old(self).abort_ack,
            final(self).queue@ == old(self).queue@,
            final(self).state == old(self).state,
    {
        if self.abort_requested {
            self.abort_requested = false;
            self.abort_ack = true;
            true
        } else {
            false
        }
    }
}

/// One turn of the worker loop: acknowledge a pending abort, dequeue one
/// request and dispatch it. Every dequeued request other than the abort
/// sentinel yields exactly one response directive under the same id, or
/// ends the process.
pub fn run_step<
    V: Verifier,
    K: Rak,
    D: RpcDemux,
    R: RpcDispatcher,
    T: TxnDispatcher,
>(host: &mut Dispatcher, worker: &mut Worker<V, K, D, R, T>) -> (r: StepOutcome)
    requires
        old(worker).wf(),
    ensures
        final(worker).wf(),
        final(worker).runtime_id@ == old(worker).runtime_id@,
        r.acked == old(host).abort_requested,
        !final(host).abort_requested,
        old(host).abort_requested ==> final(host).abort_ack,
        old(host).queue@.len() == 0 ==> r.action is Idle && final(host).queue@ == old(
            host,
        ).queue@,
        old(host).queue@.len() > 0 ==> final(host).queue@ == old(host).queue@.drop_first(),
        old(host).queue@.len() > 0 ==> (({
            let request = old(host).queue@[0];
            &&& (request.1 is RuntimeAbortRequest <==> r.action is Continue)
            &&& (!is_request(&request.1) <==> r.action is Terminate)
            &&& (is_request(&request.1) && !(request.1 is RuntimeAbortRequest) ==> (r.action
                matches StepAction::Respond { id, body } && id == request.0) || r.action
                is Fatal)
            &&& (!request_admissible(&request.1) ==> r.action == (StepAction::Fatal(
                FatalReason::LimitsExceeded,
            )))
        })),
{
    let acked = host.observe_abort();
    let action = match host.queue.dequeue() {
        None => StepAction::Idle,
        Some((id, body)) => {
            if !check_request_admissible(&body) {
                // A request beyond machine limits is a broken host, like
                // any other protocol violation: the process must die.
                StepAction::Fatal(FatalReason::LimitsExceeded)
            } else {
                match worker.dispatch_request(body) {
                    DispatchOutcome::Response(response) => StepAction::Respond {
                        id,
                        body: response,
                    },
                    DispatchOutcome::Continue => StepAction::Continue,
                    DispatchOutcome::Fatal(reason) => StepAction::Fatal(reason),
                    DispatchOutcome::Terminate => StepAction::Terminate,
                }
            }
        },
    };
    StepOutcome { acked, action }
}

} // verus!
