//! The transaction method dispatcher: a routing table from method names to
//! handlers, and the batch driver around it; also the interface the worker
//! loop drives a sub-dispatcher through.
use vstd::prelude::*;

use vstd::string::StringExecFns;

use crate::codec::{cbor_ok, decode_txn_call, encode_cbor_text, encode_txn_output, text_value_enc,
    txn_call_dec, txn_output_enc};
use crate::mkvs::OverlayTree;
use crate::txn_types::{TxnBatch, TxnCall, TxnOutput};
use crate::types::{string_equals, ConsensusState, Digest, EpochTime, Error, Header, RoundResults,
    Tag};

verus! {

/// The transaction index a context carries outside any single call.
pub const TAG_TXN_INDEX_BLOCK: i32 = -1;

/// Sentinel error: a transaction check ended early, successfully.
#[derive(Clone, Copy, Debug, PartialEq, Eq, Structural)]
pub struct CheckOnlySuccess;

impl CheckOnlySuccess {
    /// The text this sentinel turns into when reported as an output.
    pub fn text() -> (r: String)
        ensures
            r@ == "transaction check successful"@,
    {
        "transaction check successful".to_string()
    }
}

/// What a method handler can return instead of a value.
#[derive(Clone, Debug)]
pub enum HandlerError {
    /// The check-only sentinel; converted to a successful output.
    CheckOnly(CheckOnlySuccess),
    /// An ordinary failure, reported as an error output with this message.
    Message(String),
}

/// Per-batch context handed to every handler.
pub struct TxnContext {
    /// Consensus state the batch runs against.
    pub consensus_state: ConsensusState,
    /// Header of the block the batch extends.
    pub header: Header,
    /// Current epoch.
    pub epoch: EpochTime,
    /// Results of the previous round.
    pub round_results: RoundResults,
    /// Maximum number of messages handlers may emit.
    pub max_messages: u32,
    /// Whether the batch only checks transactions.
    pub check_only: bool,
    /// Index of the call being dispatched, or `TAG_TXN_INDEX_BLOCK`.
    pub txn_index: i32,
    /// Tags emitted for the block so far.
    pub tags: Vec<Tag>,
}

impl TxnContext {
    /// A fresh context for one batch.
    pub fn new(
        consensus_state: ConsensusState,
        header: &Header,
        epoch: EpochTime,
        round_results: &RoundResults,
        max_messages: u32,
        check_only: bool,
    ) -> (r: TxnContext)
        ensures
            r.consensus_state == consensus_state,
            r.header@ == header@,
            r.epoch == epoch,
            r.round_results.raw@ == round_results.raw@,
            r.max_messages == max_messages,
            r.check_only == check_only,
            r.txn_index == TAG_TXN_INDEX_BLOCK,
            r.tags@.len() == 0,
    {
        TxnContext {
            consensus_state,
            header: header.duplicate(),
            epoch,
            round_results: round_results.duplicate(),
            max_messages,
            check_only,
            txn_index: TAG_TXN_INDEX_BLOCK,
            tags: Vec::new(),
        }
    }
}

/// Descriptor of a runtime method.
#[derive(Clone, Debug)]
pub struct MethodDescriptor {
    /// Method name.
    pub name: String,
}

/// A batch handler: hooks run before the first and after the last call of
/// a batch.
pub trait BatchHandler {
    /// Called before the first call in a batch is dispatched.
    fn start_batch(&self, ctx: &mut TxnContext);

    /// Called after all calls have been dispatched.
    fn end_batch(&self, ctx: &mut TxnContext);
}

/// A context initializer: may mutate the per-batch context before use.
pub trait ContextInitializer {
    /// Called to initialize the context.
    fn init(&self, ctx: &mut TxnContext);
}

/// A finalizer: observes the state root after a batch is committed.
pub trait Finalizer {
    /// Called with the committed state root.
    fn finalize(&self, new_storage_root: &Digest);
}

/// Dispatch of one raw call by a typed method implementation.
pub trait MethodHandlerDispatch {
    /// Get the method descriptor.
    fn get_descriptor(&self) -> &MethodDescriptor;

    /// Dispatch the given raw call.
    fn dispatch(&self, call: TxnCall, ctx: &mut TxnContext) -> Result<Vec<u8>, HandlerError>;
}

/// A registered runtime method: its name and its handler.
pub struct Method {
    /// Method descriptor.
    pub descriptor: MethodDescriptor,
    /// Method handler.
    pub dispatcher: Box<dyn MethodHandlerDispatch>,
}

impl Method {
    /// Register a handler under a descriptor.
    pub fn new(method: MethodDescriptor, handler: Box<dyn MethodHandlerDispatch>) -> (r: Method)
        ensures
            r.descriptor.name@ == method.name@,
    {
        Method { descriptor: method, dispatcher: handler }
    }

    /// The method's name.
    pub fn get_name(&self) -> (r: &String)
        ensures
            r@ == self.descriptor.name@,
    {
        &self.descriptor.name
    }

    /// Dispatch a call to the handler.
    pub fn dispatch(&self, call: TxnCall, ctx: &mut TxnContext) -> Result<Vec<u8>, HandlerError> {
        self.dispatcher.dispatch(call, ctx)
    }
}

/// Whether the table holds a method of this name.
pub open spec fn has_method(methods: Seq<Method>, name: Seq<char>) -> bool {
    exists|i: int| 0 <= i < methods.len() && methods[i].descriptor.name@ == name
}

/// The message reported when a call's bytes do not decode.
pub open spec fn parse_error_text() -> Seq<char> {
    "unable to parse call"@
}

/// The message reported when no handler is registered for a method.
pub open spec fn not_found_text(method: Seq<char>) -> Seq<char> {
    "method not found: "@ + method
}

/// The outputs the router itself determines: a call that does not decode
/// maps to the parse-error output, and a decoded call without a
/// registered method maps to the not-found output.
pub open spec fn routed_output(methods: Seq<Method>, call: Seq<u8>, output: Seq<u8>) -> bool {
    &&& (txn_call_dec(call) is None ==> output == txn_output_enc(
        false,
        Seq::<u8>::empty(),
        parse_error_text(),
    ))
    &&& (match txn_call_dec(call) {
        Some(c) => !has_method(methods, c.0) ==> output == txn_output_enc(
            false,
            Seq::<u8>::empty(),
            not_found_text(c.0),
        ),
        None => true,
    })
}

/// Encode what a handler returned as the transaction's output document:
/// a success value (or an error output when the value is not a CBOR
/// document), the check-only sentinel's text as a success, or the
/// error's message.
pub fn encode_handler_result(result: Result<Vec<u8>, HandlerError>) -> (r: Vec<u8>)
    ensures
        (match result {
            Ok(value) => {
                &&& cbor_ok(value@) ==> r@ == txn_output_enc(true, value@, Seq::<char>::empty())
                &&& !cbor_ok(value@) ==> r@ == txn_output_enc(
                    false,
                    Seq::<u8>::empty(),
                    "invalid handler output"@,
                )
            },
            Err(HandlerError::CheckOnly(_)) => r@ == txn_output_enc(
                true,
                text_value_enc("transaction check successful"@),
                Seq::<char>::empty(),
            ),
            Err(HandlerError::Message(message)) => r@ == txn_output_enc(
                false,
                Seq::<u8>::empty(),
                message@,
            ),
        }),
{
    let output: TxnOutput = match result {
        Ok(response) => TxnOutput::Success(response),
        Err(HandlerError::CheckOnly(_)) => TxnOutput::Success(
            encode_cbor_text(CheckOnlySuccess::text().as_str()),
        ),
        Err(HandlerError::Message(message)) => TxnOutput::Error(message),
    };
    match encode_txn_output(&output) {
        Some(encoded) => encoded,
        None => {
            // The handler produced bytes that are not a CBOR document;
            // report that as an error output, which always encodes.
            let fallback = TxnOutput::Error(String::from_str("invalid handler output"));
            encode_txn_output(&fallback).unwrap()
        },
    }
}

/// The runtime method dispatcher: holds the registered methods and routes
/// raw calls to them.
pub struct Dispatcher {
    /// Registered runtime methods.
    pub methods: Vec<Method>,
    /// Registered batch handler.
    pub batch_handler: Option<Box<dyn BatchHandler>>,
    /// Registered context initializer.
    pub ctx_initializer: Option<Box<dyn ContextInitializer>>,
    /// Registered finalizer.
    pub finalizer: Option<Box<dyn Finalizer>>,
}

impl Dispatcher {
    /// An empty dispatcher with no methods and no hooks.
    pub fn new() -> (r: Dispatcher)
        ensures
            r.methods@.len() == 0,
            r.batch_handler is None,
            r.ctx_initializer is None,
            r.finalizer is None,
    {
        Dispatcher { methods: Vec::new(), batch_handler: None, ctx_initializer: None, finalizer: None }
    }

    /// Register a new method. Registering a name that is already taken
    /// replaces the older handler: dispatch routes to the newest
    /// registration of a name.
    pub fn add_method(&mut self, method: Method)
        ensures
            final(self).methods@ == old(self).methods@.push(method),
            final(self).batch_handler == old(self).batch_handler,
            final(self).ctx_initializer == old(self).ctx_initializer,
            final(self).finalizer == old(self).finalizer,
    {
        self.methods.push(method);
    }

    /// Configure the batch handler.
    pub fn set_batch_handler(&mut self, handler: Box<dyn BatchHandler>)
        ensures
            final(self).batch_handler is Some,
            final(self).methods@ == old(self).methods@,
    {
        self.batch_handler = Some(handler);
    }

    /// Configure the context initializer.
    pub fn set_context_initializer(&mut self, initializer: Box<dyn ContextInitializer>)
        ensures
            final(self).ctx_initializer is Some,
            final(self).methods@ == old(self).methods@,
    {
        self.ctx_initializer = Some(initializer);
    }

    /// Configure the finalizer.
    pub fn set_finalizer(&mut self, finalizer: Box<dyn Finalizer>)
        ensures
            final(self).finalizer is Some,
            final(self).methods@ == old(self).methods@,
    {
        self.finalizer = Some(finalizer);
    }

    /// Dispatch a whole batch: run the context initializer and the batch
    /// hooks, dispatch every call in order, and collect the block tags.
    pub fn dispatch_batch(&self, batch: &TxnBatch, ctx: TxnContext) -> (r: (TxnBatch, Vec<Tag>))
        ensures
            r.0@.len() == batch@.len(),
            forall|j: int| 0 <= j < batch@.len() ==> #[trigger] routed_output(
                self.methods@,
                batch@[j],
                r.0@[j],
            ),
    {
        let mut ctx = ctx;
        if let Some(ctx_init) = &self.ctx_initializer {
            ctx_init.init(&mut ctx);
        }
        ctx.txn_index = TAG_TXN_INDEX_BLOCK;
        if let Some(handler) = &self.batch_handler {
            handler.start_batch(&mut ctx);
        }
        let mut outputs: Vec<Vec<u8>> = Vec::new();
        let mut i: usize = 0;
        while i < batch.0.len()
            invariant
                i <= batch.0@.len(),
                outputs@.len() == i,
                forall|j: int| 0 <= j < i ==> #[trigger] routed_output(
                    self.methods@,
                    batch@[j],
                    outputs@[j]@,
                ),
            decreases batch.0@.len() - i,
        {
            if i <= i32::MAX as usize {
                ctx.txn_index = i as i32;
            }
            let out = self.dispatch(&batch.0[i], &mut ctx);
            outputs.push(out);
            i = i + 1;
        }
        ctx.txn_index = TAG_TXN_INDEX_BLOCK;
        if let Some(handler) = &self.batch_handler {
            handler.end_batch(&mut ctx);
        }
        (TxnBatch(outputs), ctx.tags)
    }

    /// Dispatch one raw call and encode its output.
    ///
    /// A call that does not decode, or whose method is unknown, becomes an
    /// error output with a fixed message; the check-only sentinel becomes
    /// a successful output holding its text.
    pub fn dispatch(&self, call: &Vec<u8>, ctx: &mut TxnContext) -> (r: Vec<u8>)
        ensures
            routed_output(self.methods@, call@, r@),
    {
        let result = self.dispatch_fallible(call, ctx);
        encode_handler_result(result)
    }

    /// Decode a raw call and route it to the handler registered for its
    /// method.
    fn dispatch_fallible(&self, call: &Vec<u8>, ctx: &mut TxnContext) -> (r: Result<
        Vec<u8>,
        HandlerError,
    >)
        ensures
            txn_call_dec(call@) is None ==> (r matches Err(e) && e matches HandlerError::Message(m)
                && m@ == parse_error_text()),
            (match txn_call_dec(call@) {
                Some(c) => !has_method(self.methods@, c.0) ==> (r matches Err(e)
                    && e matches HandlerError::Message(m) && m@ == not_found_text(c.0)),
                None => true,
            }),
    {
        let parsed: TxnCall = match decode_txn_call(call) {
            Some(c) => c,
            None => {
                return Err(HandlerError::Message("unable to parse call".to_string()));
            }
        };
        let ghost decoded: (Seq<char>, Seq<u8>) = (parsed.method@, parsed.args@);
        // Scan newest-first, so registering a name again replaces the
        // older handler observably.
        let mut i: usize = self.methods.len();
        while i > 0
            invariant
                i <= self.methods@.len(),
                txn_call_dec(call@) == Some(decoded),
                decoded.0 == parsed.method@,
                forall|j: int| i <= j < self.methods@.len() ==> self.methods@[
                    j
                ].descriptor.name@ != parsed.method@,
            decreases i,
        {
            i = i - 1;
            if string_equals(&self.methods[i].descriptor.name, &parsed.method) {
                proof {
                    assert(0 <= i < self.methods@.len() && self.methods@[
                        i as int
                    ].descriptor.name@ == parsed.method@);
                    assert(has_method(self.methods@, parsed.method@));
                }
                return self.methods[i].dispatch(parsed, ctx);
            }
        }
        Err(
            HandlerError::Message(
                String::from_str("method not found: ").concat(parsed.method.as_str()),
            ),
        )
    }

    /// Invoke the finalizer, if one is registered.
    pub fn finalize(&self, new_storage_root: &Digest) {
        if let Some(finalizer) = &self.finalizer {
            finalizer.finalize(new_storage_root);
        }
    }
}

/// The output of one executed transaction.
pub struct TxOutput {
    /// The output bytes.
    pub output: Vec<u8>,
    /// Tags the transaction emitted.
    pub tags: Vec<Tag>,
}

/// The result a sub-dispatcher returns for an executed batch.
pub struct ExecuteBatchResult {
    /// One output per input, in order.
    pub results: Vec<TxOutput>,
    /// Messages emitted towards the consensus layer.
    pub messages: Vec<Vec<u8>>,
    /// Tags emitted for the whole block.
    pub block_tags: Vec<Tag>,
    /// Per-kind weight limits the scheduler should respect, if any.
    pub batch_weight_limits: Option<Vec<(String, u64)>>,
}

/// The interface the worker loop drives a sub-dispatcher through.
///
/// A sub-dispatcher is installed by the initializer and owns the actual
/// transaction semantics; the worker hands it a context, an overlay over
/// the cached state tree, and the batch.
pub trait TxnDispatcher {
    /// Execute a batch of transactions.
    fn execute_batch(
        &mut self,
        ctx: TxnContext,
        overlay: &mut OverlayTree,
        batch: &TxnBatch,
    ) -> Result<ExecuteBatchResult, Error>;

    /// Check a batch of transactions without executing it.
    fn check_batch(
        &mut self,
        ctx: TxnContext,
        overlay: &mut OverlayTree,
        batch: &TxnBatch,
    ) -> Result<TxnBatch, Error>;

    /// Answer a read-only query.
    fn query(
        &mut self,
        ctx: TxnContext,
        overlay: &mut OverlayTree,
        method: &String,
        args: Vec<u8>,
    ) -> Result<Vec<u8>, Error>;

    /// Observe the committed state root of an executed batch.
    fn finalize(&mut self, new_state_root: &Digest);
}

/// The sub-dispatcher installed when the initializer provides none: every
/// call returns the appropriate empty result.
pub struct NoopDispatcher;

impl NoopDispatcher {
    /// Build the no-op sub-dispatcher.
    pub fn new() -> NoopDispatcher {
        NoopDispatcher
    }
}

impl TxnDispatcher for NoopDispatcher {
    fn execute_batch(
        &mut self,
        ctx: TxnContext,
        overlay: &mut OverlayTree,
        batch: &TxnBatch,
    ) -> Result<ExecuteBatchResult, Error> {
        Ok(
            ExecuteBatchResult {
                results: Vec::new(),
                messages: Vec::new(),
                block_tags: Vec::new(),
                batch_weight_limits: None,
            },
        )
    }

    fn check_batch(
        &mut self,
        ctx: TxnContext,
        overlay: &mut OverlayTree,
        batch: &TxnBatch,
    ) -> Result<TxnBatch, Error> {
        Ok(TxnBatch::new())
    }

    fn query(
        &mut self,
        ctx: TxnContext,
        overlay: &mut OverlayTree,
        method: &String,
        args: Vec<u8>,
    ) -> Result<Vec<u8>, Error> {
        Err(Error::new("dispatcher", 1, "query not supported"))
    }

    fn finalize(&mut self, new_state_root: &Digest) {
    }
}

} // verus!
