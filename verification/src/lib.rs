//! A runtime call dispatcher for a confidential-compute node: the
//! component between an untrusted host and a deterministic runtime. The
//! host queues framed requests — call batches to execute or check,
//! queries, session frames, local calls, policy updates, abort signals —
//! and the worker loop drains them, validates each against consensus
//! state, drives the pluggable sub-dispatcher, commits results to the
//! authenticated store models, and produces exactly one response per
//! accepted request, signed where the attestation key is present.
//!
//! Everything that decides is verified; the process edges — threads,
//! blocking waits, transport, process abort — live outside the library
//! and only perform what these functions decide.
pub mod cache;
pub mod dispatcher;
pub mod codec;
pub mod mkvs;
pub mod queue;
pub mod rpc_types;
pub mod txn_dispatcher;
pub mod txn_types;
pub mod types;

use vstd::prelude::*;

verus! {

/// Maximum number of requests that can wait in the dispatcher queue.
pub const BACKLOG_SIZE: usize = 1000;

} // verus!
