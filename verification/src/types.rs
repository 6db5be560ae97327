//! Plain data model shared by the dispatcher: identifiers, block headers,
//! request/response bodies and the error triple.
use vstd::prelude::*;

use crate::txn_types::TxnBatch;

verus! {

/// Number of bytes in a digest.
pub const HASH_SIZE: usize = 32;

/// A fixed-width digest value.
#[derive(Clone, Debug)]
pub struct Digest {
    pub bytes: Vec<u8>,
}

impl View for Digest {
    type V = Seq<u8>;

    open spec fn view(&self) -> Seq<u8> {
        self.bytes@
    }
}

impl Digest {
    /// A hash is well formed when it holds exactly `HASH_SIZE` bytes.
    pub open spec fn well_formed(&self) -> bool {
        self.bytes@.len() == HASH_SIZE
    }

    /// The all-zero hash, used as the default root value.
    pub fn zero() -> (r: Digest)
        ensures
            r@ == Seq::<u8>::new(HASH_SIZE as nat, |i: int| 0u8),
            r.well_formed(),
    {
        let mut bytes: Vec<u8> = Vec::new();
        let mut i: usize = 0;
        while i < HASH_SIZE
            invariant
                i <= HASH_SIZE,
                bytes@ == Seq::<u8>::new(i as nat, |j: int| 0u8),
            decreases HASH_SIZE - i,
        {
            bytes.push(0u8);
            proof {
                assert(bytes@ =~= Seq::<u8>::new((i + 1) as nat, |j: int| 0u8));
            }
            i = i + 1;
        }
        Digest { bytes }
    }

    /// Compare two hashes by their bytes.
    pub fn equals(&self, other: &Digest) -> (r: bool)
        ensures
            r == (self@ == other@),
    {
        vec_u8_equals(&self.bytes, &other.bytes)
    }

    /// Copy this digest.
    pub fn duplicate(&self) -> (r: Digest)
        ensures
            r@ == self@,
    {
        Digest { bytes: clone_bytes(&self.bytes) }
    }
}

/// Compare two byte vectors; true exactly when their contents agree.
pub fn vec_u8_equals(a: &Vec<u8>, b: &Vec<u8>) -> (r: bool)
    ensures
        r == (a@ == b@),
{
    if a.len() != b.len() {
        return false;
    }
    let mut i: usize = 0;
    while i < a.len()
        invariant
            i <= a@.len(),
            a@.len() == b@.len(),
            forall|j: int| 0 <= j < i ==> a@[j] == b@[j],
        decreases a@.len() - i,
    {
        if a[i] != b[i] {
            return false;
        }
        i = i + 1;
    }
    proof {
        assert(a@ =~= b@);
    }
    true
}

/// Append `data` to `acc`.
pub fn append_bytes(acc: &mut Vec<u8>, data: &Vec<u8>)
    ensures
        final(acc)@ == old(acc)@ + data@,
{
    let mut i: usize = 0;
    while i < data.len()
        invariant
            i <= data@.len(),
            acc@ == old(acc)@ + data@.subrange(0, i as int),
        decreases data@.len() - i,
    {
        acc.push(data[i]);
        i = i + 1;
        proof {
            assert(old(acc)@ + data@.subrange(0, i as int) =~= (old(acc)@ + data@.subrange(
                0,
                i - 1,
            )).push(data@[i - 1]));
        }
    }
    proof {
        assert(data@.subrange(0, data@.len() as int) =~= data@);
    }
}

/// Copy a byte vector.
pub fn clone_bytes(data: &Vec<u8>) -> (r: Vec<u8>)
    ensures
        r@ == data@,
{
    let mut out: Vec<u8> = Vec::new();
    append_bytes(&mut out, data);
    proof {
        assert(out@ =~= data@);
    }
    out
}

/// Compare two strings by their characters.
pub fn string_equals(a: &String, b: &String) -> (r: bool)
    ensures
        r == (a@ == b@),
{
    *a == *b
}

/// An opaque 32-byte runtime identifier.
#[derive(Clone, Debug)]
pub struct Namespace {
    pub bytes: Vec<u8>,
}

impl View for Namespace {
    type V = Seq<u8>;

    open spec fn view(&self) -> Seq<u8> {
        self.bytes@
    }
}

impl Namespace {
    /// Compare two namespaces by their bytes.
    pub fn equals(&self, other: &Namespace) -> (r: bool)
        ensures
            r == (self@ == other@),
    {
        vec_u8_equals(&self.bytes, &other.bytes)
    }

    /// Copy this namespace.
    pub fn duplicate(&self) -> (r: Namespace)
        ensures
            r@ == self@,
    {
        Namespace { bytes: clone_bytes(&self.bytes) }
    }
}

/// The two kinds of authenticated tree a root can pin.
#[derive(Clone, Copy, Debug, PartialEq, Eq, Structural)]
pub enum RootType {
    State,
    IO,
}

/// A root pins one authenticated snapshot: `(namespace, version, type, hash)`.
#[derive(Clone, Debug)]
pub struct Root {
    pub namespace: Namespace,
    pub version: u64,
    pub root_type: RootType,
    pub hash: Digest,
}

/// The mathematical value of a root.
pub struct RootModel {
    pub namespace: Seq<u8>,
    pub version: u64,
    pub root_type: RootType,
    pub hash: Seq<u8>,
}

impl View for Root {
    type V = RootModel;

    open spec fn view(&self) -> RootModel {
        RootModel {
            namespace: self.namespace@,
            version: self.version,
            root_type: self.root_type,
            hash: self.hash@,
        }
    }
}

impl Root {
    /// Compare two roots field by field.
    pub fn equals(&self, other: &Root) -> (r: bool)
        ensures
            r == (self@ == other@),
    {
        let r = self.namespace.equals(&other.namespace) && self.version == other.version
            && self.root_type == other.root_type && self.hash.equals(&other.hash);
        proof {
            if r {
                assert(self@ =~= other@);
            }
        }
        r
    }

    /// Copy this root.
    pub fn duplicate(&self) -> (r: Root)
        ensures
            r@ == self@,
    {
        Root {
            namespace: self.namespace.duplicate(),
            version: self.version,
            root_type: self.root_type,
            hash: self.hash.duplicate(),
        }
    }
}

/// A typed dispatch error: `(module, code, message)`.
#[derive(Clone, Debug)]
pub struct Error {
    pub module: String,
    pub code: u32,
    pub message: String,
}

impl Error {
    /// Build an error triple.
    pub fn new(module: &str, code: u32, message: &str) -> (r: Error)
        ensures
            r.module@ == module@,
            r.code == code,
            r.message@ == message@,
    {
        Error { module: module.to_string(), code, message: message.to_string() }
    }
}

/// Epoch time: a coarse time coordinate exposed to handlers.
pub type EpochTime = u64;

/// A key/value pair emitted by a transaction for indexing.
#[derive(Clone, Debug)]
pub struct Tag {
    pub key: Vec<u8>,
    pub value: Vec<u8>,
}

/// One entry of a storage write log.
#[derive(Clone, Debug)]
pub struct LogEntry {
    pub key: Vec<u8>,
    pub value: Vec<u8>,
}

/// A storage write log: the ordered writes a commit produced.
pub type WriteLog = Vec<LogEntry>;

/// An unverified consensus light block, opaque to the dispatcher.
#[derive(Clone, Debug)]
pub struct LightBlock {
    pub height: u64,
    pub meta: Vec<u8>,
}

/// Results of the previous consensus round, passed through to handlers.
#[derive(Clone, Debug)]
pub struct RoundResults {
    pub raw: Vec<u8>,
}

/// A runtime block header, as far as the dispatcher reads it.
#[derive(Clone, Debug)]
pub struct Header {
    pub namespace: Namespace,
    pub round: u64,
    pub timestamp: u64,
    pub previous_hash: Digest,
    pub io_root: Digest,
    pub state_root: Digest,
}

impl RoundResults {
    /// Copy these round results.
    pub fn duplicate(&self) -> (r: RoundResults)
        ensures
            r.raw@ == self.raw@,
    {
        RoundResults { raw: clone_bytes(&self.raw) }
    }
}

/// The mathematical value of a header.
pub struct HeaderModel {
    pub namespace: Seq<u8>,
    pub round: u64,
    pub timestamp: u64,
    pub previous_hash: Seq<u8>,
    pub io_root: Seq<u8>,
    pub state_root: Seq<u8>,
}

impl View for Header {
    type V = HeaderModel;

    open spec fn view(&self) -> HeaderModel {
        HeaderModel {
            namespace: self.namespace@,
            round: self.round,
            timestamp: self.timestamp,
            previous_hash: self.previous_hash@,
            io_root: self.io_root@,
            state_root: self.state_root@,
        }
    }
}

impl Header {
    /// Copy this header.
    pub fn duplicate(&self) -> (r: Header)
        ensures
            r@ == self@,
    {
        let r = Header {
            namespace: self.namespace.duplicate(),
            round: self.round,
            timestamp: self.timestamp,
            previous_hash: self.previous_hash.duplicate(),
            io_root: self.io_root.duplicate(),
            state_root: self.state_root.duplicate(),
        };
        proof {
            assert(r@ =~= self@);
        }
        r
    }
}

/// The consensus state a verifier hands back for a block.
#[derive(Clone, Copy, Debug, PartialEq, Eq, Structural)]
pub struct ConsensusState {
    /// Height of the consensus block the state belongs to.
    pub height: u64,
}

/// A runtime block: the dispatcher only consults its header.
#[derive(Clone, Debug)]
pub struct Block {
    pub header: Header,
}

/// The header of a computed batch, returned to the host and signed by the RAK.
#[derive(Clone, Debug)]
pub struct ComputeResultsHeader {
    pub round: u64,
    pub previous_hash: Digest,
    pub io_root: Option<Digest>,
    pub state_root: Option<Digest>,
    pub messages_hash: Option<Digest>,
}

/// A signature produced by the runtime attestation key.
#[derive(Clone, Debug)]
pub struct Signature {
    pub bytes: Vec<u8>,
}

impl Signature {
    /// The empty signature, used when no attestation key is present.
    pub fn empty() -> (r: Signature)
        ensures
            r.bytes@ == Seq::<u8>::empty(),
    {
        Signature { bytes: Vec::new() }
    }
}

/// A public attestation key.
#[derive(Clone, Debug)]
pub struct PublicKey {
    pub bytes: Vec<u8>,
}

/// The full result of executing a transaction batch.
#[derive(Clone, Debug)]
pub struct ComputedBatch {
    pub header: ComputeResultsHeader,
    pub io_write_log: WriteLog,
    pub state_write_log: WriteLog,
    pub rak_sig: Signature,
    pub messages: Vec<Vec<u8>>,
}

/// A request or response body, tagged by variant.
#[derive(Clone, Debug)]
pub enum Body {
    Error(Error),
    Empty {},
    RuntimeRPCCallRequest { request: Vec<u8> },
    RuntimeRPCCallResponse { response: Vec<u8> },
    RuntimeLocalRPCCallRequest { request: Vec<u8> },
    RuntimeLocalRPCCallResponse { response: Vec<u8> },
    RuntimeCheckTxBatchRequest {
        consensus_block: LightBlock,
        inputs: TxnBatch,
        block: Block,
        epoch: EpochTime,
        max_messages: u32,
    },
    RuntimeCheckTxBatchResponse { results: TxnBatch },
    RuntimeExecuteTxBatchRequest {
        consensus_block: LightBlock,
        round_results: RoundResults,
        io_root: Digest,
        inputs: Option<TxnBatch>,
        block: Block,
        epoch: EpochTime,
        max_messages: u32,
    },
    RuntimeExecuteTxBatchResponse {
        batch: ComputedBatch,
        batch_weight_limits: Option<Vec<(String, u64)>>,
    },
    RuntimeKeyManagerPolicyUpdateRequest { signed_policy_raw: Vec<u8> },
    RuntimeKeyManagerPolicyUpdateResponse {},
    RuntimeQueryRequest {
        consensus_block: LightBlock,
        header: Header,
        epoch: EpochTime,
        max_messages: u32,
        method: String,
        args: Vec<u8>,
    },
    RuntimeQueryResponse { data: Vec<u8> },
    RuntimeConsensusSyncRequest { height: u64 },
    RuntimeConsensusSyncResponse {},
    RuntimeAbortRequest {},
}

} // verus!
