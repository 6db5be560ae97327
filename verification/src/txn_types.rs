//! Transaction protocol types: calls, outputs and batches.
use vstd::prelude::*;

verus! {

/// A transaction call: a method name and CBOR-encoded arguments.
#[derive(Clone, Debug)]
pub struct TxnCall {
    /// Method name.
    pub method: String,
    /// CBOR encoding of the method arguments.
    pub args: Vec<u8>,
}

/// A transaction call output.
#[derive(Clone, Debug)]
pub enum TxnOutput {
    /// Call invoked successfully; holds the CBOR encoding of the result.
    Success(Vec<u8>),
    /// Call raised an error.
    Error(String),
}

/// A batch of transaction inputs or outputs.
#[derive(Clone, Debug)]
pub struct TxnBatch(pub Vec<Vec<u8>>);

impl View for TxnBatch {
    type V = Seq<Seq<u8>>;

    open spec fn view(&self) -> Seq<Seq<u8>> {
        Seq::new(self.0@.len(), |i: int| self.0@[i]@)
    }
}

impl TxnBatch {
    /// An empty batch.
    pub fn new() -> (r: TxnBatch)
        ensures
            r@ == Seq::<Seq<u8>>::empty(),
    {
        let r = TxnBatch(Vec::new());
        proof {
            assert(r@ =~= Seq::<Seq<u8>>::empty());
        }
        r
    }

    /// Number of entries in the batch.
    pub fn len(&self) -> (r: usize)
        ensures
            r == self@.len(),
    {
        self.0.len()
    }

    /// Turn the batch back into its underlying vector.
    pub fn into_vec(self) -> (r: Vec<Vec<u8>>)
        ensures
            r@.len() == self@.len(),
            forall|i: int| 0 <= i < r@.len() ==> r@[i]@ == self@[i],
    {
        self.0
    }
}

impl From<Vec<Vec<u8>>> for TxnBatch {
    /// Wrap a vector of raw transactions as a batch.
    fn from(other: Vec<Vec<u8>>) -> (r: TxnBatch)
        ensures
            r == (TxnBatch(other)),
    {
        TxnBatch(other)
    }
}

impl vstd::std_specs::convert::FromSpecImpl<Vec<Vec<u8>>> for TxnBatch {
    open spec fn obeys_from_spec() -> bool {
        true
    }

    open spec fn from_spec(other: Vec<Vec<u8>>) -> TxnBatch {
        TxnBatch(other)
    }
}

} // verus!
