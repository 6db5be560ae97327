//! Models of the authenticated trees the dispatcher drives: the cached
//! state tree, the overlay that buffers a batch's writes, and the I/O tree
//! rebuilt from the batch inputs.
//!
//! The node layout of the real store is out of the dispatcher's scope; the
//! roots these models produce are digests over a fixed framing of the
//! tree's contents, so a root is a pure function of what was written.
use vstd::prelude::*;

use crate::codec::{digest_bytes, digest_of};
use crate::types::{append_bytes, clone_bytes, vec_u8_equals, Digest, LogEntry, Namespace, Root, Tag, WriteLog, HASH_SIZE};

verus! {

/// The little-endian bytes of `n`, `k` bytes long.
pub open spec fn le_bytes(n: nat, k: nat) -> Seq<u8>
    decreases k,
{
    if k == 0 {
        Seq::<u8>::empty()
    } else {
        seq![(n % 256) as u8] + le_bytes(n / 256, (k - 1) as nat)
    }
}

/// The eight little-endian bytes of a 64-bit value.
pub open spec fn enc_u64le(n: u64) -> Seq<u8> {
    le_bytes(n as nat, 8)
}

/// A length-prefixed byte string.
pub open spec fn frame(data: Seq<u8>) -> Seq<u8> {
    enc_u64le(data.len() as u64) + data
}

/// The framed concatenation of a write log.
pub open spec fn writes_frame(writes: Seq<(Seq<u8>, Seq<u8>)>) -> Seq<u8>
    decreases writes.len(),
{
    if writes.len() == 0 {
        Seq::<u8>::empty()
    } else {
        writes_frame(writes.drop_last()) + frame(writes.last().0) + frame(writes.last().1)
    }
}

/// The state root produced by committing `writes` on top of `base` at
/// `(namespace, round)`.
pub open spec fn state_root_of(
    base: Seq<u8>,
    namespace: Seq<u8>,
    round: u64,
    writes: Seq<(Seq<u8>, Seq<u8>)>,
) -> Seq<u8> {
    digest_of(frame(base) + frame(namespace) + enc_u64le(round) + writes_frame(writes))
}

/// The framed concatenation of a batch's inputs, each with its order.
pub open spec fn inputs_frame(inputs: Seq<(Seq<u8>, u32)>) -> Seq<u8>
    decreases inputs.len(),
{
    if inputs.len() == 0 {
        Seq::<u8>::empty()
    } else {
        inputs_frame(inputs.drop_last()) + enc_u64le(inputs.last().1 as u64) + frame(
            inputs.last().0,
        )
    }
}

/// The framed concatenation of a batch's outputs: transaction hash, output
/// bytes and the framed tags.
pub open spec fn outputs_frame(outputs: Seq<(Seq<u8>, Seq<u8>, Seq<(Seq<u8>, Seq<u8>)>)>) -> Seq<
    u8,
>
    decreases outputs.len(),
{
    if outputs.len() == 0 {
        Seq::<u8>::empty()
    } else {
        outputs_frame(outputs.drop_last()) + frame(outputs.last().0) + frame(outputs.last().1)
            + writes_frame(outputs.last().2)
    }
}

/// The root of an I/O tree holding `inputs`, `outputs` and `block_tags` at
/// `(namespace, round)`.
pub open spec fn io_root_of(
    namespace: Seq<u8>,
    round: u64,
    inputs: Seq<(Seq<u8>, u32)>,
    outputs: Seq<(Seq<u8>, Seq<u8>, Seq<(Seq<u8>, Seq<u8>)>)>,
    block_tags: Seq<(Seq<u8>, Seq<u8>)>,
) -> Seq<u8> {
    digest_of(
        frame(namespace) + enc_u64le(round) + inputs_frame(inputs) + outputs_frame(outputs)
            + writes_frame(block_tags),
    )
}

/// Append the little-endian bytes of `n` to `acc`.
pub fn append_u64le(acc: &mut Vec<u8>, n: u64)
    ensures
        final(acc)@ == old(acc)@ + enc_u64le(n),
{
    let mut out: Vec<u8> = Vec::new();
    let mut rem: u64 = n;
    let mut i: usize = 0;
    while i < 8
        invariant
            i <= 8,
            le_bytes(n as nat, 8) == out@ + le_bytes(rem as nat, (8 - i) as nat),
        decreases 8 - i,
    {
        let b: u8 = (rem % 256) as u8;
        proof {
            assert(le_bytes(rem as nat, (8 - i) as nat) == seq![b] + le_bytes(
                (rem / 256) as nat,
                (8 - i - 1) as nat,
            ));
            assert(out@ + le_bytes(rem as nat, (8 - i) as nat) =~= out@.push(b) + le_bytes(
                (rem / 256) as nat,
                (8 - i - 1) as nat,
            ));
        }
        out.push(b);
        rem = rem / 256;
        i = i + 1;
    }
    proof {
        assert(le_bytes(rem as nat, 0) =~= Seq::<u8>::empty());
        assert(out@ + le_bytes(rem as nat, 0) =~= out@);
    }
    append_bytes(acc, &out);
}

/// Append the frame of `data` (length prefix, then the bytes) to `acc`.
pub fn append_frame(acc: &mut Vec<u8>, data: &Vec<u8>)
    ensures
        final(acc)@ == old(acc)@ + frame(data@),
{
    append_u64le(acc, data.len() as u64);
    append_bytes(acc, data);
    proof {
        assert(acc@ =~= old(acc)@ + frame(data@));
    }
}

/// The mathematical value of a write log: its `(key, value)` pairs.
pub open spec fn log_view(log: Seq<LogEntry>) -> Seq<(Seq<u8>, Seq<u8>)> {
    Seq::new(log.len(), |i: int| (log[i].key@, log[i].value@))
}

/// Append a copy of every entry of `src` to `dst`.
pub fn append_log(dst: &mut Vec<LogEntry>, src: &Vec<LogEntry>)
    ensures
        log_view(final(dst)@) == log_view(old(dst)@) + log_view(src@),
{
    let mut i: usize = 0;
    proof {
        assert(log_view(dst@) =~= log_view(old(dst)@) + log_view(src@).subrange(0, 0));
    }
    while i < src.len()
        invariant
            i <= src@.len(),
            log_view(dst@) == log_view(old(dst)@) + log_view(src@).subrange(0, i as int),
        decreases src@.len() - i,
    {
        let e = LogEntry { key: clone_bytes(&src[i].key), value: clone_bytes(&src[i].value) };
        let ghost gk: Seq<u8> = e.key@;
        let ghost gv: Seq<u8> = e.value@;
        let ghost pre: Seq<LogEntry> = dst@;
        dst.push(e);
        i = i + 1;
        proof {
            assert(log_view(dst@) =~= log_view(pre).push((gk, gv)));
            assert(log_view(old(dst)@) + log_view(src@).subrange(0, i as int) =~= (log_view(
                old(dst)@,
            ) + log_view(src@).subrange(0, i - 1)).push(log_view(src@)[i - 1]));
            assert(log_view(dst@) == log_view(old(dst)@) + log_view(src@).subrange(0, i as int));
        }
    }
    proof {
        assert(log_view(src@).subrange(0, src@.len() as int) =~= log_view(src@));
    }
}

/// The last value written under `key`, if any.
pub open spec fn overlay_lookup(writes: Seq<(Seq<u8>, Seq<u8>)>, key: Seq<u8>) -> Option<Seq<u8>>
    decreases writes.len(),
{
    if writes.len() == 0 {
        None
    } else if writes.last().0 == key {
        Some(writes.last().1)
    } else {
        overlay_lookup(writes.drop_last(), key)
    }
}

/// A cached state tree. The real store materializes nodes as they are
/// read or written; the model records the committed writes, so that
/// replacing the tree is observably different from reusing it.
pub struct Tree {
    /// The root the tree was last bound to.
    pub root: Root,
    /// Writes committed through this tree since it was built.
    pub contents: Vec<LogEntry>,
}

impl Tree {
    /// A fresh tree bound to `root`, with nothing materialized.
    pub fn new(root: Root) -> (r: Tree)
        ensures
            r.root@ == root@,
            r.contents@.len() == 0,
    {
        Tree { root, contents: Vec::new() }
    }
}

/// An overlay buffering a batch's writes over a cached tree.
///
/// Nothing reaches the underlying tree until `commit_both`; dropping the
/// overlay instead discards every write, which is what the check and query
/// paths do.
pub struct OverlayTree {
    /// Root hash of the tree the overlay was opened over.
    pub base: Digest,
    /// The buffered writes, in order.
    pub writes: Vec<LogEntry>,
}

impl OverlayTree {
    /// The buffered writes as `(key, value)` pairs.
    pub open spec fn view(&self) -> Seq<(Seq<u8>, Seq<u8>)> {
        log_view(self.writes@)
    }

    /// Open an overlay over `tree`, with no writes yet.
    pub fn new(tree: &Tree) -> (r: OverlayTree)
        ensures
            r@ == Seq::<(Seq<u8>, Seq<u8>)>::empty(),
            r.base@ == tree.root.hash@,
    {
        let r = OverlayTree { base: Digest { bytes: clone_bytes(&tree.root.hash.bytes) }, writes: Vec::new() };
        proof {
            assert(r@ =~= Seq::<(Seq<u8>, Seq<u8>)>::empty());
        }
        r
    }

    /// Buffer a write.
    pub fn insert(&mut self, key: Vec<u8>, value: Vec<u8>)
        ensures
            final(self)@ == old(self)@.push((key@, value@)),
            final(self).base@ == old(self).base@,
    {
        self.writes.push(LogEntry { key, value });
        proof {
            assert(self@ =~= old(self)@.push((self.writes@.last().key@, self.writes@.last().value@)));
        }
    }

    /// Read back the last value buffered under `key`, if any.
    pub fn get(&self, key: &Vec<u8>) -> (r: Option<Vec<u8>>)
        ensures
            (match r {
                Some(v) => overlay_lookup(self@, key@) == Some(v@),
                None => overlay_lookup(self@, key@) is None,
            }),
    {
        let mut i: usize = self.writes.len();
        proof {
            assert(self@.subrange(0, i as int) =~= self@);
        }
        while i > 0
            invariant
                i <= self.writes@.len(),
                overlay_lookup(self@, key@) == overlay_lookup(self@.subrange(0, i as int), key@),
            decreases i,
        {
            proof {
                assert(self@.subrange(0, i as int).drop_last() =~= self@.subrange(0, i - 1));
                assert(self@.subrange(0, i as int).last() == self@[i - 1]);
            }
            i = i - 1;
            if vec_u8_equals(&self.writes[i].key, key) {
                return Some(clone_bytes(&self.writes[i].value));
            }
        }
        proof {
            assert(self@.subrange(0, 0) =~= Seq::<(Seq<u8>, Seq<u8>)>::empty());
        }
        None
    }

    /// Commit the buffered writes on top of the tree at `(namespace, round)`.
    ///
    /// Returns the write log and the new state root, and materializes the
    /// writes in the underlying tree; the tree's recorded root is updated
    /// separately by the cache.
    pub fn commit_both(self, tree: &mut Tree, namespace: &Namespace, round: u64) -> (r: (
        WriteLog,
        Digest,
    ))
        ensures
            log_view(r.0@) == self@,
            r.1@ == state_root_of(self.base@, namespace@, round, self@),
            r.1.well_formed(),
            final(tree).root@ == old(tree).root@,
            log_view(final(tree).contents@) == log_view(old(tree).contents@) + self@,
    {
        let OverlayTree { base, writes } = self;
        let ghost w: Seq<(Seq<u8>, Seq<u8>)> = log_view(writes@);
        let ghost head: Seq<u8> = frame(base@) + frame(namespace@) + enc_u64le(round);
        let mut buf: Vec<u8> = Vec::new();
        append_frame(&mut buf, &base.bytes);
        append_frame(&mut buf, &namespace.bytes);
        append_u64le(&mut buf, round);
        let mut log: WriteLog = Vec::new();
        let mut i: usize = 0;
        proof {
            assert(w.subrange(0, 0) =~= Seq::<(Seq<u8>, Seq<u8>)>::empty());
            assert(writes_frame(w.subrange(0, 0)) == Seq::<u8>::empty());
            assert(buf@ =~= head + writes_frame(w.subrange(0, 0)));
            assert(log_view(log@) =~= w.subrange(0, 0));
        }
        while i < writes.len()
            invariant
                i <= writes@.len(),
                w == log_view(writes@),
                buf@ == head + writes_frame(w.subrange(0, i as int)),
                log_view(log@) == w.subrange(0, i as int),
            decreases writes@.len() - i,
        {
            let key = clone_bytes(&writes[i].key);
            let value = clone_bytes(&writes[i].value);
            append_frame(&mut buf, &key);
            append_frame(&mut buf, &value);
            log.push(LogEntry { key, value });
            i = i + 1;
            proof {
                assert(w.subrange(0, i as int).drop_last() =~= w.subrange(0, i - 1));
                assert(w.subrange(0, i as int).last() == w[i - 1]);
                assert(buf@ =~= head + writes_frame(w.subrange(0, i as int)));
                assert(log_view(log@) =~= w.subrange(0, i as int));
            }
        }
        proof {
            assert(w.subrange(0, w.len() as int) =~= w);
        }
        append_log(&mut tree.contents, &log);
        let root = Digest { bytes: digest_bytes(&buf) };
        (log, root)
    }
}

/// The mathematical value of a tag list: its `(key, value)` pairs.
pub open spec fn tags_view(tags: Seq<Tag>) -> Seq<(Seq<u8>, Seq<u8>)> {
    Seq::new(tags.len(), |i: int| (tags[i].key@, tags[i].value@))
}

/// The mathematical value of an input list: each input with its order.
pub open spec fn inputs_view(inputs: Seq<(Vec<u8>, u32)>) -> Seq<(Seq<u8>, u32)> {
    Seq::new(inputs.len(), |i: int| (inputs[i].0@, inputs[i].1))
}

/// Copy a tag list.
pub fn clone_tags(tags: &Vec<Tag>) -> (r: Vec<Tag>)
    ensures
        tags_view(r@) == tags_view(tags@),
{
    let mut out: Vec<Tag> = Vec::new();
    let mut i: usize = 0;
    proof {
        assert(tags_view(out@) =~= tags_view(tags@).subrange(0, 0));
    }
    while i < tags.len()
        invariant
            i <= tags@.len(),
            tags_view(out@) == tags_view(tags@).subrange(0, i as int),
        decreases tags@.len() - i,
    {
        let key = clone_bytes(&tags[i].key);
        let value = clone_bytes(&tags[i].value);
        let ghost gk: Seq<u8> = key@;
        let ghost gv: Seq<u8> = value@;
        let ghost pre: Seq<Tag> = out@;
        out.push(Tag { key, value });
        i = i + 1;
        proof {
            assert(tags_view(out@) =~= tags_view(pre).push((gk, gv)));
            assert(tags_view(tags@).subrange(0, i as int) =~= tags_view(tags@).subrange(
                0,
                i - 1,
            ).push(tags_view(tags@)[i - 1]));
        }
    }
    proof {
        assert(tags_view(tags@).subrange(0, tags@.len() as int) =~= tags_view(tags@));
    }
    out
}

/// One output recorded in the I/O tree.
pub struct IoOutput {
    pub tx_hash: Digest,
    pub output: Vec<u8>,
    pub tags: Vec<Tag>,
}

/// The mathematical value of an output list.
pub open spec fn outputs_view(outputs: Seq<IoOutput>) -> Seq<
    (Seq<u8>, Seq<u8>, Seq<(Seq<u8>, Seq<u8>)>),
> {
    Seq::new(
        outputs.len(),
        |i: int| (outputs[i].tx_hash@, outputs[i].output@, tags_view(outputs[i].tags@)),
    )
}

/// The write log entries contributed by the inputs.
pub open spec fn io_input_log(inputs: Seq<(Seq<u8>, u32)>) -> Seq<(Seq<u8>, Seq<u8>)> {
    Seq::new(inputs.len(), |i: int| (enc_u64le(inputs[i].1 as u64), inputs[i].0))
}

/// The write log entries contributed by the outputs.
pub open spec fn io_output_log(outputs: Seq<(Seq<u8>, Seq<u8>, Seq<(Seq<u8>, Seq<u8>)>)>) -> Seq<
    (Seq<u8>, Seq<u8>),
> {
    Seq::new(outputs.len(), |i: int| (outputs[i].0, outputs[i].1))
}

/// Append the framed tags to `acc`.
pub fn append_tags(acc: &mut Vec<u8>, tags: &Vec<Tag>)
    ensures
        final(acc)@ == old(acc)@ + writes_frame(tags_view(tags@)),
{
    let ghost tv: Seq<(Seq<u8>, Seq<u8>)> = tags_view(tags@);
    let mut i: usize = 0;
    proof {
        assert(tv.subrange(0, 0) =~= Seq::<(Seq<u8>, Seq<u8>)>::empty());
        assert(acc@ =~= old(acc)@ + writes_frame(tv.subrange(0, 0)));
    }
    while i < tags.len()
        invariant
            i <= tags@.len(),
            tv == tags_view(tags@),
            acc@ == old(acc)@ + writes_frame(tv.subrange(0, i as int)),
        decreases tags@.len() - i,
    {
        append_frame(acc, &tags[i].key);
        append_frame(acc, &tags[i].value);
        i = i + 1;
        proof {
            assert(tv.subrange(0, i as int).drop_last() =~= tv.subrange(0, i - 1));
            assert(tv.subrange(0, i as int).last() == tv[i - 1]);
            assert(acc@ =~= old(acc)@ + writes_frame(tv.subrange(0, i as int)));
        }
    }
    proof {
        assert(tv.subrange(0, tv.len() as int) =~= tv);
    }
}

/// The I/O tree of one round: the batch inputs, the outputs computed for
/// them, and the block-level tags.
///
/// The tree is rebuilt from the inputs so the host need not be asked for
/// them again; its root is a pure function of what was added, in order.
pub struct TxnTree {
    pub namespace: Namespace,
    pub round: u64,
    pub inputs: Vec<(Vec<u8>, u32)>,
    pub outputs: Vec<IoOutput>,
    pub block_tags: Vec<Tag>,
}

impl TxnTree {
    /// An empty I/O tree at `root`'s namespace and version.
    pub fn new(root: Root) -> (r: TxnTree)
        ensures
            r.namespace@ == root.namespace@,
            r.round == root.version,
            inputs_view(r.inputs@) == Seq::<(Seq<u8>, u32)>::empty(),
            outputs_view(r.outputs@) == Seq::<(Seq<u8>, Seq<u8>, Seq<(Seq<u8>, Seq<u8>)>)>::empty(),
            tags_view(r.block_tags@) == Seq::<(Seq<u8>, Seq<u8>)>::empty(),
    {
        let r = TxnTree {
            namespace: root.namespace,
            round: root.version,
            inputs: Vec::new(),
            outputs: Vec::new(),
            block_tags: Vec::new(),
        };
        proof {
            assert(inputs_view(r.inputs@) =~= Seq::<(Seq<u8>, u32)>::empty());
            assert(outputs_view(r.outputs@) =~= Seq::<
                (Seq<u8>, Seq<u8>, Seq<(Seq<u8>, Seq<u8>)>),
            >::empty());
            assert(tags_view(r.block_tags@) =~= Seq::<(Seq<u8>, Seq<u8>)>::empty());
        }
        r
    }

    /// Record one batch input under its order.
    pub fn add_input(&mut self, input: Vec<u8>, batch_order: u32)
        ensures
            inputs_view(final(self).inputs@) == inputs_view(old(self).inputs@).push(
                (input@, batch_order),
            ),
            final(self).outputs@ == old(self).outputs@,
            final(self).block_tags@ == old(self).block_tags@,
            final(self).namespace@ == old(self).namespace@,
            final(self).round == old(self).round,
    {
        let ghost gi: Seq<u8> = input@;
        self.inputs.push((input, batch_order));
        proof {
            assert(inputs_view(self.inputs@) =~= inputs_view(old(self).inputs@).push(
                (gi, batch_order),
            ));
        }
    }

    /// Record one output: the transaction's digest, its output bytes and
    /// its tags.
    pub fn add_output(&mut self, tx_hash: Digest, output: Vec<u8>, tags: Vec<Tag>)
        ensures
            outputs_view(final(self).outputs@) == outputs_view(old(self).outputs@).push(
                (tx_hash@, output@, tags_view(tags@)),
            ),
            final(self).inputs@ == old(self).inputs@,
            final(self).block_tags@ == old(self).block_tags@,
            final(self).namespace@ == old(self).namespace@,
            final(self).round == old(self).round,
    {
        let ghost gh: Seq<u8> = tx_hash@;
        let ghost go: Seq<u8> = output@;
        let ghost gt: Seq<(Seq<u8>, Seq<u8>)> = tags_view(tags@);
        self.outputs.push(IoOutput { tx_hash, output, tags });
        proof {
            assert(outputs_view(self.outputs@) =~= outputs_view(old(self).outputs@).push(
                (gh, go, gt),
            ));
        }
    }

    /// Record the block-level tags.
    pub fn add_block_tags(&mut self, tags: Vec<Tag>)
        ensures
            tags_view(final(self).block_tags@) == tags_view(old(self).block_tags@) + tags_view(
                tags@,
            ),
            final(self).inputs@ == old(self).inputs@,
            final(self).outputs@ == old(self).outputs@,
            final(self).namespace@ == old(self).namespace@,
            final(self).round == old(self).round,
    {
        let ghost gt: Seq<Tag> = tags@;
        let ghost pre: Seq<Tag> = self.block_tags@;
        let mut rest = tags;
        self.block_tags.append(&mut rest);
        proof {
            assert(tags_view(self.block_tags@) =~= tags_view(pre) + tags_view(gt));
        }
    }

    /// Compute the tree's write log and root from everything added so far.
    pub fn commit(&self) -> (r: (WriteLog, Digest))
        ensures
            log_view(r.0@) == io_input_log(inputs_view(self.inputs@)) + io_output_log(
                outputs_view(self.outputs@),
            ),
            r.1@ == io_root_of(
                self.namespace@,
                self.round,
                inputs_view(self.inputs@),
                outputs_view(self.outputs@),
                tags_view(self.block_tags@),
            ),
            r.1.well_formed(),
    {
        let ghost iv: Seq<(Seq<u8>, u32)> = inputs_view(self.inputs@);
        let ghost ov: Seq<(Seq<u8>, Seq<u8>, Seq<(Seq<u8>, Seq<u8>)>)> = outputs_view(
            self.outputs@,
        );
        let ghost head: Seq<u8> = frame(self.namespace@) + enc_u64le(self.round);
        let mut buf: Vec<u8> = Vec::new();
        append_frame(&mut buf, &self.namespace.bytes);
        append_u64le(&mut buf, self.round);
        let mut log: WriteLog = Vec::new();
        let mut i: usize = 0;
        proof {
            assert(iv.subrange(0, 0) =~= Seq::<(Seq<u8>, u32)>::empty());
            assert(buf@ =~= head + inputs_frame(iv.subrange(0, 0)));
            assert(log_view(log@) =~= io_input_log(iv.subrange(0, 0)));
        }
        while i < self.inputs.len()
            invariant
                i <= self.inputs@.len(),
                iv == inputs_view(self.inputs@),
                head == frame(self.namespace@) + enc_u64le(self.round),
                buf@ == head + inputs_frame(iv.subrange(0, i as int)),
                log_view(log@) == io_input_log(iv.subrange(0, i as int)),
            decreases self.inputs@.len() - i,
        {
            let order: u32 = self.inputs[i].1;
            let mut key: Vec<u8> = Vec::new();
            append_u64le(&mut key, order as u64);
            let data = clone_bytes(&self.inputs[i].0);
            append_u64le(&mut buf, order as u64);
            append_frame(&mut buf, &data);
            let ghost gk: Seq<u8> = key@;
            let ghost gd: Seq<u8> = data@;
            let ghost pre: Seq<LogEntry> = log@;
            log.push(LogEntry { key, value: data });
            i = i + 1;
            proof {
                assert(iv.subrange(0, i as int).drop_last() =~= iv.subrange(0, i - 1));
                assert(iv.subrange(0, i as int).last() == iv[i - 1]);
                assert(buf@ =~= head + inputs_frame(iv.subrange(0, i as int)));
                assert(gk =~= enc_u64le(order as u64));
                assert(log_view(log@) =~= log_view(pre).push((gk, gd)));
                assert(io_input_log(iv.subrange(0, i as int)) =~= io_input_log(
                    iv.subrange(0, i - 1),
                ).push((enc_u64le(iv[i - 1].1 as u64), iv[i - 1].0)));
                assert(log_view(log@) == io_input_log(iv.subrange(0, i as int)));
            }
        }
        proof {
            assert(iv.subrange(0, iv.len() as int) =~= iv);
        }
        let ghost head2: Seq<u8> = head + inputs_frame(iv);
        let ghost log2: Seq<(Seq<u8>, Seq<u8>)> = io_input_log(iv);
        let mut j: usize = 0;
        proof {
            assert(ov.subrange(0, 0) =~= Seq::<
                (Seq<u8>, Seq<u8>, Seq<(Seq<u8>, Seq<u8>)>),
            >::empty());
            assert(buf@ =~= head2 + outputs_frame(ov.subrange(0, 0)));
            assert(io_output_log(ov.subrange(0, 0)) =~= Seq::<(Seq<u8>, Seq<u8>)>::empty());
            assert(log_view(log@) =~= log2 + io_output_log(ov.subrange(0, 0)));
        }
        while j < self.outputs.len()
            invariant
                j <= self.outputs@.len(),
                iv == inputs_view(self.inputs@),
                ov == outputs_view(self.outputs@),
                head2 == head + inputs_frame(iv),
                head == frame(self.namespace@) + enc_u64le(self.round),
                log2 == io_input_log(iv),
                buf@ == head2 + outputs_frame(ov.subrange(0, j as int)),
                log_view(log@) == log2 + io_output_log(ov.subrange(0, j as int)),
            decreases self.outputs@.len() - j,
        {
            let hash_bytes = clone_bytes(&self.outputs[j].tx_hash.bytes);
            let data = clone_bytes(&self.outputs[j].output);
            append_frame(&mut buf, &hash_bytes);
            append_frame(&mut buf, &data);
            append_tags(&mut buf, &self.outputs[j].tags);
            let ghost gk: Seq<u8> = hash_bytes@;
            let ghost gd: Seq<u8> = data@;
            let ghost pre: Seq<LogEntry> = log@;
            log.push(LogEntry { key: hash_bytes, value: data });
            j = j + 1;
            proof {
                assert(ov.subrange(0, j as int).drop_last() =~= ov.subrange(0, j - 1));
                assert(ov.subrange(0, j as int).last() == ov[j - 1]);
                assert(buf@ =~= head2 + outputs_frame(ov.subrange(0, j as int)));
                assert(log_view(log@) =~= log_view(pre).push((gk, gd)));
                assert(log2 + io_output_log(ov.subrange(0, j as int)) =~= (log2 + io_output_log(
                    ov.subrange(0, j - 1),
                )).push((ov[j - 1].0, ov[j - 1].1)));
                assert(log_view(log@) == log2 + io_output_log(ov.subrange(0, j as int)));
            }
        }
        proof {
            assert(ov.subrange(0, ov.len() as int) =~= ov);
        }
        append_tags(&mut buf, &self.block_tags);
        let root = Digest { bytes: digest_bytes(&buf) };
        (log, root)
    }
}


} // verus!
