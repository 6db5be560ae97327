//! The root-keyed tree cache.
//!
//! One cache holds one tree, bound to the root it was last used at. When a
//! request arrives for a different root the tree is discarded and rebuilt;
//! when the root matches, the tree — and everything it has materialized —
//! is reused. The dispatcher keeps two independent caches, one for the
//! execute path and one for the check and query paths.
use vstd::prelude::*;

use crate::mkvs::Tree;
use crate::types::{Digest, Namespace, Root, RootType};

verus! {

/// The all-zero 32-byte sequence: the default namespace and hash.
pub open spec fn zero_bytes() -> Seq<u8> {
    Seq::<u8>::new(crate::types::HASH_SIZE as nat, |i: int| 0u8)
}

/// The root a fresh cache is bound to: all fields zero.
pub fn default_root() -> (r: Root)
    ensures
        r.namespace@ == zero_bytes(),
        r.version == 0,
        r.root_type == RootType::State,
        r.hash@ == zero_bytes(),
{
    Root {
        namespace: Namespace { bytes: Digest::zero().bytes },
        version: 0,
        root_type: RootType::State,
        hash: Digest::zero(),
    }
}

/// A tree cache keyed by its current root.
pub struct Cache {
    /// The root the cached tree stands at.
    pub root: Root,
    /// The cached tree itself.
    pub mkvs: Tree,
}

impl Cache {
    /// A cache is well formed when its tree is bound to its root.
    pub open spec fn well_formed(&self) -> bool {
        self.mkvs.root@ == self.root@
    }

    /// A fresh cache over an empty tree at the default root.
    pub fn new() -> (r: Cache)
        ensures
            r.root@.version == 0,
            r.root@.namespace == zero_bytes(),
            r.root@.hash == zero_bytes(),
            r.mkvs.contents@.len() == 0,
            r.well_formed(),
    {
        let root = default_root();
        let mkvs = Self::new_tree(&root);
        Cache { root, mkvs }
    }

    /// Build a fresh, empty tree bound to `root`.
    pub fn new_tree(root: &Root) -> (r: Tree)
        ensures
            r.root@ == root@,
            r.contents@.len() == 0,
    {
        Tree::new(root.duplicate())
    }

    /// Bind the cache to `root`: keep the tree when the root is unchanged,
    /// else discard it and build a fresh one.
    pub fn maybe_replace(&mut self, root: Root)
        requires
            old(self).well_formed(),
        ensures
            final(self).root@ == root@,
            final(self).well_formed(),
            old(self).root@ == root@ ==> final(self).mkvs.contents@ == old(self).mkvs.contents@
                && final(self).mkvs.root@ == old(self).mkvs.root@,
            old(self).root@ != root@ ==> final(self).mkvs.contents@.len() == 0,
    {
        if self.root.equals(&root) {
            return ;
        }
        self.mkvs = Self::new_tree(&root);
        self.root = root;
    }

    /// After a successful execute, move the root forward in place; the
    /// tree keeps everything it has materialized.
    pub fn commit(&mut self, version: u64, root_hash: Digest)
        ensures
            final(self).root@.version == version,
            final(self).root@.hash == root_hash@,
            final(self).root@.namespace == old(self).root@.namespace,
            final(self).root@.root_type == old(self).root@.root_type,
            final(self).mkvs.contents@ == old(self).mkvs.contents@,
            final(self).well_formed(),
    {
        self.root.version = version;
        self.root.hash = root_hash;
        let tree_root = self.root.duplicate();
        self.mkvs.root = tree_root;
    }
}

} // verus!
