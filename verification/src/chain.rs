//! A chain: blocks in the order in which they were appended, and the check
//! of their links.

use crate::block::Block;
use crate::hash::ContentHash;
use vstd::prelude::*;

verus! {

/// Whether the `k`-th pair of `blocks`, the blocks at `2 * k` and `2 * k + 1`,
/// is linked: whether the second names the first as its predecessor.
pub open spec fn pair_linked<T: ContentHash>(blocks: Seq<Block<T>>, k: int) -> bool {
    blocks[2 * k + 1].trusts(&blocks[2 * k])
}

/// Whether every pair of `blocks` is linked. The pairs do not overlap: the
/// blocks at 0 and 1, at 2 and 3, and so on. A last block without a partner
/// is not looked at, and neither is the link from an odd place to the next.
pub open spec fn pairwise_trusty<T: ContentHash>(blocks: Seq<Block<T>>) -> bool {
    forall|k: int| 0 <= k && 2 * k + 1 < blocks.len() ==> #[trigger] pair_linked(blocks, k)
}

/// Whether every block of `blocks` but the first names the block before it
/// as its predecessor.
pub open spec fn fully_linked<T: ContentHash>(blocks: Seq<Block<T>>) -> bool {
    forall|i: int| 0 <= i && i + 1 < blocks.len() ==> (#[trigger] blocks[i + 1]).trusts(&blocks[i])
}

/// A chain of blocks.
#[derive(Debug)]
pub struct Chain<T: Clone + ContentHash> {
    inner: Vec<Block<T>>,
}

impl<T: Clone + ContentHash> View for Chain<T> {
    type V = Seq<Block<T>>;

    /// The blocks of the chain, in the order in which they were appended.
    closed spec fn view(&self) -> Seq<Block<T>> {
        self.inner@
    }
}

impl<T: Clone + ContentHash> Chain<T> {
    /// Creates a chain that holds `inner` as it is given.
    pub fn new(inner: Vec<Block<T>>) -> (chain: Chain<T>)
        ensures
            chain@ == inner@,
    {
        Chain { inner }
    }

    /// Appends a block to the chain. This always succeeds.
    pub fn push(&mut self, v: Block<T>) -> (done: Option<()>)
        ensures
            final(self)@ == old(self)@.push(v),
            done == Some(()),
    {
        self.inner.push(v);
        Some(())
    }

    /// Returns `true` if every pair of the chain is linked, the pairs taken
    /// without overlap from the front.
    pub fn is_trusty_chain(&self) -> (trusty: bool)
        ensures
            trusty == pairwise_trusty(self@),
    {
        let n = self.inner.len();
        let mut i: usize = 0;
        while n - i >= 2
            invariant
                i <= n,
                i % 2 == 0,
                n == self@.len(),
                self@ == self.inner@,
                forall|k: int| 0 <= k && 2 * k + 1 < i ==> #[trigger] pair_linked(self@, k),
            decreases n - i,
        {
            if !self.inner[i + 1].is_trusty_for(&self.inner[i]) {
                assert(!pair_linked(self@, i as int / 2));
                return false;
            }
            assert(pair_linked(self@, i as int / 2));
            i += 2;
        }
        true
    }
}

/// A chain without a pair passes the check: an empty chain, or a chain of one
/// block.
pub proof fn lemma_short_chain_is_trusty<T: ContentHash>(blocks: Seq<Block<T>>)
    requires
        blocks.len() <= 1,
    ensures
        pairwise_trusty(blocks),
{
}

/// A chain in which every block names the block before it passes the check.
pub proof fn lemma_fully_linked_is_trusty<T: ContentHash>(blocks: Seq<Block<T>>)
    requires
        fully_linked(blocks),
    ensures
        pairwise_trusty(blocks),
{
    assert forall|k: int| 0 <= k && 2 * k + 1 < blocks.len() implies #[trigger] pair_linked(
        blocks,
        k,
    ) by {
        assert(blocks[2 * k + 1].trusts(&blocks[2 * k]));
    }
}

} // verus!
