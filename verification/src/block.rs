//! A block: a payload bound to a height, to the identity of its predecessor
//! and to the time of its creation.

use crate::hash::digest;
use crate::hash::gen_id;
use crate::hash::ContentHash;
use crate::time::utc_now;
use crate::time::Timestamp;
use std::collections::hash_map::DefaultHasher;
use vstd::prelude::*;

verus! {

/// A block of a chain.
///
/// A block does not store its own identity: it is derived from the four
/// fields each time it is asked for.
#[derive(Clone, Debug, PartialEq)]
pub struct Block<T: ContentHash> {
    /// The height of the block.
    pub id: u64,
    /// The payload bound by the block.
    pub value: T,
    /// The identity of the block that this one names as its predecessor.
    pub previous_id: u64,
    /// When the block was created.
    pub timestamp: Timestamp,
}

impl<T: ContentHash> ContentHash for Block<T> {
    /// Height, payload, back link and creation time, in this order.
    open spec fn content(&self) -> Seq<Seq<u8>> {
        self.id.content() + self.value.content() + self.previous_id.content()
            + self.timestamp.content()
    }

    fn feed(&self, state: &mut DefaultHasher) {
        self.id.feed(state);
        self.value.feed(state);
        self.previous_id.feed(state);
        self.timestamp.feed(state);
    }
}

impl<T: ContentHash> Block<T> {
    /// The identity of the block: the digest of its whole content.
    pub open spec fn identity(&self) -> u64 {
        digest(self.content())
    }

    /// Whether `self` names `other` as its predecessor.
    pub open spec fn trusts(&self, other: &Block<T>) -> bool {
        self.previous_id == other.identity()
    }

    /// Creates a block stamped with the current time. Any height and any
    /// back link are accepted.
    pub fn new(id: u64, value: T, previous_id: u64) -> (block: Block<T>)
        ensures
            block.id == id,
            block.value == value,
            block.previous_id == previous_id,
    {
        Block::at(id, value, previous_id, utc_now())
    }

    /// Creates a block stamped with `timestamp`.
    pub fn at(id: u64, value: T, previous_id: u64, timestamp: Timestamp) -> (block: Block<T>)
        ensures
            block == (Block { id, value, previous_id, timestamp }),
    {
        Block { id, value, previous_id, timestamp }
    }

    /// Returns `true` if `self` names `other` as its predecessor: if the back
    /// link of `self` is the identity that `other` has now.
    pub fn is_trusty_for(&self, other: &Block<T>) -> (trusty: bool)
        ensures
            trusty == self.trusts(other),
    {
        self.previous_id == gen_id(other)
    }

    /// Constructs the successor of `self`, stamped with the current time: one
    /// higher, and with the identity that `self` has now as its back link.
    /// The height of `self` must not be the highest there is.
    pub fn next(&self, value: T) -> (block: Block<T>)
        requires
            self.id < u64::MAX,
        ensures
            block.id == self.id + 1,
            block.value == value,
            block.previous_id == self.identity(),
            block.trusts(self),
    {
        self.next_at(value, utc_now())
    }

    /// Constructs the successor of `self`, stamped with `timestamp`.
    /// The height of `self` must not be the highest there is.
    pub fn next_at(&self, value: T, timestamp: Timestamp) -> (block: Block<T>)
        requires
            self.id < u64::MAX,
        ensures
            block == (Block {
                id: (self.id + 1) as u64,
                value,
                previous_id: self.identity(),
                timestamp,
            }),
    {
        let id = self.id + 1;
        let previous_id = gen_id(self);
        Block { id, value, previous_id, timestamp }
    }
}

/// The identity of a block is a function of its content alone: two blocks
/// with the same height, the same back link, the same creation time and
/// payloads of the same content have the same identity.
pub proof fn lemma_identity_is_deterministic<T: ContentHash>(a: Block<T>, b: Block<T>)
    requires
        a.id == b.id,
        a.value.content() == b.value.content(),
        a.previous_id == b.previous_id,
        a.timestamp == b.timestamp,
    ensures
        a.identity() == b.identity(),
{
}

/// Whether one block trusts another depends on the back link of the first
/// and on the content of the second, and on nothing else.
pub proof fn lemma_trust_is_a_function<T: ContentHash>(
    a: Block<T>,
    b: Block<T>,
    c: Block<T>,
    d: Block<T>,
)
    requires
        a.previous_id == c.previous_id,
        b.content() == d.content(),
    ensures
        a.trusts(&b) == c.trusts(&d),
{
}

/// A block trusts at most one of two blocks whose identities differ.
pub proof fn lemma_trust_tells_identities_apart<T: ContentHash>(
    a: Block<T>,
    b: Block<T>,
    c: Block<T>,
)
    requires
        a.identity() != b.identity(),
    ensures
        !(c.trusts(&a) && c.trusts(&b)),
{
}

} // verus!
