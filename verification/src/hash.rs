//! Content hashing: what a value contributes to a hash, and the identity
//! derived from it.

use std::collections::hash_map::DefaultHasher;
use std::hash::Hasher;
use vstd::bytes::*;
use vstd::prelude::*;
use vstd::std_specs::hash::DefaultHasherAdditionalSpecFns;
use vstd::string::StringSliceAdditionalSpecFns;
use vstd::utf8::encode_utf8;

verus! {

/// A value whose content can be fed to a hasher, deterministically and in a
/// fixed order.
///
/// An implementation says in `content` what it writes, and `feed` is held to
/// it: what a value hashes to is then a function of its content alone.
pub trait ContentHash {
    /// The byte strings that this value contributes, in the order in which
    /// they are written.
    spec fn content(&self) -> Seq<Seq<u8>>;

    /// Writes `self.content()` to `state`, after what was written before.
    fn feed(&self, state: &mut DefaultHasher)
        ensures
            final(state)@ == old(state)@ + self.content(),
    ;
}

/// The identity that a sequence of written byte strings hashes to: what
/// `DefaultHasher::finish` returns after these writes to a fresh hasher.
///
/// The algorithm is that of std and is fixed for one release of it, not
/// across releases: identities are to be compared, not stored.
pub open spec fn digest(writes: Seq<Seq<u8>>) -> u64 {
    DefaultHasher::spec_finish(writes)
}

/// The contents of the items of `items`, one after the other.
pub open spec fn contents_of<T: ContentHash>(items: Seq<T>) -> Seq<Seq<u8>>
    decreases items.len(),
{
    if items.len() == 0 {
        Seq::empty()
    } else {
        contents_of(items.drop_last()) + items.last().content()
    }
}

impl ContentHash for u8 {
    /// The byte itself; wider integers contribute their bytes, lowest first.
    open spec fn content(&self) -> Seq<Seq<u8>> {
        seq![seq![*self]]
    }

    fn feed(&self, state: &mut DefaultHasher) {
        let mut bytes: Vec<u8> = Vec::new();
        bytes.push(*self);
        assert(bytes@ == seq![*self]);
        state.write(bytes.as_slice());
    }
}

impl ContentHash for u32 {
    open spec fn content(&self) -> Seq<Seq<u8>> {
        seq![spec_u32_to_le_bytes(*self)]
    }

    fn feed(&self, state: &mut DefaultHasher) {
        let bytes = u32_to_le_bytes(*self);
        state.write(bytes.as_slice());
    }
}

impl ContentHash for u64 {
    open spec fn content(&self) -> Seq<Seq<u8>> {
        seq![spec_u64_to_le_bytes(*self)]
    }

    fn feed(&self, state: &mut DefaultHasher) {
        let bytes = u64_to_le_bytes(*self);
        state.write(bytes.as_slice());
    }
}

impl ContentHash for i32 {
    open spec fn content(&self) -> Seq<Seq<u8>> {
        seq![spec_u32_to_le_bytes(*self as u32)]
    }

    fn feed(&self, state: &mut DefaultHasher) {
        let bytes = u32_to_le_bytes(#[verifier::truncate] (*self as u32));
        state.write(bytes.as_slice());
    }
}

impl ContentHash for i64 {
    open spec fn content(&self) -> Seq<Seq<u8>> {
        seq![spec_u64_to_le_bytes(*self as u64)]
    }

    fn feed(&self, state: &mut DefaultHasher) {
        let bytes = u64_to_le_bytes(#[verifier::truncate] (*self as u64));
        state.write(bytes.as_slice());
    }
}

impl<T: ContentHash> ContentHash for Vec<T> {
    /// The length first, then each item in turn.
    open spec fn content(&self) -> Seq<Seq<u8>> {
        seq![spec_u64_to_le_bytes(self@.len() as u64)] + contents_of(self@)
    }

    fn feed(&self, state: &mut DefaultHasher) {
        let n = self.len();
        let prefix = u64_to_le_bytes(n as u64);
        state.write(prefix.as_slice());
        let mut i: usize = 0;
        while i < n
            invariant
                i <= n,
                n == self@.len(),
                state@ == old(state)@ + seq![spec_u64_to_le_bytes(n as u64)] + contents_of(
                    self@.take(i as int),
                ),
            decreases n - i,
        {
            self[i].feed(state);
            proof {
                let upto = self@.take(i + 1);
                assert(upto.drop_last() == self@.take(i as int));
                assert(upto.last() == self@[i as int]);
            }
            i += 1;
        }
        assert(self@.take(n as int) == self@);
    }
}

impl ContentHash for String {
    /// The length in bytes first, then the text as UTF-8.
    open spec fn content(&self) -> Seq<Seq<u8>> {
        seq![spec_u64_to_le_bytes(encode_utf8(self@).len() as u64), encode_utf8(self@)]
    }

    fn feed(&self, state: &mut DefaultHasher) {
        let bytes = self.as_str().as_bytes();
        let prefix = u64_to_le_bytes(bytes.len() as u64);
        state.write(prefix.as_slice());
        state.write(bytes);
    }
}

/// Derives the identity of `t` from its content.
pub fn gen_id<T: ContentHash>(t: &T) -> (id: u64)
    ensures
        id == digest(t.content()),
{
    let mut sip = DefaultHasher::new();
    t.feed(&mut sip);
    sip.finish()
}

} // verus!
