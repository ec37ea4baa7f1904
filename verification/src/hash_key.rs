use vstd::prelude::*;
use crate::byte_order::bytes_equal;
use crate::hasher::HasherMut;
use crate::model::{hash_stream, key_eq, lemma_distinct_types_distinct_streams,
    lemma_equal_keys_same_stream};
use crate::render::{render_key, rendered};
use vstd::bytes::u64_to_le_bytes;
use vstd::std_specs::hash::DefaultHasherAdditionalSpecFns;
use std::collections::hash_map::DefaultHasher;

verus! {

/// The capability interface of an erased hashable key: what a hash
/// container needs of a handle, stated over the two plain values every
/// handle reduces to — the process-wide unique tag of its concrete type,
/// and the payload bytes that stand for the wrapped value.
///
/// Every operation is total: a tag mismatch yields inequality or an
/// absent downcast, never an error.
pub trait AnyHash {
    /// The tag of the concrete type this handle erases.
    spec fn tag_spec(&self) -> u64;

    /// The payload bytes that stand for the wrapped concrete value.
    spec fn payload_spec(&self) -> Seq<u8>;

    /// The tag of the concrete type this handle erases.
    fn tag(&self) -> (r: u64)
        ensures
            r == self.tag_spec(),
    ;

    /// Checked downcast: the payload of the wrapped value, exactly when
    /// `tag` names the handle's own concrete type; absent on any other
    /// tag, never an error.
    fn downcast_ref(&self, tag: u64) -> (r: Option<&Vec<u8>>)
        ensures
            match r {
                Some(p) => tag == self.tag_spec() && p@ == self.payload_spec(),
                None => tag != self.tag_spec(),
            },
    ;

    /// Erased equality: true exactly when `other` carries the same tag
    /// and an equal payload.
    fn equals(&self, other: &Self) -> (r: bool)
        ensures
            r == key_eq(self.tag_spec(), self.payload_spec(), other.tag_spec(),
                other.payload_spec()),
    ;

    /// Feed the accumulator the pair (tag, payload): the tag's eight
    /// little-endian bytes first, then the payload bytes.
    fn hash(&self, hasher: &mut HasherMut)
        ensures
            final(hasher)@ == old(hasher)@ + hash_stream(self.tag_spec(), self.payload_spec()),
    ;

    /// A human-readable rendering for diagnostics.
    fn describe(&self) -> String;
}

/// An erased hashable key handle: an owned payload of some concrete type,
/// reduced to the type's tag and the payload bytes that stand for the
/// value.  Within one tag, payload equality is the concrete type's own
/// equality; across tags, handles are simply unequal.
///
/// The derived trait implementations compare and hash the same pair of
/// fields, so the handle can serve directly as the key of an externally
/// supplied hash map.  The caller keeps the tag discipline: one tag per
/// concrete type, the same tag for the same type, for the whole life of
/// the process.
#[derive(Debug, Clone, PartialEq, Eq, Hash)]
pub struct HashKey {
    tag: u64,
    payload: Vec<u8>,
}

impl HashKey {
    /// Wrap a concrete value, already reduced to its payload bytes, under
    /// the tag of its concrete type.
    pub fn new(tag: u64, payload: Vec<u8>) -> (r: HashKey)
        ensures
            r.tag_spec() == tag,
            r.payload_spec() == payload@,
    {
        HashKey { tag, payload }
    }

    /// The digest of this handle alone: what a fresh accumulator returns
    /// after the handle's hash stream is written into it.
    pub fn digest(&self) -> (r: u64)
        ensures
            r == DefaultHasher::spec_finish(hash_stream(self.tag_spec(), self.payload_spec())),
    {
        let mut h = HasherMut::new();
        self.hash(&mut h);
        proof {
            assert(h@ =~= hash_stream(self.tag_spec(), self.payload_spec()));
        }
        h.finish()
    }
}

impl AnyHash for HashKey {
    closed spec fn tag_spec(&self) -> u64 {
        self.tag
    }

    closed spec fn payload_spec(&self) -> Seq<u8> {
        self.payload@
    }

    fn tag(&self) -> (r: u64) {
        self.tag
    }

    fn downcast_ref(&self, tag: u64) -> (r: Option<&Vec<u8>>) {
        if tag == self.tag {
            Some(&self.payload)
        } else {
            None
        }
    }

    fn equals(&self, other: &HashKey) -> (r: bool) {
        if self.tag != other.tag {
            false
        } else {
            bytes_equal(self.payload.as_slice(), other.payload.as_slice())
        }
    }

    fn hash(&self, hasher: &mut HasherMut) {
        let tag_bytes = u64_to_le_bytes(self.tag);
        hasher.write(tag_bytes.as_slice());
        hasher.write(self.payload.as_slice());
        proof {
            assert(old(hasher)@.push(tag_bytes@).push(self.payload@)
                =~= old(hasher)@ + hash_stream(self.tag_spec(), self.payload_spec()));
        }
    }

    /// A generic placeholder naming only the tag and the payload size;
    /// the concrete value itself stays opaque.
    fn describe(&self) -> (r: String)
        ensures
            r@ == rendered("HashKey"@, self.tag_spec(), self.payload_spec().len() as int),
    {
        render_key("HashKey", self.tag, self.payload.len())
    }
}

/// Hashing is consistent with erased equality: equal handles write the
/// same chunk stream into the accumulator, so any digest taken of them is
/// identical.  Holds for every implementor of the capability interface.
pub proof fn lemma_equal_keys_hash_alike<K: AnyHash>(a: &K, b: &K)
    requires
        key_eq(a.tag_spec(), a.payload_spec(), b.tag_spec(), b.payload_spec()),
    ensures
        hash_stream(a.tag_spec(), a.payload_spec()) == hash_stream(b.tag_spec(),
            b.payload_spec()),
        DefaultHasher::spec_finish(hash_stream(a.tag_spec(), a.payload_spec()))
            == DefaultHasher::spec_finish(hash_stream(b.tag_spec(), b.payload_spec())),
{
    lemma_equal_keys_same_stream(a.tag_spec(), a.payload_spec(), b.tag_spec(), b.payload_spec());
}

/// Handles of different concrete types are never equal, and they write
/// different chunk streams even when their payload bytes are identical:
/// the tag chunk already differs, so their digests are free to differ and
/// never required to agree.
pub proof fn lemma_distinct_types_hash_apart<K: AnyHash>(a: &K, b: &K)
    requires
        a.tag_spec() != b.tag_spec(),
    ensures
        !key_eq(a.tag_spec(), a.payload_spec(), b.tag_spec(), b.payload_spec()),
        hash_stream(a.tag_spec(), a.payload_spec()) != hash_stream(b.tag_spec(),
            b.payload_spec()),
{
    lemma_distinct_types_distinct_streams(a.tag_spec(), a.payload_spec(), b.tag_spec(),
        b.payload_spec());
}

} // verus!
