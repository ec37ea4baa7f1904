use core::cmp::Ordering;
use vstd::prelude::*;
use crate::byte_order::{lemma_lex_cmp_antisymmetric, lemma_lex_cmp_equal_iff,
    lemma_lex_cmp_transitive, lex_cmp};
use vstd::bytes::{lemma_auto_spec_u64_to_from_le_bytes, spec_u64_to_le_bytes};

verus! {

/// Erased equality over the plain values a handle carries: the tags must
/// name the same concrete type and the payloads must agree.  A tag mismatch
/// is never an error, only inequality.
pub open spec fn key_eq(t1: u64, p1: Seq<u8>, t2: u64, p2: Seq<u8>) -> bool {
    t1 == t2 && p1 == p2
}

/// Erased three-way comparison: on a tag match the payload order decides;
/// on a mismatch the tag order is the deterministic cross-type tie-break.
pub open spec fn key_cmp(t1: u64, p1: Seq<u8>, t2: u64, p2: Seq<u8>) -> Ordering {
    if t1 == t2 {
        lex_cmp(p1, p2)
    } else if t1 < t2 {
        Ordering::Less
    } else {
        Ordering::Greater
    }
}

/// The chunks an erased key writes into a hash accumulator: first the tag,
/// as its eight little-endian bytes, then the payload.  Folding the tag in
/// is what keeps byte-identical payloads of different types apart.
pub open spec fn hash_stream(tag: u64, payload: Seq<u8>) -> Seq<Seq<u8>> {
    seq![spec_u64_to_le_bytes(tag), payload]
}

/// Erased equality is an equivalence relation: reflexive, symmetric and
/// transitive over all handles, whatever mix of types they carry.
pub proof fn lemma_key_eq_equivalence(t1: u64, p1: Seq<u8>, t2: u64, p2: Seq<u8>, t3: u64, p3: Seq<u8>)
    ensures
        key_eq(t1, p1, t1, p1),
        key_eq(t1, p1, t2, p2) == key_eq(t2, p2, t1, p1),
        key_eq(t1, p1, t2, p2) && key_eq(t2, p2, t3, p3) ==> key_eq(t1, p1, t3, p3),
{
}

/// Keys of different concrete types are never equal, however similar their
/// payloads look.
pub proof fn lemma_cross_type_never_equal(t1: u64, p1: Seq<u8>, t2: u64, p2: Seq<u8>)
    requires
        t1 != t2,
    ensures
        !key_eq(t1, p1, t2, p2),
{
}

/// The erased comparison returns `Equal` exactly on erased-equal keys, so
/// the order is consistent with equality.
pub proof fn lemma_key_cmp_equal_iff_key_eq(t1: u64, p1: Seq<u8>, t2: u64, p2: Seq<u8>)
    ensures
        key_cmp(t1, p1, t2, p2) == Ordering::Equal <==> key_eq(t1, p1, t2, p2),
{
    lemma_lex_cmp_equal_iff(p1, p2);
}

/// Swapping the operands of the erased comparison reverses the verdict.
pub proof fn lemma_key_cmp_antisymmetric(t1: u64, p1: Seq<u8>, t2: u64, p2: Seq<u8>)
    ensures
        key_cmp(t1, p1, t2, p2) == Ordering::Less <==> key_cmp(t2, p2, t1, p1) == Ordering::Greater,
{
    lemma_lex_cmp_antisymmetric(p1, p2);
}

/// The erased comparison is transitive over any triple of keys, however
/// their types are mixed: within one tag the payload order is transitive,
/// and across tags the tag order is.
pub proof fn lemma_key_cmp_transitive(
    t1: u64, p1: Seq<u8>,
    t2: u64, p2: Seq<u8>,
    t3: u64, p3: Seq<u8>,
)
    requires
        key_cmp(t1, p1, t2, p2) == Ordering::Less,
        key_cmp(t2, p2, t3, p3) == Ordering::Less,
    ensures
        key_cmp(t1, p1, t3, p3) == Ordering::Less,
{
    if t1 == t2 && t2 == t3 {
        lemma_lex_cmp_transitive(p1, p2, p3);
    }
}

/// Erased-equal keys write identical chunk streams, so any accumulator
/// gives them identical digests: hashing is consistent with equality.
pub proof fn lemma_equal_keys_same_stream(t1: u64, p1: Seq<u8>, t2: u64, p2: Seq<u8>)
    requires
        key_eq(t1, p1, t2, p2),
    ensures
        hash_stream(t1, p1) == hash_stream(t2, p2),
{
}

/// Keys of different concrete types write different chunk streams even
/// when their payload bytes are identical: the tag chunk already differs.
/// Their digests are therefore free to differ and never required to agree.
pub proof fn lemma_distinct_types_distinct_streams(t1: u64, p1: Seq<u8>, t2: u64, p2: Seq<u8>)
    requires
        t1 != t2,
    ensures
        hash_stream(t1, p1) != hash_stream(t2, p2),
{
    lemma_auto_spec_u64_to_from_le_bytes();
    assert(hash_stream(t1, p1)[0] == spec_u64_to_le_bytes(t1));
    assert(hash_stream(t2, p2)[0] == spec_u64_to_le_bytes(t2));
}

} // verus!
