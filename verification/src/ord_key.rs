use core::cmp::Ordering;
use vstd::prelude::*;
use crate::byte_order::{bytes_equal, cmp_bytes, lex_cmp};
use crate::model::{key_cmp, key_eq, lemma_key_cmp_antisymmetric, lemma_key_cmp_equal_iff_key_eq,
    lemma_key_cmp_transitive};
use crate::render::{render_key, rendered};

verus! {

/// The capability interface of an erased totally ordered key: what an
/// ordered container needs of a handle, stated over the two plain values
/// every handle reduces to — the process-wide unique tag of its concrete
/// type, and the payload bytes that stand for the wrapped value.
///
/// Every operation is total: a tag mismatch yields inequality, the tag
/// tie-break, or an absent downcast, never an error.
pub trait AnyOrd {
    /// The tag of the concrete type this handle erases.
    spec fn tag_spec(&self) -> u64;

    /// The payload bytes that stand for the wrapped concrete value.
    spec fn payload_spec(&self) -> Seq<u8>;

    /// The tag of the concrete type this handle erases.
    fn tag(&self) -> (r: u64)
        ensures
            r == self.tag_spec(),
    ;

    /// Checked downcast: the payload of the wrapped value, exactly when
    /// `tag` names the handle's own concrete type; absent on any other
    /// tag, never an error.
    fn downcast_ref(&self, tag: u64) -> (r: Option<&Vec<u8>>)
        ensures
            match r {
                Some(p) => tag == self.tag_spec() && p@ == self.payload_spec(),
                None => tag != self.tag_spec(),
            },
    ;

    /// Erased equality: true exactly when `other` carries the same tag
    /// and an equal payload.
    fn equals(&self, other: &Self) -> (r: bool)
        ensures
            r == key_eq(self.tag_spec(), self.payload_spec(), other.tag_spec(),
                other.payload_spec()),
    ;

    /// Erased three-way comparison.  On a tag match the payload order of
    /// the shared concrete type decides; on a mismatch the tag order is
    /// the deterministic cross-type tie-break.
    fn compare(&self, other: &Self) -> (r: Ordering)
        ensures
            r == key_cmp(self.tag_spec(), self.payload_spec(), other.tag_spec(),
                other.payload_spec()),
    ;

    /// A human-readable rendering for diagnostics.
    fn describe(&self) -> String;
}

/// An erased totally ordered key handle: an owned payload of some concrete
/// type, reduced to the type's tag and the payload bytes that stand for
/// the value.  On a tag match the comparison delegates to the payload
/// order — the concrete type's own order; on a mismatch it falls back to
/// the tag order, which makes the erased comparison a total order over
/// handles of arbitrarily mixed types.
///
/// The derived trait implementations order the same pair of fields the
/// same way, so the handle can serve directly as the key of an externally
/// supplied ordered map.  The caller keeps the tag discipline: one tag
/// per concrete type, the same tag for the same type, for the whole life
/// of the process.
#[derive(Debug, Clone, PartialEq, Eq, PartialOrd, Ord)]
pub struct OrdKey {
    tag: u64,
    payload: Vec<u8>,
}

impl OrdKey {
    /// Wrap a concrete value, already reduced to its payload bytes, under
    /// the tag of its concrete type.
    pub fn new(tag: u64, payload: Vec<u8>) -> (r: OrdKey)
        ensures
            r.tag_spec() == tag,
            r.payload_spec() == payload@,
    {
        OrdKey { tag, payload }
    }
}

impl AnyOrd for OrdKey {
    closed spec fn tag_spec(&self) -> u64 {
        self.tag
    }

    closed spec fn payload_spec(&self) -> Seq<u8> {
        self.payload@
    }

    fn tag(&self) -> (r: u64) {
        self.tag
    }

    fn downcast_ref(&self, tag: u64) -> (r: Option<&Vec<u8>>) {
        if tag == self.tag {
            Some(&self.payload)
        } else {
            None
        }
    }

    fn equals(&self, other: &OrdKey) -> (r: bool) {
        if self.tag != other.tag {
            false
        } else {
            bytes_equal(self.payload.as_slice(), other.payload.as_slice())
        }
    }

    /// On a tag match the payloads decide, in their lexicographic order;
    /// on a mismatch the smaller tag sorts first.
    fn compare(&self, other: &OrdKey) -> (r: Ordering)
        ensures
            self.tag_spec() == other.tag_spec() ==> r == lex_cmp(self.payload_spec(),
                other.payload_spec()),
            self.tag_spec() != other.tag_spec() ==> r == (if self.tag_spec() < other.tag_spec() {
                Ordering::Less
            } else {
                Ordering::Greater
            }),
    {
        if self.tag == other.tag {
            cmp_bytes(self.payload.as_slice(), other.payload.as_slice())
        } else if self.tag < other.tag {
            Ordering::Less
        } else {
            Ordering::Greater
        }
    }

    /// A generic placeholder naming only the tag and the payload size;
    /// the concrete value itself stays opaque.
    fn describe(&self) -> (r: String)
        ensures
            r@ == rendered("OrdKey"@, self.tag_spec(), self.payload_spec().len() as int),
    {
        render_key("OrdKey", self.tag, self.payload.len())
    }
}

/// The erased comparison agrees with erased equality: it returns `Equal`
/// on exactly the pairs of handles that `equals` accepts.  Holds for every
/// implementor of the capability interface.
pub proof fn lemma_compare_consistent_with_equals<K: AnyOrd>(a: &K, b: &K)
    ensures
        key_cmp(a.tag_spec(), a.payload_spec(), b.tag_spec(), b.payload_spec())
            == Ordering::Equal
            <==> key_eq(a.tag_spec(), a.payload_spec(), b.tag_spec(), b.payload_spec()),
{
    lemma_key_cmp_equal_iff_key_eq(a.tag_spec(), a.payload_spec(), b.tag_spec(), b.payload_spec());
}

/// Antisymmetry of the erased order: swapping the two handles reverses
/// the verdict, whatever mix of concrete types they carry.
pub proof fn lemma_compare_antisymmetric<K: AnyOrd>(a: &K, b: &K)
    ensures
        key_cmp(a.tag_spec(), a.payload_spec(), b.tag_spec(), b.payload_spec())
            == Ordering::Less
            <==> key_cmp(b.tag_spec(), b.payload_spec(), a.tag_spec(), a.payload_spec())
            == Ordering::Greater,
{
    lemma_key_cmp_antisymmetric(a.tag_spec(), a.payload_spec(), b.tag_spec(), b.payload_spec());
}

/// Transitivity of the erased order over any triple of handles, however
/// their concrete types are mixed.  Together with antisymmetry and
/// consistency with equality this makes the erased comparison a valid
/// total order for one ordered container holding many concrete types.
pub proof fn lemma_compare_transitive<K: AnyOrd>(a: &K, b: &K, c: &K)
    requires
        key_cmp(a.tag_spec(), a.payload_spec(), b.tag_spec(), b.payload_spec())
            == Ordering::Less,
        key_cmp(b.tag_spec(), b.payload_spec(), c.tag_spec(), c.payload_spec())
            == Ordering::Less,
    ensures
        key_cmp(a.tag_spec(), a.payload_spec(), c.tag_spec(), c.payload_spec())
            == Ordering::Less,
{
    lemma_key_cmp_transitive(
        a.tag_spec(), a.payload_spec(),
        b.tag_spec(), b.payload_spec(),
        c.tag_spec(), c.payload_spec(),
    );
}

} // verus!
