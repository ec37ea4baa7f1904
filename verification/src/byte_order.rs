use core::cmp::Ordering;
use vstd::prelude::*;

verus! {

/// Lexicographic three-way comparison of byte sequences: the order in which
/// payloads of one concrete type are compared.  A strict prefix sorts before
/// every extension of it; otherwise the first differing byte decides.
pub open spec fn lex_cmp(a: Seq<u8>, b: Seq<u8>) -> Ordering
    decreases a.len(),
{
    if a.len() == 0 && b.len() == 0 {
        Ordering::Equal
    } else if a.len() == 0 {
        Ordering::Less
    } else if b.len() == 0 {
        Ordering::Greater
    } else if a[0] < b[0] {
        Ordering::Less
    } else if a[0] > b[0] {
        Ordering::Greater
    } else {
        lex_cmp(a.drop_first(), b.drop_first())
    }
}

/// Two byte sequences compare equal exactly when they are the same sequence.
pub proof fn lemma_lex_cmp_equal_iff(a: Seq<u8>, b: Seq<u8>)
    ensures
        lex_cmp(a, b) == Ordering::Equal <==> a == b,
    decreases a.len(),
{
    if a.len() != 0 && b.len() != 0 && a[0] == b[0] {
        lemma_lex_cmp_equal_iff(a.drop_first(), b.drop_first());
        if a.drop_first() == b.drop_first() && a[0] == b[0] {
            assert(a.len() == b.len());
            assert forall|k: int| 0 <= k < a.len() implies a[k] == b[k] by {
                if k > 0 {
                    assert(a[k] == a.drop_first()[k - 1]);
                    assert(b[k] == b.drop_first()[k - 1]);
                }
            }
            assert(a =~= b);
        }
        if a == b {
            assert(a.drop_first() =~= b.drop_first());
        }
    } else {
        if a.len() == 0 && b.len() == 0 {
            assert(a =~= b);
        }
    }
}

/// Swapping the operands reverses the verdict.
pub proof fn lemma_lex_cmp_antisymmetric(a: Seq<u8>, b: Seq<u8>)
    ensures
        lex_cmp(a, b) == Ordering::Less <==> lex_cmp(b, a) == Ordering::Greater,
    decreases a.len(),
{
    if a.len() != 0 && b.len() != 0 && a[0] == b[0] {
        lemma_lex_cmp_antisymmetric(a.drop_first(), b.drop_first());
    }
}

/// The lexicographic order is transitive.
pub proof fn lemma_lex_cmp_transitive(a: Seq<u8>, b: Seq<u8>, c: Seq<u8>)
    requires
        lex_cmp(a, b) == Ordering::Less,
        lex_cmp(b, c) == Ordering::Less,
    ensures
        lex_cmp(a, c) == Ordering::Less,
    decreases a.len(),
{
    if a.len() != 0 && b.len() != 0 && c.len() != 0 && a[0] == b[0] && b[0] == c[0] {
        lemma_lex_cmp_transitive(a.drop_first(), b.drop_first(), c.drop_first());
    }
}

/// Comparing byte slices, faithful to `lex_cmp` on their views.
pub fn cmp_bytes(a: &[u8], b: &[u8]) -> (r: Ordering)
    ensures
        r == lex_cmp(a@, b@),
{
    let mut i: usize = 0;
    proof {
        assert(a@.skip(0) =~= a@);
        assert(b@.skip(0) =~= b@);
    }
    loop
        invariant
            i <= a@.len(),
            i <= b@.len(),
            forall|k: int| 0 <= k < i ==> a@[k] == b@[k],
            lex_cmp(a@, b@) == lex_cmp(a@.skip(i as int), b@.skip(i as int)),
        decreases a@.len() - i,
    {
        if i == a.len() && i == b.len() {
            return Ordering::Equal;
        } else if i == a.len() {
            return Ordering::Less;
        } else if i == b.len() {
            return Ordering::Greater;
        }
        let x = a[i];
        let y = b[i];
        if x < y {
            return Ordering::Less;
        } else if x > y {
            return Ordering::Greater;
        }
        proof {
            lemma_lex_cmp_skip_step(a@, b@, i as int);
        }
        i = i + 1;
    }
}

/// Byte-for-byte equality of two slices.
pub fn bytes_equal(a: &[u8], b: &[u8]) -> (r: bool)
    ensures
        r == (a@ == b@),
{
    if a.len() != b.len() {
        return false;
    }
    let mut i: usize = 0;
    while i < a.len()
        invariant
            i <= a@.len(),
            a@.len() == b@.len(),
            forall|k: int| 0 <= k < i ==> a@[k] == b@[k],
        decreases a@.len() - i,
    {
        if a[i] != b[i] {
            return false;
        }
        i = i + 1;
    }
    proof {
        assert(a@ =~= b@);
    }
    true
}

/// When the bytes at position `i` agree, dropping one more position from
/// both tails leaves the lexicographic verdict unchanged.
proof fn lemma_lex_cmp_skip_step(a: Seq<u8>, b: Seq<u8>, i: int)
    requires
        0 <= i < a.len(),
        0 <= i < b.len(),
        a[i] == b[i],
    ensures
        lex_cmp(a.skip(i), b.skip(i)) == lex_cmp(a.skip(i + 1), b.skip(i + 1)),
{
    assert(a.skip(i).drop_first() =~= a.skip(i + 1));
    assert(b.skip(i).drop_first() =~= b.skip(i + 1));
    assert(a.skip(i)[0] == a[i]);
    assert(b.skip(i)[0] == b[i]);
}

} // verus!
