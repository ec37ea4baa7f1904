use any_key::hash_key::{AnyHash, HashKey};
use any_key::ord_key::{AnyOrd, OrdKey};
use std::cmp::Ordering;

const TAG_STR: u64 = 1;
const TAG_INT: u64 = 2;
const TAG_FOO: u64 = 3;

struct Foo;

fn hash_str(s: &str) -> HashKey {
    HashKey::new(TAG_STR, s.as_bytes().to_vec())
}

fn hash_int(x: u32) -> HashKey {
    HashKey::new(TAG_INT, x.to_be_bytes().to_vec())
}

fn hash_foo(_: &Foo) -> HashKey {
    HashKey::new(TAG_FOO, Vec::new())
}

fn ord_str(s: &str) -> OrdKey {
    OrdKey::new(TAG_STR, s.as_bytes().to_vec())
}

fn ord_int(x: u32) -> OrdKey {
    OrdKey::new(TAG_INT, x.to_be_bytes().to_vec())
}

fn ord_foo(_: &Foo) -> OrdKey {
    OrdKey::new(TAG_FOO, Vec::new())
}

#[test]
fn same_type_equals_agrees_with_native() {
    let values: [u32; 4] = [0, 1, 42, u32::MAX];
    for &a in values.iter() {
        for &b in values.iter() {
            assert_eq!(hash_int(a).equals(&hash_int(b)), a == b);
            assert_eq!(ord_int(a).equals(&ord_int(b)), a == b);
        }
    }
    assert!(hash_str("hello").equals(&hash_str("hello")));
    assert!(!hash_str("hello").equals(&hash_str("world")));
    assert!(hash_foo(&Foo).equals(&hash_foo(&Foo)));
}

#[test]
fn equal_handles_identical_digests() {
    assert_eq!(hash_str("hello").digest(), hash_str("hello").digest());
    assert_eq!(hash_int(42).digest(), hash_int(42).digest());
    assert_eq!(hash_foo(&Foo).digest(), hash_foo(&Foo).digest());
}

#[test]
fn cross_type_equals_always_false() {
    assert!(!hash_int(42).equals(&hash_str("42")));
    assert!(!hash_str("42").equals(&hash_int(42)));
    assert!(!ord_int(42).equals(&ord_str("42")));
    assert!(!hash_foo(&Foo).equals(&hash_str("")));
    // Byte-identical payloads under two different tags still compare unequal.
    let a = HashKey::new(TAG_STR, vec![9, 9, 9]);
    let b = HashKey::new(TAG_FOO, vec![9, 9, 9]);
    assert!(!a.equals(&b));
}

#[test]
fn tag_is_folded_into_the_digest() {
    // The same payload bytes under two different tags hash as different
    // streams; with the standard hasher the digests come out different.
    let a = HashKey::new(TAG_STR, vec![1, 2, 3]);
    let b = HashKey::new(TAG_INT, vec![1, 2, 3]);
    assert_ne!(a.digest(), b.digest());
}

#[test]
fn same_type_compare_agrees_with_native() {
    let values: [u32; 5] = [0, 1, 41, 42, u32::MAX];
    for &a in values.iter() {
        for &b in values.iter() {
            // Big-endian encoding keeps the numeric order of u32 values.
            assert_eq!(ord_int(a).compare(&ord_int(b)), a.cmp(&b));
        }
    }
    assert_eq!(ord_str("apple").compare(&ord_str("banana")), Ordering::Less);
    assert_eq!(ord_str("banana").compare(&ord_str("apple")), Ordering::Greater);
    assert_eq!(ord_str("app").compare(&ord_str("apple")), Ordering::Less);
    assert_eq!(ord_str("apple").compare(&ord_str("apple")), Ordering::Equal);
}

#[test]
fn cross_type_order_is_total_and_stable() {
    let handles = vec![
        ord_str("hello"),
        ord_str(""),
        ord_int(0),
        ord_int(42),
        ord_foo(&Foo),
        ord_int(u32::MAX),
    ];
    // Antisymmetry and consistency with equality, over every pair.
    for a in handles.iter() {
        for b in handles.iter() {
            let ab = a.compare(b);
            let ba = b.compare(a);
            match ab {
                Ordering::Less => assert_eq!(ba, Ordering::Greater),
                Ordering::Equal => assert_eq!(ba, Ordering::Equal),
                Ordering::Greater => assert_eq!(ba, Ordering::Less),
            }
            assert_eq!(ab == Ordering::Equal, a.equals(b));
        }
    }
    // Transitivity over every triple.
    for a in handles.iter() {
        for b in handles.iter() {
            for c in handles.iter() {
                if a.compare(b) == Ordering::Less && b.compare(c) == Ordering::Less {
                    assert_eq!(a.compare(c), Ordering::Less);
                }
            }
        }
    }
    // Stability: comparing the same pair twice gives the same verdict.
    for a in handles.iter() {
        for b in handles.iter() {
            assert_eq!(a.compare(b), a.compare(b));
        }
    }
}

#[test]
fn extreme_tags_still_order() {
    let lo = OrdKey::new(0, Vec::new());
    let hi = OrdKey::new(u64::MAX, vec![0]);
    assert_eq!(lo.compare(&hi), Ordering::Less);
    assert_eq!(hi.compare(&lo), Ordering::Greater);
    assert_eq!(lo.compare(&lo), Ordering::Equal);
    assert!(!lo.equals(&hi));
}

#[test]
fn downcast_round_trip() {
    let h = hash_str("hello");
    let p = h.downcast_ref(TAG_STR).expect("own tag must downcast");
    assert_eq!(p.as_slice(), "hello".as_bytes());
    assert!(h.downcast_ref(TAG_INT).is_none());
    assert!(h.downcast_ref(TAG_FOO).is_none());

    let o = ord_int(42);
    let q = o.downcast_ref(TAG_INT).expect("own tag must downcast");
    assert_eq!(q.as_slice(), 42u32.to_be_bytes().as_slice());
    assert!(o.downcast_ref(TAG_STR).is_none());
}

#[test]
fn tag_accessor_reports_the_wrapped_type() {
    assert_eq!(hash_str("hello").tag(), TAG_STR);
    assert_eq!(hash_int(7).tag(), TAG_INT);
    assert_eq!(ord_foo(&Foo).tag(), TAG_FOO);
}

#[test]
fn describe_names_the_tag() {
    let h = hash_str("hello");
    let line = h.describe();
    assert_ne!(line, "HashKey");
    assert!(line.contains("HashKey"));
    assert!(line.contains('1'));

    let o = ord_int(42);
    let line = o.describe();
    assert_ne!(line, "OrdKey");
    assert!(line.contains("OrdKey"));
    assert!(line.contains('2'));
}
