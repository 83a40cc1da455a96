use std::cmp::Ordering;
use std::collections::hash_map::DefaultHasher;
use std::hash::{Hash, Hasher};
use strint::{str_eq, IString, IStringCi, Jail, RefOrIString, RefOrIStringCi};

fn hash_of<T: Hash + ?Sized>(t: &T) -> u64 {
    let mut h = DefaultHasher::new();
    t.hash(&mut h);
    h.finish()
}

#[test]
fn case_insensitive_handles_equal_plain_unequal() {
    let mut interner = Jail::new();
    let a = interner.add_ref("Foo");
    let b = interner.add_ref("foo");
    assert!(a != b);
    let ca = IStringCi(a);
    let cb = IStringCi(b);
    assert!(ca == cb);
    assert!(ca.eq_str("FOO"));
    assert!(!ca.eq_str("fob"));
    assert_eq!(&*ca, "Foo");
    interner.remove_ref(ca.into_inner());
    interner.remove_ref(cb.0);
    assert!(interner.is_empty());
}

#[test]
fn case_insensitive_unicode_fold() {
    let mut interner = Jail::new();
    let a = IStringCi::from(interner.add_ref("Maße"));
    let b = IStringCi::from(interner.add_ref("MASSE"));
    let c = IStringCi::from(interner.add_ref("MASS"));
    assert!(a == b);
    assert!(a != c);
    interner.remove_ref(a.0);
    interner.remove_ref(b.0);
    interner.remove_ref(c.0);
}

#[test]
fn borrowed_and_owned_equal_and_hash_alike() {
    let mut interner = Jail::new();
    let owned = RefOrIString::from(interner.add_ref("x"));
    let borrowed = RefOrIString::from("x");
    let other = RefOrIString::Ref("y");
    assert!(owned == borrowed);
    assert!(borrowed == owned);
    assert!(owned != other);
    assert_eq!(hash_of(&owned), hash_of(&borrowed));
    assert_eq!(hash_of(&owned), hash_of("x"));
    assert!(owned.eq_str("x"));
    assert_eq!(&*borrowed, "x");
    let none: Option<IString> = borrowed.into();
    assert!(none.is_none());
    let some: Option<IString> = owned.into();
    assert!(some.is_some());
    interner.remove_ref_opt(some);
    assert!(interner.is_empty());
}

#[test]
fn owned_handles_compare_by_address() {
    let mut interner = Jail::new();
    let a = RefOrIString::IString(interner.add_ref("same"));
    let b = RefOrIString::IString(interner.add_ref("same"));
    let c = RefOrIString::IString(interner.add_ref("diff"));
    assert!(a == b);
    assert!(a != c);
    interner.remove_ref_opt(a.into_istring());
    interner.remove_ref_opt(b.into_istring());
    interner.remove_ref_opt(c.into_istring());
    assert!(interner.is_empty());
}

#[test]
fn case_insensitive_dual_mode() {
    let mut interner = Jail::new();
    let owned = RefOrIStringCi::from(interner.add_ref("Hello"));
    let borrowed = RefOrIStringCi::from("hELLO");
    assert!(owned == borrowed);
    assert!(borrowed != RefOrIStringCi::Ref("help"));
    assert!(borrowed.eq_str("HELLO"));
    assert_eq!(&*owned, "Hello");
    assert!(borrowed.into_istring().is_none());
    let h: Option<IString> = owned.into();
    interner.remove_ref_opt(h);
    assert!(interner.is_empty());
}

#[test]
fn text_equality() {
    assert!(str_eq("abc", "abc"));
    assert!(!str_eq("abc", "abd"));
    assert!(!str_eq("abc", "ab"));
    assert!(str_eq("", ""));
}

#[test]
fn text_order() {
    assert_eq!(strint::str_cmp("abc", "abd"), Ordering::Less);
    assert_eq!(strint::str_cmp("abd", "abc"), Ordering::Greater);
    assert_eq!(strint::str_cmp("ab", "abc"), Ordering::Less);
    assert_eq!(strint::str_cmp("abc", "ab"), Ordering::Greater);
    assert_eq!(strint::str_cmp("", ""), Ordering::Equal);
    assert_eq!(strint::str_cmp("é", "z"), "é".cmp("z"));
    assert_eq!(strint::str_cmp("Z", "a"), Ordering::Less);
}

#[test]
fn handles_and_dual_mode_order_by_text() {
    let mut interner = Jail::new();
    let b = interner.add_ref("b");
    let a = interner.add_ref("a");
    assert!(a < b);
    assert!(b > a);
    let rb = RefOrIString::IString(b);
    assert!(RefOrIString::Ref("a") < rb);
    assert!(RefOrIString::Ref("c") > rb);
    assert_eq!(
        RefOrIString::Ref("b").partial_cmp(&rb),
        Some(Ordering::Equal)
    );
    interner.remove_ref(a);
    interner.remove_ref_opt(rb.into_istring());
    assert!(interner.is_empty());
}

#[test]
fn comparisons_with_str() {
    let mut interner = Jail::new();
    let h = interner.add_ref("Key");
    assert!(h == *"Key");
    assert!(*"Key" == h);
    assert!(h != *"key");
    let ci = IStringCi(h);
    assert!(ci == *"KEY");
    assert!(*"kEy" == ci);
    assert!(ci != *"keys");
    let r = RefOrIString::Ref("m");
    assert!(r == *"m");
    assert!(*"m" == r);
    assert!(r < *"n");
    assert!(*"a" < r);
    assert_eq!(r.partial_cmp("m"), Some(Ordering::Equal));
    let rc = RefOrIStringCi::Ref("Mixed");
    assert!(rc == *"mIXED");
    assert!(*"MIXED" == rc);
    assert!(rc != *"mixes");
    interner.remove_ref(ci.0);
    assert!(interner.is_empty());
}

#[test]
fn handles_of_two_interners() {
    let mut first = Jail::new();
    let mut second = Jail::new();
    let x = first.add_ref("x");
    let y = second.add_ref("y");
    assert_eq!(x.address(), y.address());
    assert!(x != y);
    let ox = RefOrIString::IString(x);
    let x2 = RefOrIString::IString(second.add_ref("x"));
    assert!(ox == x2);
    assert_eq!(hash_of(&ox), hash_of(&x2));
    first.remove_ref_opt(ox.into_istring());
    second.remove_ref_opt(x2.into_istring());
    second.remove_ref(y);
    assert!(first.is_empty());
    assert!(second.is_empty());
}

#[test]
fn case_insensitive_hash_and_order() {
    let mut interner = Jail::new();
    let a = IStringCi(interner.add_ref("Foo"));
    let b = IStringCi(interner.add_ref("fOO"));
    let c = IStringCi(interner.add_ref("bar"));
    assert!(a == b);
    assert_eq!(hash_of(&a), hash_of(&b));
    assert_eq!(a.partial_cmp(&b), Some(Ordering::Equal));
    assert!(c < a);
    assert!(a > c);
    assert!(a < *"GOO");
    assert!(*"BAR" < a);
    let r1 = RefOrIStringCi::Ref("HeLLo");
    let r2 = RefOrIStringCi::from(interner.add_ref("hello"));
    assert_eq!(hash_of(&r1), hash_of(&r2));
    assert_eq!(r1.partial_cmp(&r2), Some(Ordering::Equal));
    assert!(r1 < *"WORLD");
    assert!(*"apple" < r1);
    assert!(RefOrIStringCi::Ref("Zeta") > r2);
    interner.remove_ref(a.0);
    interner.remove_ref(b.0);
    interner.remove_ref(c.0);
    interner.remove_ref_opt(r2.into_istring());
    assert!(interner.is_empty());
}
