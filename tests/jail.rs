use strint::{null_str_ptr, Jail, Key, StrNullPtr, NULL_ADDR};

#[test]
fn istring_add_remove_ref() {
    let mut interner = Jail::default();

    let a = interner.add_ref("foo");
    assert_eq!(interner.ref_count("foo"), 1);

    let b = interner.add_ref(&String::from("foo"));
    assert_eq!(interner.ref_count("foo"), 2);

    interner.remove_ref(a);
    assert_eq!(interner.ref_count("foo"), 1);

    interner.remove_ref(b);
    assert!(interner.is_empty());
}

#[test]
fn istring_does_not_panic_after_remove_ref() {
    let mut interner = Jail::default();
    let s = interner.add_ref("test");

    interner.remove_ref(s);
}

#[test]
fn istring_eq() {
    let mut interner = Jail::default();
    let a = interner.add_ref("foo");
    let b = interner.add_ref(&String::from("foo"));
    let c = interner.add_ref("bar");

    assert!(a == b);
    assert!(a != c);
    assert!(b != c);
    assert_eq!(&*a, "foo");
    assert_eq!(&*b, "foo");
    assert_eq!(&*c, "bar");

    interner.remove_ref(a);
    interner.remove_ref(b);
    interner.remove_ref(c);
}

#[test]
fn acquire_twice_same_address_and_release_restores_len() {
    let mut interner = Jail::new();
    let other = interner.add_ref("other");
    assert_eq!(interner.len(), 1);
    let a = interner.add_ref("same");
    let b = interner.add_ref("same");
    assert_eq!(a.address(), b.address());
    assert_eq!(interner.len(), 2);
    interner.remove_ref(a);
    interner.remove_ref(b);
    assert_eq!(interner.len(), 1);
    assert_eq!(interner.ref_count("same"), 0);
    interner.remove_ref(other);
    assert!(interner.is_empty());
}

#[test]
fn distinct_texts_distinct_addresses() {
    let mut interner = Jail::new();
    let a = interner.add_ref("a");
    let b = interner.add_ref("b");
    let a2 = interner.add_ref("A");
    assert_ne!(a.address(), b.address());
    assert_ne!(a.address(), a2.address());
    assert_ne!(a.address(), NULL_ADDR);
    interner.remove_ref(a);
    interner.remove_ref(b);
    interner.remove_ref(a2);
    assert!(interner.is_empty());
}

#[test]
fn acquire_n_release_n_minus_one_keeps_one() {
    let mut interner = Jail::new();
    let mut handles = Vec::new();
    for _ in 0..5 {
        handles.push(interner.add_ref("x"));
    }
    assert_eq!(interner.ref_count("x"), 5);
    while handles.len() > 1 {
        interner.remove_ref(handles.pop().unwrap());
    }
    assert_eq!(interner.ref_count("x"), 1);
    assert_eq!(interner.len(), 1);
    interner.remove_ref(handles.pop().unwrap());
    assert_eq!(interner.ref_count("x"), 0);
    assert!(interner.is_empty());
}

#[test]
fn end_to_end_foo_bar() {
    let mut interner = Jail::new();
    assert!(interner.is_empty());
    let f1 = interner.add_ref("foo");
    assert_eq!(interner.ref_count("foo"), 1);
    let f2 = interner.add_ref("foo");
    assert_eq!(interner.ref_count("foo"), 2);
    let b = interner.add_ref("bar");
    assert_eq!(interner.ref_count("bar"), 1);
    assert_eq!(interner.len(), 2);
    interner.remove_ref(f1);
    assert_eq!(interner.ref_count("foo"), 1);
    interner.remove_ref(f2);
    assert_eq!(interner.ref_count("foo"), 0);
    assert_eq!(interner.len(), 1);
    interner.remove_ref(b);
    assert_eq!(interner.ref_count("bar"), 0);
    assert!(interner.is_empty());
    assert_eq!(interner.len(), 0);
}

#[test]
fn optional_acquire_and_release() {
    let mut interner = Jail::new();
    assert!(interner.add_ref_opt(None).is_none());
    assert!(interner.is_empty());
    let h = interner.add_ref_opt(Some("opt"));
    assert!(h.is_some());
    assert_eq!(h.as_ref().unwrap().as_str(), "opt");
    assert_eq!(interner.ref_count("opt"), 1);
    interner.remove_ref_opt(None);
    assert_eq!(interner.ref_count("opt"), 1);
    interner.remove_ref_opt(h);
    assert!(interner.is_empty());
}

#[test]
fn released_handle_is_neutralized() {
    let mut interner = Jail::new();
    let mut h = interner.add_ref("test");
    assert_ne!(h.address(), null_str_ptr());
    assert!(h.eq_str("test"));
    h.safe_drop();
    assert_eq!(h.address(), null_str_ptr());
    assert_eq!(null_str_ptr(), NULL_ADDR);
    assert_eq!(StrNullPtr::new().0, NULL_ADDR);
    assert_eq!(interner.ref_count("test"), 1);
}

#[test]
fn key_holds_text_and_address() {
    let mut interner = Jail::new();
    let mut existing = interner.add_ref("abc");
    let k = Key::new("abc", &interner);
    assert_eq!(k.as_str(), "abc");
    assert_ne!(k.address(), existing.address());
    assert_ne!(k.address(), NULL_ADDR);
    let mut h = k.handle();
    assert_eq!(h.as_str(), "abc");
    assert_eq!(h.address(), k.address());
    assert!(h != existing);
    h.safe_drop();
    existing.safe_drop();
}
