use pi_pointer::{WrappedPtr, NULL_PTR};

#[test]
fn plain_word_translates_nothing() {
    let p = <u64 as WrappedPtr>::from_ptr(0x1040);
    assert_eq!(p, 0x1040);
    assert_eq!(p.value(), 0x1040);
    assert_eq!(p.ptr(), 0x1040);
    let q = <u64 as WrappedPtr>::from_value(0x1040);
    assert_eq!(q, p);
}

#[test]
fn plain_word_null_is_the_sentinel() {
    let n = <u64 as WrappedPtr>::null();
    assert_eq!(n, 0x8000_0000_8000_0000);
    assert!(n.is_null());
    assert_eq!(n.ptr(), NULL_PTR);
    assert_eq!(<u64 as WrappedPtr>::from_ptr(NULL_PTR), NULL_PTR);
    assert_eq!(<u64 as WrappedPtr>::from_value(NULL_PTR), n);
}

#[test]
fn plain_word_zero_is_not_null() {
    assert!(!WrappedPtr::is_null(&0u64));
    assert!(!WrappedPtr::is_null(&0x1040u64));
}

#[test]
fn plain_word_set_replaces_the_word() {
    let mut p: u64 = 1;
    WrappedPtr::set(&mut p, 0x2000);
    assert_eq!(p, 0x2000);
    assert_eq!(p.ptr(), 0x2000);
}
