use pi_pointer::{GetDataBase, PIPtr, WrappedPtr, NULL_PTR};

/// An address space that maps the region at 0x1000.
struct At1000;

impl GetDataBase for At1000 {
    fn get_data_base() -> u64 {
        0x1000
    }
}

/// An address space that maps the region at 0x5000.
struct At5000;

impl GetDataBase for At5000 {
    fn get_data_base() -> u64 {
        0x5000
    }
}

/// An address space that maps the region at the very start of memory.
struct AtZero;

impl GetDataBase for AtZero {
    fn get_data_base() -> u64 {
        0
    }
}

/// An address space whose base may not be asked for.
struct Unmapped;

impl GetDataBase for Unmapped {
    fn get_data_base() -> u64 {
        panic!("the base was asked for")
    }
}

#[test]
fn sentinel_has_its_fixed_bit_pattern() {
    assert_eq!(NULL_PTR, 0x8000_0000_8000_0000);
}

#[test]
fn from_ptr_stores_the_offset_from_the_base() {
    let p = PIPtr::<At1000>::from_ptr(0x1040);
    assert_eq!(p.value(), 0x40);
}

#[test]
fn ptr_adds_the_base_of_the_reader() {
    let p = PIPtr::<At5000>::from_value(0x40);
    assert_eq!(p.ptr(), 0x5040);
}

#[test]
fn stored_offset_resolves_in_another_address_space() {
    let stored = PIPtr::<At1000>::from_ptr(0x1040).value();
    assert_eq!(stored, 0x40);
    let there = PIPtr::<At5000>::from_value(stored);
    assert_eq!(there.ptr(), 0x5040);
    let here = PIPtr::<At1000>::from_value(stored);
    assert_eq!(here.ptr(), 0x1040);
}

#[test]
fn from_ptr_at_and_ptr_at_take_the_base_from_the_caller() {
    let p = PIPtr::<Unmapped>::from_ptr_at(0x1040, 0x1000);
    assert_eq!(p.value(), 0x40);
    assert_eq!(p.ptr_at(0x1000), 0x1040);
    assert_eq!(p.ptr_at(0x5000), 0x5040);
    assert_eq!(p.ptr_at(0), 0x40);
}

#[test]
fn round_trip_under_one_base_gives_the_address_back() {
    for addr in [0x1000u64, 0x1001, 0x1040, 0x7fff_ffff_ffff_ffff, u64::MAX, 0, 0xfff] {
        assert_eq!(PIPtr::<At1000>::from_ptr(addr).ptr(), addr);
        assert_eq!(PIPtr::<AtZero>::from_ptr(addr).ptr(), addr);
        assert_eq!(PIPtr::<Unmapped>::from_ptr_at(addr, 0x5000).ptr_at(0x5000), addr);
    }
}

#[test]
fn address_below_the_base_wraps_and_still_round_trips() {
    let p = PIPtr::<At1000>::from_ptr(0x10);
    assert_eq!(p.value(), 0xffff_ffff_ffff_f010);
    assert_eq!(p.ptr(), 0x10);
}

#[test]
fn address_past_the_last_word_wraps() {
    let p = PIPtr::<At1000>::from_value(u64::MAX);
    assert_eq!(p.ptr(), 0xfff);
}

#[test]
fn address_whose_offset_is_the_sentinel_reads_back_as_null() {
    let addr = 0x8000_0000_8000_1000u64;
    let p = PIPtr::<At1000>::from_ptr(addr);
    assert_eq!(p.value(), NULL_PTR);
    assert!(p.is_null());
    assert_eq!(p.ptr(), NULL_PTR);
}

#[test]
fn from_ptr_of_the_sentinel_stores_the_sentinel() {
    assert_eq!(PIPtr::<At1000>::from_ptr(NULL_PTR).value(), NULL_PTR);
    assert_eq!(PIPtr::<At5000>::from_ptr(NULL_PTR).value(), NULL_PTR);
    assert_eq!(PIPtr::<Unmapped>::from_ptr_at(NULL_PTR, 0x1000).value(), NULL_PTR);
}

#[test]
fn ptr_of_the_null_pointer_is_the_sentinel_under_any_base() {
    assert_eq!(PIPtr::<At1000>::null().ptr(), 0x8000_0000_8000_0000);
    assert_eq!(PIPtr::<At5000>::null().ptr(), 0x8000_0000_8000_0000);
    assert_eq!(PIPtr::<Unmapped>::null().ptr_at(0x1000), 0x8000_0000_8000_0000);
    assert_ne!(PIPtr::<At1000>::null().ptr(), 0x8000_0000_8000_1000);
}

#[test]
fn null_translations_ask_for_no_base() {
    assert_eq!(PIPtr::<Unmapped>::null().ptr(), NULL_PTR);
    assert_eq!(PIPtr::<Unmapped>::from_ptr(NULL_PTR).value(), NULL_PTR);
}

#[test]
fn storing_and_reading_a_word_asks_for_no_base() {
    let mut p = PIPtr::<Unmapped>::from_value(0x40);
    assert_eq!(p.value(), 0x40);
    assert!(!p.is_null());
    p.set(0x80);
    assert_eq!(p.value(), 0x80);
}

#[test]
fn is_null_looks_at_the_stored_offset() {
    assert!(PIPtr::<At1000>::from_value(NULL_PTR).is_null());
    assert!(!PIPtr::<At1000>::from_value(0).is_null());
    assert!(!PIPtr::<At1000>::from_value(0x40).is_null());
    // This offset translates to the sentinel address, and is no null pointer.
    let p = PIPtr::<At1000>::from_value(0x8000_0000_7fff_f000);
    assert_eq!(p.ptr(), NULL_PTR);
    assert!(!p.is_null());
}

#[test]
fn null_and_from_value_of_the_sentinel_agree() {
    let a = PIPtr::<At1000>::null();
    let b = PIPtr::<At1000>::from_value(NULL_PTR);
    assert_eq!(a.value(), b.value());
    assert_eq!(a.is_null(), b.is_null());
    assert_eq!(a.ptr(), b.ptr());
    assert_eq!(a.ptr_at(0x5000), b.ptr_at(0x5000));
}

#[test]
fn from_value_then_value_gives_the_word_back() {
    for word in [0u64, 1, 0x40, NULL_PTR, u64::MAX] {
        assert_eq!(PIPtr::<Unmapped>::from_value(word).value(), word);
    }
}

#[test]
fn set_replaces_the_stored_word() {
    let mut p = PIPtr::<At1000>::from_ptr(0x1040);
    p.set(0x100);
    assert_eq!(p.value(), 0x100);
    assert_eq!(p.ptr(), 0x1100);
    p.set(NULL_PTR);
    assert!(p.is_null());
    assert_eq!(p.ptr(), NULL_PTR);
}

#[test]
fn a_copy_stores_the_same_word() {
    let p = PIPtr::<At1000>::from_value(0x40);
    let q = p;
    let r = p.clone();
    assert_eq!(p.value(), 0x40);
    assert_eq!(q.value(), 0x40);
    assert_eq!(r.value(), 0x40);
}

#[test]
fn pointer_occupies_one_word() {
    assert_eq!(std::mem::size_of::<PIPtr<At1000>>(), 8);
    assert_eq!(std::mem::size_of::<PIPtr<Unmapped>>(), 8);
}
