use zngur_cpp::dispatch::init_dispatch_table;
use zngur_cpp::lifecycle::{CopyValue, OwnedValue, RefValue};

fn strings(xs: &[&str]) -> Vec<String> {
    xs.iter().map(|s| s.to_string()).collect()
}

#[test]
fn default_construction_starts_uninitialised() {
    let v = OwnedValue::new(8);
    assert_eq!(v.bytes.len(), 8);
    assert!(!v.initialized);
    assert!(!v.destruct());
}

#[test]
fn move_clears_the_source_and_fills_the_destination() {
    let mut src = OwnedValue::unmarshal(vec![1, 2, 3, 4]);
    assert!(src.initialized);
    let mut dst = OwnedValue::new(4);
    dst.move_assign_from(&mut src);
    assert!(dst.initialized);
    assert!(!src.initialized);
    assert_eq!(dst.bytes, vec![1, 2, 3, 4]);
    // the moved-from value never invokes the drop function
    assert!(!src.destruct());
    // the destination, still live, does
    assert!(dst.destruct());
}

#[test]
fn marshal_round_trip_preserves_bytes_and_initialises() {
    let mut v = OwnedValue::unmarshal(vec![9, 8, 7]);
    let r = v.round_trip();
    assert_eq!(r.bytes, vec![9, 8, 7]);
    assert!(r.initialized);
    // marshaling out deinitialised the source
    assert!(!v.initialized);
}

#[test]
fn copy_and_move_of_a_copy_value_are_identical() {
    let src = CopyValue { bytes: vec![5, 6] };
    let mut a = CopyValue { bytes: Vec::new() };
    let mut b = CopyValue { bytes: Vec::new() };
    a.copy_from(&src);
    b.move_from(&src);
    assert_eq!(a.bytes, b.bytes);
    assert_eq!(a.bytes, vec![5, 6]);
    // the source stays whole and nothing ever drops
    assert_eq!(src.bytes, vec![5, 6]);
    assert!(!a.destruct());
}

#[test]
fn views_are_inert() {
    let mut r = RefValue { addr: 4096 };
    r.check_init();
    r.assume_init();
    r.assume_deinit();
    assert_eq!(r.addr, 4096);
    assert!(!r.destruct());
}

#[test]
fn dispatch_init_succeeds_against_a_complete_library() {
    let names = strings(&["__zngur_a", "__zngur_b"]);
    let available = strings(&["__zngur_b", "__zngur_a", "__zngur_extra"]);
    assert!(init_dispatch_table(&names, &available).is_ok());
    assert!(init_dispatch_table(&strings(&[]), &strings(&[])).is_ok());
}

#[test]
fn dispatch_init_names_exactly_the_first_missing_symbol() {
    let names = strings(&["__zngur_a", "__zngur_b", "__zngur_c"]);
    let available = strings(&["__zngur_a", "__zngur_c"]);
    assert_eq!(init_dispatch_table(&names, &available), Err("__zngur_b".to_string()));
    let none = strings(&[]);
    assert_eq!(init_dispatch_table(&names, &none), Err("__zngur_a".to_string()));
}
