use std::collections::hash_map::DefaultHasher;
use std::hash::{Hash, Hasher};

use stagiaire::{Pool, Symbol};

fn assert_send<T: Send>() {}

fn assert_sync<T: Sync>() {}

#[test]
fn interned_string_has_same_value() {
    let mut pool = Pool::new();
    let sym = Symbol::new(&mut pool, "foo");
    assert_eq!(sym.as_str(), "foo");
}

#[test]
fn same_strings_have_same_address() {
    let mut pool = Pool::new();
    let sym1 = Symbol::new(&mut pool, "foo");
    let sym2 = Symbol::new(&mut pool, "foo");
    assert_eq!(sym1.as_str().as_ptr(), sym2.as_str().as_ptr());
}

#[test]
fn different_strings_have_different_addresses() {
    let mut pool = Pool::new();
    let sym1 = Symbol::new(&mut pool, "foo");
    let sym2 = Symbol::new(&mut pool, "bar");
    assert_ne!(sym1.as_str().as_ptr(), sym2.as_str().as_ptr());
}

#[test]
fn a_copy_is_shallow() {
    let mut pool = Pool::new();
    let sym1 = Symbol::new(&mut pool, "foo");
    let sym2 = sym1;
    assert_eq!(sym1.as_str().as_ptr(), sym2.as_str().as_ptr());
}

#[test]
fn hash_computed_on_string_address_not_value() {
    let mut pool = Pool::new();
    let sym = Symbol::new(&mut pool, "zorglub");

    let mut hasher_sym = DefaultHasher::new();
    sym.hash(&mut hasher_sym);

    let mut hasher_str = DefaultHasher::new();
    "zorglub".hash(&mut hasher_str);

    // The identity and the content could hash to the same value, but this is
    // unlikely.
    assert_ne!(hasher_sym.finish(), hasher_str.finish());
}

#[test]
fn compare_with_str_ref() {
    let mut pool = Pool::new();
    assert_eq!("foo", Symbol::new(&mut pool, "foo"));
    assert_ne!("foo", Symbol::new(&mut pool, "bar"));
    assert_eq!(Symbol::new(&mut pool, "foo"), "foo");
    assert_ne!(Symbol::new(&mut pool, "foo"), "bar");
}

#[test]
fn symbol_is_send() {
    assert_send::<Symbol>();
}

#[test]
fn symbol_is_sync() {
    assert_sync::<Symbol>();
}

#[test]
fn symbol_can_be_displayed() {
    let mut pool = Pool::new();
    let sym = Symbol::new(&mut pool, "foo");
    assert_eq!(sym.to_string(), "foo");
}
