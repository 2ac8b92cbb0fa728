use backstop_manager::address::Address;
use backstop_manager::allowlist::{Allowlist, MAX_VALID_LIST_LEN};
use backstop_manager::errors::BackstopManagerErrors;

fn addr(name: &str) -> Address {
    Address::from_str(name)
}

fn addrs(names: &[&str]) -> Vec<Address> {
    names.iter().map(|name| addr(name)).collect()
}

#[test]
fn max_length_is_four() {
    assert_eq!(MAX_VALID_LIST_LEN, 4);
}

#[test]
fn new_list_approves_nothing() {
    let list = Allowlist::new();
    assert_eq!(list.len(), 0);
    assert_eq!(list.to_vec(), addrs(&[]));
    assert!(!list.validate(&addr("a")));
}

#[test]
fn replace_keeps_order() {
    let mut list = Allowlist::new();
    assert_eq!(list.replace(&addrs(&["b", "a"])), Ok(()));
    assert_eq!(list.to_vec(), addrs(&["b", "a"]));
    assert_eq!(list.len(), 2);
}

#[test]
fn replace_overwrites() {
    let mut list = Allowlist::new();
    list.replace(&addrs(&["a", "b"])).unwrap();
    list.replace(&addrs(&["c"])).unwrap();
    assert_eq!(list.to_vec(), addrs(&["c"]));
    assert!(!list.validate(&addr("a")));
    assert!(!list.validate(&addr("b")));
    assert!(list.validate(&addr("c")));
    list.replace(&addrs(&[])).unwrap();
    assert_eq!(list.to_vec(), addrs(&[]));
}

#[test]
fn replace_accepts_four() {
    let mut list = Allowlist::new();
    assert_eq!(list.replace(&addrs(&["a", "b", "c", "d"])), Ok(()));
    assert_eq!(list.to_vec(), addrs(&["a", "b", "c", "d"]));
}

#[test]
fn replace_refuses_five_and_keeps_the_list() {
    let mut list = Allowlist::new();
    list.replace(&addrs(&["a", "b"])).unwrap();
    assert_eq!(
        list.replace(&addrs(&["c", "d", "e", "f", "g"])),
        Err(BackstopManagerErrors::ContractListOverMax)
    );
    assert_eq!(list.to_vec(), addrs(&["a", "b"]));
    assert_eq!(
        list.replace(&addrs(&["a", "a", "a", "a", "a"])),
        Err(BackstopManagerErrors::ContractListOverMax)
    );
    assert_eq!(list.to_vec(), addrs(&["a", "b"]));
}

#[test]
fn replace_keeps_first_of_repeats() {
    let mut list = Allowlist::new();
    list.replace(&addrs(&["a", "b", "a", "b"])).unwrap();
    assert_eq!(list.to_vec(), addrs(&["a", "b"]));
    list.replace(&addrs(&["b", "b", "a"])).unwrap();
    assert_eq!(list.to_vec(), addrs(&["b", "a"]));
}

#[test]
fn validate_finds_what_is_listed() {
    let mut list = Allowlist::new();
    list.replace(&addrs(&["a", "b", "c"])).unwrap();
    assert!(list.validate(&addr("a")));
    assert!(list.validate(&addr("b")));
    assert!(list.validate(&addr("c")));
    assert!(!list.validate(&addr("d")));
    assert!(!list.validate(&addr("")));
    assert!(!list.validate(&addr("A")));
}

#[test]
fn append_if_absent_appends_once() {
    let mut list = Allowlist::new();
    list.append_if_absent(&addr("a"));
    assert_eq!(list.to_vec(), addrs(&["a"]));
    list.append_if_absent(&addr("b"));
    assert_eq!(list.to_vec(), addrs(&["a", "b"]));
    list.append_if_absent(&addr("a"));
    list.append_if_absent(&addr("b"));
    assert_eq!(list.to_vec(), addrs(&["a", "b"]));
}

#[test]
fn append_if_absent_is_not_bounded() {
    let mut list = Allowlist::new();
    list.replace(&addrs(&["a", "b", "c", "d"])).unwrap();
    list.append_if_absent(&addr("e"));
    list.append_if_absent(&addr("f"));
    assert_eq!(list.to_vec(), addrs(&["a", "b", "c", "d", "e", "f"]));
    assert_eq!(list.len(), 6);
    assert!(list.validate(&addr("f")));
}

#[test]
fn from_addresses_is_not_bounded() {
    let list = Allowlist::from_addresses(&addrs(&["a", "b", "c", "d", "e", "a"]));
    assert_eq!(list.to_vec(), addrs(&["a", "b", "c", "d", "e"]));
    assert_eq!(list.clone().to_vec(), list.to_vec());
}
