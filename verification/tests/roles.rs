use backstop_manager::address::Address;
use backstop_manager::errors::BackstopManagerErrors;
use backstop_manager::roles::{authorize, authorize_owner, check_scope, Caller, Manager};
use backstop_manager::roles::{MAX_SCOPE, SCOPE_HIGH, SCOPE_LOW, SCOPE_MEDIUM};

fn addr(name: &str) -> Address {
    Address::from_str(name)
}

fn manager(scope: u32) -> Manager {
    Manager { id: addr("samwise"), scope }
}

#[test]
fn scopes_are_ordered() {
    assert_eq!(SCOPE_LOW, 0);
    assert_eq!(SCOPE_MEDIUM, 1);
    assert_eq!(SCOPE_HIGH, 2);
    assert_eq!(MAX_SCOPE, 2);
}

#[test]
fn check_scope_accepts_up_to_max() {
    assert_eq!(check_scope(0), Ok(()));
    assert_eq!(check_scope(1), Ok(()));
    assert_eq!(check_scope(2), Ok(()));
    assert_eq!(check_scope(3), Err(BackstopManagerErrors::InvalidScope));
    assert_eq!(check_scope(u32::MAX), Err(BackstopManagerErrors::InvalidScope));
}

#[test]
fn manager_reaches_exactly_its_scope() {
    let owner = addr("frodo");
    let from = Caller::signed(addr("samwise"));
    for held in 0..=2u32 {
        for required in 0..=3u32 {
            let outcome = authorize(&owner, &manager(held), &from, required);
            if required <= held {
                assert_eq!(outcome, Ok(()));
            } else {
                assert_eq!(outcome, Err(BackstopManagerErrors::UnauthorizedError));
            }
        }
    }
}

#[test]
fn owner_is_authorized_for_every_scope() {
    let owner = addr("frodo");
    let from = Caller::signed(addr("frodo"));
    for held in 0..=2u32 {
        for required in [0u32, 1, 2, 3, 7, u32::MAX] {
            assert_eq!(authorize(&owner, &manager(held), &from, required), Ok(()));
        }
    }
    assert_eq!(authorize_owner(&owner, &from), Ok(()));
}

#[test]
fn stranger_is_unauthorized() {
    let owner = addr("frodo");
    let from = Caller::signed(addr("gollum"));
    assert_eq!(
        authorize(&owner, &manager(2), &from, 0),
        Err(BackstopManagerErrors::UnauthorizedError)
    );
    assert_eq!(authorize_owner(&owner, &from), Err(BackstopManagerErrors::UnauthorizedError));
}

#[test]
fn manager_is_not_the_owner() {
    let owner = addr("frodo");
    let from = Caller::signed(addr("samwise"));
    assert_eq!(authorize_owner(&owner, &from), Err(BackstopManagerErrors::UnauthorizedError));
}

#[test]
fn unauthenticated_caller_is_refused_first() {
    let owner = addr("frodo");
    assert_eq!(
        authorize(&owner, &manager(2), &Caller::unsigned(addr("frodo")), 0),
        Err(BackstopManagerErrors::UnauthenticatedError)
    );
    assert_eq!(
        authorize(&owner, &manager(2), &Caller::unsigned(addr("samwise")), 0),
        Err(BackstopManagerErrors::UnauthenticatedError)
    );
    assert_eq!(
        authorize(&owner, &manager(2), &Caller::unsigned(addr("gollum")), 0),
        Err(BackstopManagerErrors::UnauthenticatedError)
    );
    assert_eq!(
        authorize_owner(&owner, &Caller::unsigned(addr("frodo"))),
        Err(BackstopManagerErrors::UnauthenticatedError)
    );
}

#[test]
fn manager_who_is_the_owner_acts_as_owner() {
    let owner = addr("frodo");
    let same = Manager { id: addr("frodo"), scope: 0 };
    let from = Caller::signed(addr("frodo"));
    assert_eq!(authorize(&owner, &same, &from, 2), Ok(()));
}

#[test]
fn address_is_its_text() {
    let a = Address::from_str("GABC");
    let b = Address::from_string(String::from("GABC"));
    assert_eq!(a, b);
    assert_eq!(a.as_str(), "GABC");
    assert_eq!(a.clone(), a);
    assert_ne!(a, Address::from_str("GABD"));
    assert_ne!(a, Address::from_str("gabc"));
}
