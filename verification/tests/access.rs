use rustmate::address::Address;
use rustmate::auth::{Auth, AuthError, AuthEvent, AuthorityAnswer, CallError};
use rustmate::owned::{Owned, OwnedError, OwnedEvent};
use rustmate::owner::{Owner, OwnerError, OwnerEvent};

fn account(n: u8) -> Address {
    let mut bytes = [0u8; 20];
    bytes[19] = n;
    Address { bytes }
}

#[test]
fn owned_is_initialized_once() {
    let (a, b) = (account(1), account(2));
    let mut c = Owned::new();
    assert_eq!(c.owner(), Address::zero());
    assert_eq!(c.initialize(Address::zero()), Err(OwnedError::InvalidInitialize));
    assert_eq!(c.initialize(a), Ok(()));
    assert_eq!(c.owner(), a);
    assert_eq!(c.initialize(b), Err(OwnedError::AlreadyInitialized));
    assert_eq!(c.initialize(Address::zero()), Err(OwnedError::AlreadyInitialized));
    assert_eq!(c.owner(), a);
}

#[test]
fn owned_is_handed_on_by_the_owner_alone() {
    let (a, b) = (account(1), account(2));
    let mut c = Owned::new();
    c.initialize(a).unwrap();
    assert_eq!(c.only_owner(a), Ok(()));
    assert_eq!(c.only_owner(b), Err(OwnedError::Unauthorized));
    assert_eq!(c.transfer_ownership(b, b), Err(OwnedError::Unauthorized));
    assert_eq!(c.owner(), a);
    assert_eq!(c.transfer_ownership(a, b), Ok(()));
    assert_eq!(c.owner(), b);
    assert_eq!(c.only_owner(a), Err(OwnedError::Unauthorized));
    assert_eq!(c.take_events(), vec![OwnedEvent::OwnershipTransferred { user: a, new_owner: b }]);
    assert_eq!(OwnedError::Unauthorized.encode(), vec![0x82, 0xb4, 0x29, 0x00]);
    assert_eq!(OwnedError::AlreadyInitialized.encode(), vec![0x0d, 0xc1, 0x49, 0xf0]);
    assert_eq!(OwnedError::InvalidInitialize.encode(), vec![0xcf, 0xeb, 0xf2, 0x8e]);
}

#[test]
fn owner_is_initialized_once_and_handed_on_by_the_owner_alone() {
    let (a, b) = (account(1), account(2));
    let mut c = Owner::new();
    assert_eq!(c.initialize(Address::zero()), Err(OwnerError::InvalidInitialize));
    assert_eq!(c.initialize(a), Ok(()));
    assert_eq!(c.initialize(b), Err(OwnerError::AlreadyInitialized));
    assert_eq!(c.only_owner(b), Err(OwnerError::Unauthorized));
    assert_eq!(c.transfer_ownership(b, b), Err(OwnerError::Unauthorized));
    assert_eq!(c.transfer_ownership(a, b), Ok(()));
    assert_eq!(c.owner(), b);
    assert_eq!(c.only_owner(b), Ok(()));
    assert_eq!(c.take_events(), vec![OwnerEvent::OwnershipTransferred { user: a, new_owner: b }]);
    assert_eq!(OwnerError::Unauthorized.encode(), vec![0x82, 0xb4, 0x29, 0x00]);
    assert_eq!(OwnerError::AlreadyInitialized.encode(), vec![0x0d, 0xc1, 0x49, 0xf0]);
    assert_eq!(OwnerError::InvalidInitialize.encode(), vec![0xcf, 0xeb, 0xf2, 0x8e]);
}

#[test]
fn auth_is_initialized_once_with_owner_and_authority() {
    let (a, g) = (account(1), account(9));
    let mut c = Auth::new();
    assert!(!c.asks_authority());
    assert_eq!(c.initialize(Address::zero(), g), Err(AuthError::InvalidInitialize));
    assert_eq!(c.initialize(a, Address::zero()), Err(AuthError::InvalidInitialize));
    assert_eq!(c.initialize(a, g), Ok(()));
    assert_eq!(c.owner(), Ok(a));
    assert_eq!(c.authority(), Ok(g));
    assert!(c.asks_authority());
    assert_eq!(c.initialize(a, g), Err(AuthError::AlreadyInitialized));
    let q = c.authority_query(account(2), account(0x77), [1, 2, 3, 4]);
    assert_eq!(q.authority, g);
    assert_eq!(q.user, account(2));
    assert_eq!(q.target, account(0x77));
    assert_eq!(q.sig, [1, 2, 3, 4]);
}

#[test]
fn authorized_is_who_the_authority_allows_or_the_owner() {
    let (a, b, g) = (account(1), account(2), account(9));
    let mut c = Auth::new();
    assert_eq!(c.is_authorized(b, AuthorityAnswer::Said(true)), Ok(false));
    assert_eq!(c.is_authorized(Address::zero(), AuthorityAnswer::NotAsked), Ok(true));
    c.initialize(a, g).unwrap();
    assert_eq!(c.is_authorized(b, AuthorityAnswer::Said(true)), Ok(true));
    assert_eq!(c.is_authorized(b, AuthorityAnswer::Said(false)), Ok(false));
    assert_eq!(c.is_authorized(a, AuthorityAnswer::Said(false)), Ok(true));
    assert_eq!(c.is_authorized(a, AuthorityAnswer::NotAsked), Ok(true));
    assert_eq!(c.is_authorized(b, AuthorityAnswer::NotAsked), Ok(false));
    assert_eq!(
        c.is_authorized(a, AuthorityAnswer::Failed(CallError::AbiDecodingFailed)),
        Err(AuthError::CallFailed(CallError::AbiDecodingFailed))
    );
    assert_eq!(Auth::can_call(AuthorityAnswer::Said(true)), Ok(true));
    assert_eq!(Auth::can_call(AuthorityAnswer::NotAsked), Ok(false));
    assert_eq!(
        Auth::can_call(AuthorityAnswer::Failed(CallError::Revert(vec![1]))),
        Err(AuthError::CallFailed(CallError::Revert(vec![1])))
    );
}

#[test]
fn ownership_moves_for_the_authorized() {
    let (a, b, g) = (account(1), account(2), account(9));
    let mut c = Auth::new();
    c.initialize(a, g).unwrap();
    assert_eq!(c.transfer_ownership(b, b, AuthorityAnswer::Said(false)), Err(AuthError::Unauthorized));
    assert_eq!(
        c.transfer_ownership(a, b, AuthorityAnswer::Failed(CallError::Revert(vec![9, 9]))),
        Err(AuthError::CallFailed(CallError::Revert(vec![9, 9])))
    );
    assert_eq!(c.owner(), Ok(a));
    assert_eq!(c.transfer_ownership(b, b, AuthorityAnswer::Said(true)), Ok(()));
    assert_eq!(c.owner(), Ok(b));
    assert_eq!(c.transfer_ownership(b, a, AuthorityAnswer::Said(false)), Ok(()));
    assert_eq!(c.owner(), Ok(a));
    assert_eq!(
        c.take_events(),
        vec![
            AuthEvent::OwnershipTransferred { user: b, new_owner: b },
            AuthEvent::OwnershipTransferred { user: b, new_owner: a },
        ]
    );
}

#[test]
fn authority_changes_for_the_owner_with_the_consent_of_the_authority() {
    let (a, b, g, h) = (account(1), account(2), account(9), account(10));
    let mut c = Auth::new();
    c.initialize(a, g).unwrap();
    assert_eq!(c.set_authority(b, h, AuthorityAnswer::Said(true)), Err(AuthError::Unauthorized));
    assert_eq!(c.set_authority(a, h, AuthorityAnswer::Said(false)), Err(AuthError::Unauthorized));
    assert_eq!(c.set_authority(a, h, AuthorityAnswer::NotAsked), Err(AuthError::Unauthorized));
    assert_eq!(
        c.set_authority(a, h, AuthorityAnswer::Failed(CallError::AbiDecodingFailed)),
        Err(AuthError::CallFailed(CallError::AbiDecodingFailed))
    );
    assert_eq!(
        c.set_authority(b, h, AuthorityAnswer::Failed(CallError::AbiDecodingFailed)),
        Err(AuthError::Unauthorized)
    );
    assert_eq!(c.authority(), Ok(g));
    assert_eq!(c.set_authority(a, h, AuthorityAnswer::Said(true)), Ok(()));
    assert_eq!(c.authority(), Ok(h));
    assert_eq!(c.take_events(), vec![AuthEvent::AuthorityUpdated { user: a, new_authority: h }]);
}

#[test]
fn auth_errors_as_callers_see_them() {
    assert_eq!(AuthError::Unauthorized.encode(), vec![0x82, 0xb4, 0x29, 0x00]);
    assert_eq!(AuthError::AlreadyInitialized.encode(), vec![0x0d, 0xc1, 0x49, 0xf0]);
    assert_eq!(AuthError::InvalidInitialize.encode(), vec![0xcf, 0xeb, 0xf2, 0x8e]);
    assert_eq!(AuthError::CallFailed(CallError::Revert(vec![5, 6, 7])).encode(), vec![5, 6, 7]);
    let mut panic = vec![0x4e, 0x48, 0x7b, 0x71];
    panic.extend_from_slice(&[0u8; 32]);
    assert_eq!(AuthError::CallFailed(CallError::AbiDecodingFailed).encode(), panic);
}
