use rustmate::address::{Address, B256};
use rustmate::benchmark::erc20_benchmark::SampleParams;
use rustmate::erc20::{ERC20Error, ERC20Event, ERC20Settings, ERC20};
use rustmate::permit::Recovery;
use rustmate::primitives::U256;

fn account(n: u8) -> Address {
    let mut bytes = [0u8; 20];
    bytes[19] = n;
    Address { bytes }
}

fn units(n: u64) -> U256 {
    U256::from_u64(n)
}

fn ledger() -> ERC20<SampleParams> {
    ERC20::new(SampleParams)
}

fn sum_of(l: &ERC20<SampleParams>, accounts: &[Address]) -> U256 {
    let mut sum = U256::zero();
    for a in accounts {
        sum = sum.checked_add(&l.balance_of(*a).unwrap()).unwrap();
    }
    sum
}

fn forked() -> ERC20Settings {
    ERC20Settings {
        name: "Forked".to_string(),
        symbol: "FRK".to_string(),
        decimals: 6,
        initial_chain_id: 9,
        initial_domain_separator: B256 { bytes: [7u8; 32] },
    }
}

#[test]
fn mint_then_transfer_moves_balances_and_keeps_supply() {
    let (a, b) = (account(0xa1), account(0xb2));
    let mut l = ledger();
    assert_eq!(l.mint(a, units(100)), Ok(()));
    assert_eq!(l.transfer(a, b, units(40)), Ok(true));
    assert_eq!(l.balance_of(a), Ok(units(60)));
    assert_eq!(l.balance_of(b), Ok(units(40)));
    assert_eq!(l.total_supply(), Ok(units(100)));
}

#[test]
fn transfer_from_uses_up_the_allowance() {
    let (a, b, c) = (account(0xa1), account(0xb2), account(0xc3));
    let mut l = ledger();
    l.mint(a, units(100)).unwrap();
    assert_eq!(l.approve(a, b, units(40)), Ok(true));
    assert_eq!(l.transfer_from(b, a, c, units(40)), Ok(true));
    assert_eq!(l.allowance(a, b), Ok(units(0)));
    assert_eq!(l.balance_of(c), Ok(units(40)));
    assert_eq!(l.transfer_from(b, a, c, units(1)), Err(ERC20Error::InsufficientAllowance));
    assert_eq!(l.balance_of(c), Ok(units(40)));
    assert_eq!(l.balance_of(a), Ok(units(60)));
}

#[test]
fn balances_add_up_to_the_supply_after_every_operation() {
    let (a, b, c) = (account(1), account(2), account(3));
    let all = [a, b, c];
    let mut l = ledger();
    assert_eq!(sum_of(&l, &all), l.total_supply().unwrap());
    l.mint(a, units(70)).unwrap();
    assert_eq!(sum_of(&l, &all), l.total_supply().unwrap());
    l.mint(b, units(30)).unwrap();
    assert_eq!(sum_of(&l, &all), l.total_supply().unwrap());
    l.transfer(a, c, units(25)).unwrap();
    assert_eq!(sum_of(&l, &all), l.total_supply().unwrap());
    l.burn(b, units(10)).unwrap();
    assert_eq!(sum_of(&l, &all), l.total_supply().unwrap());
    l.transfer(c, c, units(5)).unwrap();
    assert_eq!(sum_of(&l, &all), units(90));
    assert_eq!(l.total_supply(), Ok(units(90)));
    assert!(l.transfer(a, b, units(1000)).is_err());
    assert_eq!(sum_of(&l, &all), units(90));
}

#[test]
fn overdrawn_transfer_and_burn_fail_and_change_nothing() {
    let (a, b) = (account(1), account(2));
    let mut l = ledger();
    l.mint(a, units(10)).unwrap();
    l.take_events();
    assert_eq!(l.transfer(a, b, units(11)), Err(ERC20Error::InsufficientBalance));
    assert_eq!(l.burn(a, units(11)), Err(ERC20Error::InsufficientBalance));
    l.approve(a, b, units(50)).unwrap();
    assert_eq!(l.transfer_from(b, a, b, units(11)), Err(ERC20Error::InsufficientBalance));
    assert_eq!(l.balance_of(a), Ok(units(10)));
    assert_eq!(l.balance_of(b), Ok(units(0)));
    assert_eq!(l.allowance(a, b), Ok(units(50)));
    assert_eq!(l.total_supply(), Ok(units(10)));
    assert_eq!(l.take_events().len(), 1);
}

#[test]
fn unlimited_allowance_is_never_used_up() {
    let (a, b, c) = (account(1), account(2), account(3));
    let mut l = ledger();
    l.mint(a, units(100)).unwrap();
    l.approve(a, b, U256::max()).unwrap();
    assert_eq!(l.transfer_from(b, a, c, units(100)), Ok(true));
    assert_eq!(l.allowance(a, b), Ok(U256::max()));
    assert_eq!(l.balance_of(c), Ok(units(100)));
}

#[test]
fn owner_moves_own_balance_without_allowance() {
    let (a, c) = (account(1), account(3));
    let mut l = ledger();
    l.mint(a, units(5)).unwrap();
    assert_eq!(l.transfer_from(a, a, c, units(5)), Ok(true));
    assert_eq!(l.balance_of(c), Ok(units(5)));
    assert_eq!(l.allowance(a, a), Ok(units(0)));
}

#[test]
fn transfer_to_the_zero_address_is_rejected() {
    let a = account(1);
    let mut l = ledger();
    l.mint(a, units(5)).unwrap();
    assert_eq!(l.transfer(a, Address::zero(), units(1)), Err(ERC20Error::InvalidRecipient));
    assert_eq!(l.transfer_from(a, a, Address::zero(), units(1)), Err(ERC20Error::InvalidRecipient));
    assert_eq!(l.balance_of(a), Ok(units(5)));
}

#[test]
fn mint_beyond_256_bits_is_rejected() {
    let a = account(1);
    let mut l = ledger();
    l.mint(a, U256::max()).unwrap();
    assert_eq!(l.mint(a, units(1)), Err(ERC20Error::Overflow));
    assert_eq!(l.total_supply(), Ok(U256::max()));
}

#[test]
fn approve_overwrites() {
    let (a, b) = (account(1), account(2));
    let mut l = ledger();
    l.approve(a, b, units(7)).unwrap();
    l.approve(a, b, units(3)).unwrap();
    assert_eq!(l.allowance(a, b), Ok(units(3)));
    assert_eq!(l.allowance(b, a), Ok(units(0)));
}

#[test]
fn operations_are_logged_in_order() {
    let (a, b) = (account(1), account(2));
    let mut l = ledger();
    l.mint(a, units(9)).unwrap();
    l.approve(a, b, units(4)).unwrap();
    l.transfer_from(b, a, b, units(4)).unwrap();
    l.burn(b, units(1)).unwrap();
    assert_eq!(
        l.take_events(),
        vec![
            ERC20Event::Transfer { from: Address::zero(), to: a, amount: units(9) },
            ERC20Event::Approval { owner: a, spender: b, amount: units(4) },
            ERC20Event::Transfer { from: a, to: b, amount: units(4) },
            ERC20Event::Transfer { from: b, to: Address::zero(), amount: units(1) },
        ]
    );
    assert!(l.take_events().is_empty());
}

#[test]
fn name_symbol_and_decimals_come_from_the_parameters() {
    let l = ledger();
    assert_eq!(l.name().unwrap(), "MyToken");
    assert_eq!(l.symbol().unwrap(), "MTK");
    assert_eq!(l.decimals(), Ok(18));
    let f = ERC20::new(forked());
    assert_eq!(f.name().unwrap(), "Forked");
    assert_eq!(f.decimals(), Ok(6));
}

#[test]
fn domain_separator_is_the_fixed_one_on_the_first_chain_only() {
    let this = account(0x77);
    let f = ERC20::new(forked());
    assert_eq!(f.domain_separator(9, this).unwrap(), B256 { bytes: [7u8; 32] });
    assert_eq!(f.domain_separator(10, this).unwrap(), f.compute_domain_separator(10, this).unwrap());
    assert_ne!(f.domain_separator(10, this).unwrap(), B256 { bytes: [7u8; 32] });
}

#[test]
fn domain_separator_has_the_documented_value() {
    let l = ledger();
    let expected = B256 {
        bytes: [
            0xd0, 0x14, 0x58, 0x11, 0x06, 0x88, 0x60, 0xe7, 0x74, 0x0c, 0x37, 0xa2, 0x32, 0x20,
            0x0c, 0xb7, 0xdf, 0x58, 0xa9, 0xb7, 0xba, 0xb1, 0x7a, 0xe4, 0xc5, 0x89, 0x5e, 0xb5,
            0x48, 0x5c, 0xd7, 0xfc,
        ],
    };
    assert_eq!(l.compute_domain_separator(5, account(0x77)), Ok(expected));
    assert_eq!(l.domain_separator(5, account(0x77)), Ok(expected));
    assert_eq!(l.domain_separator(1, account(0x77)), Ok(B256::zero()));
}

#[test]
fn permit_digest_has_the_documented_value_and_follows_the_nonce() {
    let (a, b, this) = (account(0xa1), account(0xb2), account(0x77));
    let mut l = ledger();
    let first = l.permit_digest(a, b, units(50), units(1000), 5, this);
    assert_eq!(
        first.bytes,
        [
            0x1f, 0x51, 0x98, 0x0e, 0x01, 0x07, 0x59, 0x08, 0x9d, 0x75, 0xb6, 0x8c, 0xfe, 0x50,
            0x74, 0x73, 0xbe, 0x22, 0xb5, 0x26, 0xeb, 0x87, 0x8b, 0x07, 0x50, 0x76, 0xec, 0x59,
            0xab, 0xfb, 0x35, 0xb9
        ]
    );
    let recovery = Recovery { digest: first, signer: Some(a) };
    l.permit(a, b, units(50), units(1000), 10, 5, this, recovery).unwrap();
    let second = l.permit_digest(a, b, units(50), units(1000), 5, this);
    assert_eq!(
        second.bytes,
        [
            0xff, 0xb1, 0x58, 0xdd, 0xd2, 0x11, 0xe3, 0x47, 0x60, 0xdc, 0xba, 0xe5, 0x81, 0x06,
            0xaa, 0x82, 0x84, 0x04, 0x3c, 0x72, 0x5b, 0x5c, 0x93, 0x26, 0x89, 0x0a, 0x0d, 0xd4,
            0xc7, 0xcb, 0x87, 0x5c
        ]
    );
}

#[test]
fn permit_sets_the_allowance_once() {
    let (a, b, this) = (account(0xa1), account(0xb2), account(0x77));
    let mut l = ledger();
    l.approve(a, b, units(7)).unwrap();
    l.take_events();
    let digest = l.permit_digest(a, b, units(50), units(1000), 5, this);
    let recovery = Recovery { digest, signer: Some(a) };
    assert_eq!(l.permit(a, b, units(50), units(1000), 999, 5, this, recovery), Ok(()));
    assert_eq!(l.allowance(a, b), Ok(units(50)));
    assert_eq!(l.nonces(a), Ok(units(1)));
    assert_eq!(l.balance_of(a), Ok(units(0)));
    assert_eq!(
        l.take_events(),
        vec![ERC20Event::Approval { owner: a, spender: b, amount: units(50) }]
    );
    assert_eq!(
        l.permit(a, b, units(50), units(1000), 999, 5, this, recovery),
        Err(ERC20Error::InvalidSigner)
    );
    assert_eq!(l.allowance(a, b), Ok(units(50)));
    assert_eq!(l.nonces(a), Ok(units(1)));
}

#[test]
fn permit_after_the_deadline_is_rejected_whatever_the_signature() {
    let (a, b, this) = (account(0xa1), account(0xb2), account(0x77));
    let mut l = ledger();
    let digest = l.permit_digest(a, b, units(50), units(1000), 5, this);
    let good = Recovery { digest, signer: Some(a) };
    let bad = Recovery { digest, signer: None };
    assert_eq!(
        l.permit(a, b, units(50), units(1000), 1001, 5, this, good),
        Err(ERC20Error::PermitDeadlineExpired)
    );
    assert_eq!(
        l.permit(a, b, units(50), units(1000), 1001, 5, this, bad),
        Err(ERC20Error::PermitDeadlineExpired)
    );
    assert_eq!(l.nonces(a), Ok(units(0)));
    assert_eq!(l.allowance(a, b), Ok(units(0)));
    assert_eq!(l.permit(a, b, units(50), units(1000), 1000, 5, this, good), Ok(()));
}

#[test]
fn permit_needs_the_owner_as_signer_of_this_digest() {
    let (a, b, this) = (account(0xa1), account(0xb2), account(0x77));
    let mut l = ledger();
    let digest = l.permit_digest(a, b, units(50), units(1000), 5, this);
    let other = l.permit_digest(a, b, units(51), units(1000), 5, this);
    for recovery in [
        Recovery { digest, signer: None },
        Recovery { digest, signer: Some(b) },
        Recovery { digest: other, signer: Some(a) },
    ] {
        assert_eq!(
            l.permit(a, b, units(50), units(1000), 1, 5, this, recovery),
            Err(ERC20Error::InvalidSigner)
        );
    }
    let zero = Address::zero();
    let for_zero = l.permit_digest(zero, b, units(50), units(1000), 5, this);
    assert_eq!(
        l.permit(
            zero,
            b,
            units(50),
            units(1000),
            1,
            5,
            this,
            Recovery { digest: for_zero, signer: Some(zero) }
        ),
        Err(ERC20Error::InvalidSigner)
    );
    assert_eq!(l.nonces(a), Ok(units(0)));
    assert_eq!(l.allowance(a, b), Ok(units(0)));
}

#[test]
fn errors_are_encoded_as_selectors() {
    assert_eq!(ERC20Error::PermitDeadlineExpired.encode(), vec![0x05, 0x78, 0x7b, 0xdf]);
    assert_eq!(ERC20Error::InvalidSigner.encode(), vec![0x81, 0x5e, 0x1d, 0x64]);
    assert_eq!(ERC20Error::InvalidRecipient.encode(), vec![0x9c, 0x8d, 0x2c, 0xd2]);
    assert_eq!(ERC20Error::InsufficientBalance.encode(), vec![0xf4, 0xd6, 0x78, 0xb8]);
    assert_eq!(ERC20Error::InsufficientAllowance.encode(), vec![0x13, 0xbe, 0x25, 0x2b]);
    assert_eq!(ERC20Error::Overflow.encode(), vec![0x35, 0x27, 0x8d, 0x12]);
}
