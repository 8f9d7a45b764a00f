use rustmate::address::Address;
use rustmate::benchmark::erc20_benchmark::MyToken;
use rustmate::erc20::ERC20Error;
use rustmate::erc4626::{ERC4626Error, ERC4626Event, ERC4626};
use rustmate::primitives::U256;
use rustmate::weth::{Payment, WETHEvent, WETH};

fn account(n: u8) -> Address {
    let mut bytes = [0u8; 20];
    bytes[19] = n;
    Address { bytes }
}

fn units(n: u64) -> U256 {
    U256::from_u64(n)
}

#[test]
fn vault_is_initialized_once() {
    let mut v = ERC4626::new();
    assert_eq!(v.asset(), Address::zero());
    assert_eq!(v.initialize(Address::zero()), Err(ERC4626Error::InvalidInitialize));
    assert_eq!(v.initialize(account(5)), Ok(()));
    assert_eq!(v.asset(), account(5));
    assert_eq!(v.initialize(account(6)), Err(ERC4626Error::AlreadyInitialized));
    assert_eq!(v.asset(), account(5));
    assert_eq!(v.erc20.name().unwrap(), "Vault");
    assert_eq!(v.erc20.symbol().unwrap(), "VLT");
    assert_eq!(v.erc20.decimals(), Ok(18));
}

#[test]
fn first_deposit_gets_as_many_shares_as_assets() {
    let (a, b) = (account(1), account(2));
    let mut v = ERC4626::new();
    assert_eq!(v.preview_deposit(units(30)), Ok(units(30)));
    assert_eq!(v.deposit(a, units(0), b), Err(ERC4626Error::ZeroShares));
    assert_eq!(v.deposit(a, units(30), b), Ok(units(30)));
    assert_eq!(v.erc20.balance_of(b), Ok(units(30)));
    assert_eq!(v.erc20.total_supply(), Ok(units(30)));
    assert_eq!(v.max_redeem(b), Ok(units(30)));
    assert_eq!(v.max_withdraw(b), Ok(units(0)));
    assert_eq!(
        v.take_events(),
        vec![ERC4626Event::Deposit { caller: a, owner: b, assets: units(30), shares: units(30) }]
    );
}

#[test]
fn conversions_follow_the_supply() {
    let a = account(1);
    let mut v = ERC4626::new();
    assert_eq!(ERC4626::total_assets(), Ok(units(0)));
    for q in [units(0), units(7), U256::max()] {
        assert_eq!(v.convert_to_shares(q), Ok(q));
        assert_eq!(v.convert_to_assets(q), Ok(q));
        assert_eq!(v.preview_mint(q), Ok(q));
        assert_eq!(v.preview_withdraw(q), Ok(q));
        assert_eq!(v.preview_redeem(q), Ok(q));
    }
    v.mint(a, units(10), a).unwrap();
    for q in [units(0), units(7), U256::max()] {
        assert_eq!(v.convert_to_shares(q), Ok(units(0)));
        assert_eq!(v.convert_to_assets(q), Ok(units(0)));
        assert_eq!(v.preview_deposit(q), Ok(units(0)));
        assert_eq!(v.preview_mint(q), Ok(units(0)));
        assert_eq!(v.preview_withdraw(q), Ok(units(0)));
        assert_eq!(v.preview_redeem(q), Ok(units(0)));
    }
    assert_eq!(v.max_deposit(a), Ok(U256::max()));
    assert_eq!(v.max_mint(a), Ok(U256::max()));
    assert_eq!(v.deposit(a, units(5), a), Err(ERC4626Error::ZeroShares));
}

#[test]
fn mint_issues_the_shares_asked_for() {
    let (a, b) = (account(1), account(2));
    let mut v = ERC4626::new();
    assert_eq!(v.mint(a, units(10), b), Ok(units(10)));
    assert_eq!(v.mint(a, units(5), b), Ok(units(5)));
    assert_eq!(v.erc20.balance_of(b), Ok(units(15)));
    assert_eq!(v.mint(a, U256::max(), b), Err(ERC4626Error::Ledger(ERC20Error::Overflow)));
    assert_eq!(
        v.take_events(),
        vec![
            ERC4626Event::Deposit { caller: a, owner: b, assets: units(10), shares: units(10) },
            ERC4626Event::Deposit { caller: a, owner: b, assets: units(0), shares: units(5) },
        ]
    );
}

#[test]
fn redeem_needs_shares_that_are_worth_something() {
    let (a, b) = (account(1), account(2));
    let mut v = ERC4626::new();
    v.mint(a, units(10), a).unwrap();
    assert_eq!(v.redeem(a, units(4), b, a), Err(ERC4626Error::ZeroShares));
    assert_eq!(v.redeem(b, units(4), b, a), Err(ERC4626Error::Ledger(ERC20Error::InsufficientAllowance)));
    assert_eq!(v.erc20.balance_of(a), Ok(units(10)));
    let mut empty = ERC4626::new();
    assert_eq!(empty.redeem(a, units(4), b, a), Err(ERC4626Error::Ledger(ERC20Error::InsufficientBalance)));
    assert_eq!(empty.redeem(a, units(0), b, a), Err(ERC4626Error::ZeroShares));
}

#[test]
fn withdraw_burns_the_shares_that_the_assets_are_worth() {
    let (a, b) = (account(1), account(2));
    let mut v = ERC4626::new();
    v.mint(a, units(10), a).unwrap();
    v.take_events();
    assert_eq!(v.withdraw(a, units(3), b, a), Ok(units(0)));
    assert_eq!(v.erc20.balance_of(a), Ok(units(10)));
    assert_eq!(v.withdraw(b, units(3), b, a), Ok(units(0)));
    assert_eq!(
        v.take_events(),
        vec![
            ERC4626Event::Withdraw { caller: a, receiver: b, owner: a, assets: units(3), shares: units(0) },
            ERC4626Event::Withdraw { caller: b, receiver: b, owner: a, assets: units(3), shares: units(0) },
        ]
    );
    let mut empty = ERC4626::new();
    assert_eq!(
        empty.withdraw(a, units(3), b, a),
        Err(ERC4626Error::Ledger(ERC20Error::InsufficientBalance))
    );
    assert_eq!(
        empty.withdraw(b, units(3), b, a),
        Err(ERC4626Error::Ledger(ERC20Error::InsufficientAllowance))
    );
    assert_eq!(empty.withdraw(b, units(0), b, a), Ok(units(0)));
}

#[test]
fn vault_errors_are_encoded_as_selectors() {
    assert_eq!(ERC4626Error::Unauthorized.encode(), vec![0x82, 0xb4, 0x29, 0x00]);
    assert_eq!(ERC4626Error::AlreadyInitialized.encode(), vec![0x0d, 0xc1, 0x49, 0xf0]);
    assert_eq!(ERC4626Error::InvalidInitialize.encode(), vec![0xcf, 0xeb, 0xf2, 0x8e]);
    assert_eq!(ERC4626Error::ZeroShares.encode(), vec![0x98, 0x11, 0xe0, 0xc7]);
    assert_eq!(
        ERC4626Error::Ledger(ERC20Error::InsufficientBalance).encode(),
        vec![0xf4, 0xd6, 0x78, 0xb8]
    );
}

#[test]
fn wrapped_ether_follows_deposits_and_withdrawals() {
    let (a, b) = (account(1), account(2));
    let mut w = WETH::new();
    assert_eq!(w.erc20.name().unwrap(), "Wrapped Ether");
    assert_eq!(w.erc20.symbol().unwrap(), "WETH");
    assert_eq!(w.deposit(a, units(10)), Ok(()));
    assert_eq!(w.receive(b, units(5)), Ok(()));
    assert_eq!(w.erc20.total_supply(), Ok(units(15)));
    assert_eq!(w.withdraw(a, units(11)), Err(ERC20Error::InsufficientBalance));
    assert_eq!(w.withdraw(a, units(4)), Ok(Payment { to: a, amount: units(4) }));
    assert_eq!(w.erc20.balance_of(a), Ok(units(6)));
    assert_eq!(w.erc20.balance_of(b), Ok(units(5)));
    assert_eq!(w.erc20.total_supply(), Ok(units(11)));
    assert_eq!(w.deposit(a, U256::max()), Err(ERC20Error::Overflow));
    assert_eq!(
        w.take_events(),
        vec![
            WETHEvent::Deposit { from: a, amount: units(10) },
            WETHEvent::Deposit { from: b, amount: units(5) },
            WETHEvent::Withdrawal { to: a, amount: units(4) },
        ]
    );
    assert_eq!(w.erc20.take_events().len(), 3);
}

#[test]
fn sample_token_is_minted_for_the_caller() {
    let a = account(1);
    let mut t = MyToken::new();
    assert_eq!(t.mint(a, units(12)), Ok(()));
    assert_eq!(t.erc20.balance_of(a), Ok(units(12)));
    assert_eq!(t.erc20.total_supply(), Ok(units(12)));
    assert_eq!(t.mint(a, U256::max()), Err(ERC20Error::Overflow));
    assert_eq!(t.erc20.name().unwrap(), "MyToken");
}
