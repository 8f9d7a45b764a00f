use rustmate::address::Address;
use rustmate::benchmark::erc1155_benchmark::SampleParams;
use rustmate::erc1155::{ERC1155Error, ERC1155Event, ERC1155Settings, ERC1155};
use rustmate::erc6909::{ERC6909Error, ERC6909Event, ERC6909};
use rustmate::primitives::U256;

fn account(n: u8) -> Address {
    let mut bytes = [0u8; 20];
    bytes[19] = n;
    Address { bytes }
}

fn units(n: u64) -> U256 {
    U256::from_u64(n)
}

fn funded(owner: Address) -> ERC1155<SampleParams> {
    let mut l = ERC1155::new(SampleParams);
    l.mint(owner, owner, units(1), units(10)).unwrap();
    l.mint(owner, owner, units(2), units(20)).unwrap();
    l.take_events();
    l
}

#[test]
fn batch_with_lists_of_different_length_fails_and_changes_nothing() {
    let (a, b) = (account(1), account(2));
    let mut l = funded(a);
    let r = l.safe_batch_transfer_from(a, a, b, vec![units(1), units(2)], vec![units(1)], vec![], false);
    assert_eq!(r.unwrap_err(), ERC1155Error::LengthMismatch);
    assert_eq!(l.balance_of(a, units(1)), Ok(units(10)));
    assert_eq!(l.balance_of(a, units(2)), Ok(units(20)));
    assert_eq!(l.balance_of(b, units(1)), Ok(units(0)));
    assert_eq!(l.balance_of(b, units(2)), Ok(units(0)));
    assert!(l.take_events().is_empty());
}

#[test]
fn length_is_checked_before_the_caller() {
    let (a, b) = (account(1), account(2));
    let mut l = funded(a);
    let r = l.safe_batch_transfer_from(b, a, b, vec![units(1)], vec![], vec![], false);
    assert_eq!(r.unwrap_err(), ERC1155Error::LengthMismatch);
    let r = l.safe_batch_transfer_from(b, a, b, vec![units(1)], vec![units(1)], vec![], false);
    assert_eq!(r.unwrap_err(), ERC1155Error::NotAuthorized);
}

#[test]
fn batch_moves_every_item_or_none() {
    let (a, b) = (account(1), account(2));
    let mut l = funded(a);
    let r = l.safe_batch_transfer_from(
        a,
        a,
        b,
        vec![units(1), units(2), units(1)],
        vec![units(4), units(20), units(7)],
        vec![],
        false,
    );
    assert_eq!(r.unwrap_err(), ERC1155Error::InsufficientBalance);
    assert_eq!(l.balance_of(a, units(1)), Ok(units(10)));
    assert_eq!(l.balance_of(a, units(2)), Ok(units(20)));
    assert_eq!(l.balance_of(b, units(1)), Ok(units(0)));
    assert_eq!(l.balance_of(b, units(2)), Ok(units(0)));
    let r = l.safe_batch_transfer_from(
        a,
        a,
        b,
        vec![units(1), units(2), units(1)],
        vec![units(4), units(20), units(6)],
        vec![],
        false,
    );
    assert!(r.unwrap().is_none());
    assert_eq!(l.balance_of(a, units(1)), Ok(units(0)));
    assert_eq!(l.balance_of(a, units(2)), Ok(units(0)));
    assert_eq!(l.balance_of(b, units(1)), Ok(units(10)));
    assert_eq!(l.balance_of(b, units(2)), Ok(units(20)));
    assert_eq!(
        l.take_events(),
        vec![ERC1155Event::TransferBatch {
            operator: a,
            from: a,
            to: b,
            ids: vec![units(1), units(2), units(1)],
            amounts: vec![units(4), units(20), units(6)],
        }]
    );
}

#[test]
fn batch_to_a_contract_asks_it_with_the_whole_batch() {
    let (a, b, c) = (account(1), account(2), account(3));
    let mut l = funded(a);
    l.set_approval_for_all(a, c, true).unwrap();
    let request = l
        .safe_batch_transfer_from(c, a, b, vec![units(2)], vec![units(5)], vec![7], true)
        .unwrap()
        .unwrap();
    assert_eq!(request.request.to, b);
    assert_eq!(request.request.operator, c);
    assert_eq!(request.request.from, a);
    assert_eq!(request.request.ids, vec![units(2)]);
    assert_eq!(request.request.values, vec![units(5)]);
    assert_eq!(request.request.data, vec![7]);
    assert_eq!(l.balance_of(b, units(2)), Ok(units(5)));
    assert_eq!(l.check_acknowledgment(request.undo, Some([0xbc, 0x19, 0x7c, 0x81])), Ok(()));
    assert_eq!(l.balance_of(b, units(2)), Ok(units(5)));
    assert_eq!(l.balance_of(a, units(2)), Ok(units(15)));
}

#[test]
fn refused_batch_is_undone() {
    let (a, b) = (account(1), account(2));
    for reply in [None, Some([0xf2, 0x3a, 0x6e, 0x61]), Some([0xbc, 0x19, 0x7c, 0x80])] {
        let mut l = funded(a);
        let pending = l
            .safe_batch_transfer_from(
                a,
                a,
                b,
                vec![units(1), units(2)],
                vec![units(3), units(4)],
                vec![],
                true,
            )
            .unwrap()
            .unwrap();
        assert_eq!(l.balance_of(b, units(1)), Ok(units(3)));
        l.mint(b, b, units(9), units(1)).unwrap();
        assert_eq!(l.check_acknowledgment(pending.undo, reply), Err(ERC1155Error::UnsafeRecipient));
        assert_eq!(l.balance_of(a, units(1)), Ok(units(10)));
        assert_eq!(l.balance_of(a, units(2)), Ok(units(20)));
        assert_eq!(l.balance_of(b, units(1)), Ok(units(0)));
        assert_eq!(l.balance_of(b, units(2)), Ok(units(0)));
        assert_eq!(l.balance_of(b, units(9)), Ok(units(0)));
        assert!(l.take_events().is_empty());
    }
}

#[test]
fn single_transfer_needs_the_owner_or_an_operator() {
    let (a, b, c) = (account(1), account(2), account(3));
    let mut l = funded(a);
    let r = l.safe_transfer_from(c, a, b, units(1), units(1), vec![], false);
    assert_eq!(r.unwrap_err(), ERC1155Error::NotAuthorized);
    assert_eq!(l.is_approved_for_all(a, c), Ok(false));
    l.set_approval_for_all(a, c, true).unwrap();
    assert_eq!(l.is_approved_for_all(a, c), Ok(true));
    assert!(l.safe_transfer_from(c, a, b, units(1), units(1), vec![], false).unwrap().is_none());
    assert!(l.safe_transfer_from(a, a, b, units(1), units(2), vec![], false).unwrap().is_none());
    assert_eq!(l.balance_of(a, units(1)), Ok(units(7)));
    assert_eq!(l.balance_of(b, units(1)), Ok(units(3)));
    assert_eq!(
        l.take_events(),
        vec![
            ERC1155Event::ApprovalForAll { owner: a, operator: c, approved: true },
            ERC1155Event::TransferSingle { operator: c, from: a, to: b, id: units(1), amount: units(1) },
            ERC1155Event::TransferSingle { operator: a, from: a, to: b, id: units(1), amount: units(2) },
        ]
    );
}

#[test]
fn single_transfer_fails_without_changing_anything() {
    let (a, b) = (account(1), account(2));
    let mut l = funded(a);
    let r = l.safe_transfer_from(a, a, b, units(1), units(11), vec![], false);
    assert_eq!(r.unwrap_err(), ERC1155Error::InsufficientBalance);
    let r = l.safe_transfer_from(a, a, Address::zero(), units(1), units(1), vec![], false);
    assert_eq!(r.unwrap_err(), ERC1155Error::UnsafeRecipient);
    l.mint(a, b, units(1), U256::max()).unwrap();
    let r = l.safe_transfer_from(a, a, b, units(1), units(1), vec![], false);
    assert_eq!(r.unwrap_err(), ERC1155Error::Overflow);
    assert_eq!(l.mint(a, b, units(1), units(1)), Err(ERC1155Error::Overflow));
    assert_eq!(l.burn(a, a, units(1), units(11)), Err(ERC1155Error::InsufficientBalance));
    assert_eq!(l.balance_of(a, units(1)), Ok(units(10)));
    assert_eq!(l.balance_of(b, units(1)), Ok(U256::max()));
    assert_eq!(l.burn(a, a, units(1), units(10)), Ok(()));
    assert_eq!(l.balance_of(a, units(1)), Ok(units(0)));
}

#[test]
fn single_transfer_to_a_contract_asks_it() {
    let (a, b) = (account(1), account(2));
    let mut l = funded(a);
    let pending = l.safe_transfer_from(a, a, b, units(2), units(3), vec![1], true).unwrap().unwrap();
    assert_eq!(pending.request.to, b);
    assert_eq!(pending.request.operator, a);
    assert_eq!(pending.request.from, a);
    assert_eq!(pending.request.id, units(2));
    assert_eq!(pending.request.value, units(3));
    assert_eq!(pending.request.data, vec![1]);
    assert_eq!(l.balance_of(b, units(2)), Ok(units(3)));
    assert_eq!(l.check_acknowledgment(pending.undo, Some([0xf2, 0x3a, 0x6e, 0x61])), Ok(()));
    assert_eq!(l.balance_of(b, units(2)), Ok(units(3)));
    assert_eq!(l.balance_of(a, units(2)), Ok(units(17)));
    let to_zero = l.safe_transfer_from(a, a, Address::zero(), units(2), units(3), vec![], true);
    assert!(to_zero.unwrap().is_some());
}

#[test]
fn refused_single_transfer_is_undone() {
    let (a, b) = (account(1), account(2));
    for reply in [None, Some([0xbc, 0x19, 0x7c, 0x81]), Some([0, 0, 0, 0])] {
        let mut l = funded(a);
        l.set_approval_for_all(a, b, true).unwrap();
        let pending =
            l.safe_transfer_from(a, a, b, units(2), units(3), vec![], true).unwrap().unwrap();
        l.safe_transfer_from(b, a, b, units(1), units(10), vec![], false).unwrap();
        assert_eq!(l.check_acknowledgment(pending.undo, reply), Err(ERC1155Error::UnsafeRecipient));
        assert_eq!(l.balance_of(a, units(1)), Ok(units(10)));
        assert_eq!(l.balance_of(a, units(2)), Ok(units(20)));
        assert_eq!(l.balance_of(b, units(1)), Ok(units(0)));
        assert_eq!(l.balance_of(b, units(2)), Ok(units(0)));
        assert_eq!(l.is_approved_for_all(a, b), Ok(true));
        assert_eq!(
            l.take_events(),
            vec![ERC1155Event::ApprovalForAll { owner: a, operator: b, approved: true }]
        );
    }
}

#[test]
fn balances_of_a_batch() {
    let (a, b) = (account(1), account(2));
    let l = funded(a);
    assert_eq!(
        l.balance_of_batch(vec![a, a, b], vec![units(1), units(2), units(1)]),
        Ok(vec![units(10), units(20), units(0)])
    );
    assert_eq!(l.balance_of_batch(vec![], vec![]), Ok(vec![]));
    assert_eq!(l.balance_of_batch(vec![a], vec![]), Err(ERC1155Error::LengthMismatch));
}

#[test]
fn multitoken_uri_and_interfaces() {
    let l = funded(account(1));
    assert_eq!(l.uri(units(77)).unwrap(), "ipfs://hash/77");
    let other = ERC1155::new(ERC1155Settings { base_uri: "u/".to_string() });
    assert_eq!(other.uri(U256::max()).unwrap(), "u/115792089237316195423570985008687907853269984665640564039457584007913129639935");
    for id in [[0x01, 0xff, 0xc9, 0xa7], [0xd9, 0xb6, 0x7a, 0x26], [0x0e, 0x89, 0x34, 0x1c]] {
        assert_eq!(ERC1155::<SampleParams>::supports_interface(id), Ok(true));
    }
    assert_eq!(ERC1155::<SampleParams>::supports_interface([0x80, 0xac, 0x58, 0xcd]), Ok(false));
}

#[test]
fn multitoken_errors_are_encoded_as_selectors() {
    assert_eq!(ERC1155Error::NotAuthorized.encode(), vec![0xea, 0x8e, 0x4e, 0xb5]);
    assert_eq!(ERC1155Error::UnsafeRecipient.encode(), vec![0x3d, 0xa6, 0x39, 0x31]);
    assert_eq!(ERC1155Error::LengthMismatch.encode(), vec![0xff, 0x63, 0x3a, 0x38]);
    assert_eq!(ERC1155Error::InsufficientBalance.encode(), vec![0xf4, 0xd6, 0x78, 0xb8]);
    assert_eq!(ERC1155Error::Overflow.encode(), vec![0x35, 0x27, 0x8d, 0x12]);
    assert_eq!(ERC6909Error::InvalidRecipient.encode(), vec![0x9c, 0x8d, 0x2c, 0xd2]);
    assert_eq!(ERC6909Error::InsufficientBalance.encode(), vec![0xf4, 0xd6, 0x78, 0xb8]);
    assert_eq!(ERC6909Error::InsufficientAllowance.encode(), vec![0x13, 0xbe, 0x25, 0x2b]);
    assert_eq!(ERC6909Error::Overflow.encode(), vec![0x35, 0x27, 0x8d, 0x12]);
}

#[test]
fn supply_of_each_id_is_the_sum_of_its_balances() {
    let (a, b, c) = (account(1), account(2), account(3));
    let mut l = ERC6909::new();
    let check = |l: &ERC6909| {
        for id in [units(1), units(2)] {
            let mut sum = U256::zero();
            for who in [a, b, c] {
                sum = sum.checked_add(&l.balance_of(who, id)).unwrap();
            }
            assert_eq!(sum, l.total_supply(id));
        }
    };
    check(&l);
    l.mint(a, a, units(1), units(50)).unwrap();
    check(&l);
    l.mint(a, b, units(2), units(8)).unwrap();
    check(&l);
    l.transfer(a, c, units(1), units(20)).unwrap();
    check(&l);
    l.burn(a, b, units(2), units(3)).unwrap();
    check(&l);
    assert!(l.transfer(b, c, units(2), units(6)).is_err());
    check(&l);
    assert_eq!(l.total_supply(units(1)), units(50));
    assert_eq!(l.total_supply(units(2)), units(5));
    assert_eq!(l.balance_of(a, units(1)), units(30));
    assert_eq!(l.balance_of(c, units(1)), units(20));
}

#[test]
fn allowance_per_id_is_used_up_unless_unlimited() {
    let (a, b, c) = (account(1), account(2), account(3));
    let mut l = ERC6909::new();
    l.mint(a, a, units(1), units(100)).unwrap();
    assert_eq!(l.transfer_from(b, a, c, units(1), units(1)), Err(ERC6909Error::InsufficientAllowance));
    assert_eq!(l.approve(a, b, units(1), units(40)), Ok(true));
    assert_eq!(l.transfer_from(b, a, c, units(1), units(40)), Ok(true));
    assert_eq!(l.allowance(a, b, units(1)), units(0));
    assert_eq!(l.transfer_from(b, a, c, units(1), units(1)), Err(ERC6909Error::InsufficientAllowance));
    l.approve(a, b, units(1), U256::max()).unwrap();
    assert_eq!(l.transfer_from(b, a, c, units(1), units(60)), Ok(true));
    assert_eq!(l.allowance(a, b, units(1)), U256::max());
    assert_eq!(l.allowance(a, b, units(2)), units(0));
    assert_eq!(l.balance_of(c, units(1)), units(100));
    assert_eq!(l.transfer_from(b, a, c, units(1), units(1)), Err(ERC6909Error::InsufficientBalance));
}

#[test]
fn operators_and_owners_need_no_allowance() {
    let (a, b, c) = (account(1), account(2), account(3));
    let mut l = ERC6909::new();
    l.mint(a, a, units(1), units(10)).unwrap();
    l.approve(a, b, units(1), units(5)).unwrap();
    assert_eq!(l.is_operator(a, b), false);
    assert_eq!(l.set_operator(a, b, true), Ok(true));
    assert_eq!(l.is_operator(a, b), true);
    assert_eq!(l.transfer_from(b, a, c, units(1), units(7)), Ok(true));
    assert_eq!(l.allowance(a, b, units(1)), units(5));
    assert_eq!(l.transfer_from(a, a, c, units(1), units(3)), Ok(true));
    assert_eq!(l.balance_of(c, units(1)), units(10));
    assert_eq!(l.transfer(c, Address::zero(), units(1), units(1)), Err(ERC6909Error::InvalidRecipient));
    assert_eq!(
        l.transfer_from(c, c, Address::zero(), units(1), units(1)),
        Err(ERC6909Error::InvalidRecipient)
    );
    assert_eq!(l.transfer(c, a, units(1), units(11)), Err(ERC6909Error::InsufficientBalance));
    assert_eq!(l.burn(c, c, units(1), units(11)), Err(ERC6909Error::InsufficientBalance));
    l.mint(a, a, units(3), U256::max()).unwrap();
    assert_eq!(l.mint(a, b, units(3), units(1)), Err(ERC6909Error::Overflow));
    assert_eq!(ERC6909::supports_interface([0xb2, 0xe6, 0x9f, 0x8a]), Ok(true));
    assert_eq!(ERC6909::supports_interface([0x01, 0xff, 0xc9, 0xa7]), Ok(true));
    assert_eq!(ERC6909::supports_interface([0xb2, 0xe6, 0x9f, 0x8b]), Ok(false));
}

#[test]
fn multitoken_with_allowances_logs_in_order() {
    let (a, b) = (account(1), account(2));
    let mut l = ERC6909::new();
    l.mint(a, a, units(1), units(10)).unwrap();
    l.approve(a, b, units(1), units(5)).unwrap();
    l.set_operator(a, b, false).unwrap();
    l.transfer_from(b, a, b, units(1), units(5)).unwrap();
    l.burn(b, b, units(1), units(5)).unwrap();
    assert_eq!(
        l.take_events(),
        vec![
            ERC6909Event::Transfer { caller: a, from: Address::zero(), to: a, id: units(1), amount: units(10) },
            ERC6909Event::Approval { owner: a, spender: b, id: units(1), amount: units(5) },
            ERC6909Event::OperatorSet { owner: a, operator: b, approved: false },
            ERC6909Event::Transfer { caller: b, from: a, to: b, id: units(1), amount: units(5) },
            ERC6909Event::Transfer { caller: b, from: b, to: Address::zero(), id: units(1), amount: units(5) },
        ]
    );
}
