use rustmate::address::{Address, B256};
use rustmate::bytes32addresslib::Bytes32AddressLib;
use rustmate::create3::{CREATE3Error, DeployStage, DeployStep, CREATE3};
use rustmate::guard::{acknowledged, guard, Guard, Shape};
use rustmate::hash::{append, keccak256, selector};
use rustmate::permit::{domain_separator, permit_digest, recovered_signer, recovery_request};
use rustmate::primitives::U256;
use rustmate::table::{Key, Table};

fn account(n: u8) -> Address {
    let mut bytes = [0u8; 20];
    bytes[19] = n;
    Address { bytes }
}

#[test]
fn checked_add_carries_and_overflows() {
    let max_lo = U256 { hi: 0, lo: u128::MAX };
    assert_eq!(max_lo.checked_add(&U256::from_u64(1)), Some(U256 { hi: 1, lo: 0 }));
    assert_eq!(
        U256 { hi: 3, lo: u128::MAX - 1 }.checked_add(&U256 { hi: 4, lo: 5 }),
        Some(U256 { hi: 8, lo: 3 })
    );
    assert_eq!(U256::max().checked_add(&U256::zero()), Some(U256::max()));
    assert_eq!(U256::max().checked_add(&U256::from_u64(1)), None);
    assert_eq!(U256 { hi: u128::MAX, lo: 0 }.checked_add(&U256 { hi: 1, lo: 0 }), None);
    assert_eq!(
        U256 { hi: u128::MAX - 1, lo: u128::MAX }.checked_add(&U256 { hi: 1, lo: 1 }),
        None
    );
    assert_eq!(U256::from_u64(2).checked_add(&U256::from_u64(3)), Some(U256::from_u128(5)));
}

#[test]
fn checked_sub_borrows_and_underflows() {
    assert_eq!(
        U256 { hi: 1, lo: 0 }.checked_sub(&U256::from_u64(1)),
        Some(U256 { hi: 0, lo: u128::MAX })
    );
    assert_eq!(U256 { hi: 8, lo: 3 }.checked_sub(&U256 { hi: 4, lo: 5 }), Some(U256 { hi: 3, lo: u128::MAX - 1 }));
    assert_eq!(U256::from_u64(5).checked_sub(&U256::from_u64(5)), Some(U256::zero()));
    assert_eq!(U256::from_u64(5).checked_sub(&U256::from_u64(6)), None);
    assert_eq!(U256 { hi: 1, lo: 9 }.checked_sub(&U256 { hi: 2, lo: 0 }), None);
    assert_eq!(U256::zero().checked_sub(&U256::max()), None);
}

#[test]
fn comparisons_of_quantities() {
    assert!(U256 { hi: 0, lo: u128::MAX }.lt(&U256 { hi: 1, lo: 0 }));
    assert!(!U256 { hi: 1, lo: 0 }.lt(&U256 { hi: 0, lo: u128::MAX }));
    assert!(!U256::from_u64(4).lt(&U256::from_u64(4)));
    assert!(U256::zero().is_zero());
    assert!(!U256 { hi: 1, lo: 0 }.is_zero());
    assert!(U256::max().is_max());
    assert!(!U256 { hi: u128::MAX, lo: 0 }.is_max());
    assert_eq!(U256::from_u64(u64::MAX), U256 { hi: 0, lo: u64::MAX as u128 });
}

#[test]
fn big_endian_bytes_of_a_quantity() {
    let v = U256 { hi: 0x0102_0000_0000_0000_0000_0000_0000_0003, lo: 0xff00_0000_0000_0000_0000_0000_0000_00aa };
    let bytes = v.to_be_bytes();
    assert_eq!(&bytes[..2], &[0x01, 0x02]);
    assert_eq!(bytes[15], 0x03);
    assert_eq!(bytes[16], 0xff);
    assert_eq!(bytes[31], 0xaa);
    assert_eq!(bytes.iter().filter(|b| **b != 0).count(), 5);
    assert_eq!(U256::from_u64(0x1234).to_be_bytes()[30..], [0x12, 0x34]);
    assert_eq!(U256::max().to_be_bytes(), [0xff; 32]);
}

#[test]
fn decimal_text_of_a_quantity() {
    assert_eq!(U256::zero().to_decimal(), "0");
    assert_eq!(U256::from_u64(9).to_decimal(), "9");
    assert_eq!(U256::from_u64(10).to_decimal(), "10");
    assert_eq!(U256::from_u128(u128::MAX).to_decimal(), "340282366920938463463374607431768211455");
    assert_eq!(
        U256::max().to_decimal(),
        "115792089237316195423570985008687907853269984665640564039457584007913129639935"
    );
}

#[test]
fn addresses_and_words() {
    let a = account(0xa1);
    assert!(Address::zero().is_zero());
    assert!(!a.is_zero());
    assert_eq!(a, account(0xa1));
    assert_ne!(a, account(0xa2));
    let word = a.into_word();
    assert_eq!(&word.bytes[..12], &[0u8; 12]);
    assert_eq!(&word.bytes[12..], &a.bytes);
    assert_eq!(Address::from_word(&word), a);
    assert_eq!(Bytes32AddressLib::fill_last_12_bytes(a), word);
    let mut full = [0u8; 32];
    for (i, b) in full.iter_mut().enumerate() {
        *b = i as u8;
    }
    let taken = Bytes32AddressLib::from_last_20_bytes(B256 { bytes: full });
    assert_eq!(taken.bytes.to_vec(), (12u8..32).collect::<Vec<u8>>());
    assert_eq!(B256::zero().bytes, [0u8; 32]);
    assert_ne!(B256 { bytes: full }, B256::zero());
}

#[test]
fn keccak_of_known_inputs() {
    assert_eq!(
        keccak256(b"").bytes,
        [
            0xc5, 0xd2, 0x46, 0x01, 0x86, 0xf7, 0x23, 0x3c, 0x92, 0x7e, 0x7d, 0xb2, 0xdc, 0xc7,
            0x03, 0xc0, 0xe5, 0x00, 0xb6, 0x53, 0xca, 0x82, 0x27, 0x3b, 0x7b, 0xfa, 0xd8, 0x04,
            0x5d, 0x85, 0xa4, 0x70
        ]
    );
    assert_eq!(
        keccak256(b"abc").bytes,
        [
            0x4e, 0x03, 0x65, 0x7a, 0xea, 0x45, 0xa9, 0x4f, 0xc7, 0xd4, 0x7b, 0xa8, 0x26, 0xc8,
            0xd6, 0x67, 0xc0, 0xd1, 0xe6, 0xe3, 0x3a, 0x64, 0xa0, 0x36, 0xec, 0x44, 0xf5, 0x8f,
            0xa1, 0x2d, 0x6c, 0x45
        ]
    );
    assert_eq!(selector("transfer(address,uint256)"), [0xa9, 0x05, 0x9c, 0xbb]);
    let mut buffer = vec![1u8, 2];
    append(&mut buffer, &[3, 4, 5]);
    append(&mut buffer, &[]);
    assert_eq!(buffer, vec![1, 2, 3, 4, 5]);
}

#[test]
fn acknowledgments_are_the_selectors_of_the_entry_points() {
    for shape in [Shape::Token, Shape::Single, Shape::Batch] {
        assert_eq!(shape.acknowledgment(), selector(shape.entry_point()));
        assert!(acknowledged(shape, Some(shape.acknowledgment())));
        assert!(!acknowledged(shape, None));
    }
    assert_eq!(Shape::Token.acknowledgment(), [0x15, 0x0b, 0x7a, 0x02]);
    assert_eq!(Shape::Single.acknowledgment(), [0xf2, 0x3a, 0x6e, 0x61]);
    assert_eq!(Shape::Batch.acknowledgment(), [0xbc, 0x19, 0x7c, 0x81]);
    assert!(!acknowledged(Shape::Single, Some(Shape::Batch.acknowledgment())));
    assert!(!acknowledged(Shape::Token, Some([0x15, 0x0b, 0x7a, 0x00])));
}

#[test]
fn guard_decides_by_code_and_zero_address() {
    assert_eq!(guard(&account(1), true), Guard::Ask);
    assert_eq!(guard(&Address::zero(), true), Guard::Ask);
    assert_eq!(guard(&account(1), false), Guard::Accept);
    assert_eq!(guard(&Address::zero(), false), Guard::Refuse);
}

#[test]
fn permit_pieces_have_the_documented_values() {
    let (a, b, this) = (account(0xa1), account(0xb2), account(0x77));
    let separator = domain_separator("MyToken", 5, &this);
    assert_eq!(&separator.bytes[..4], &[0xd0, 0x14, 0x58, 0x11]);
    assert_ne!(separator, domain_separator("MyToken", 6, &this));
    assert_ne!(separator, domain_separator("MyToken", 5, &a));
    assert_ne!(separator, domain_separator("MyToken2", 5, &this));
    let digest = permit_digest(
        &B256::zero(),
        &a,
        &b,
        &U256::from_u64(50),
        &U256::zero(),
        &U256::from_u64(1000),
    );
    assert_eq!(
        digest.bytes,
        [
            0xe5, 0x50, 0x54, 0x9b, 0xcb, 0xe8, 0x25, 0x37, 0xdd, 0x5d, 0x42, 0x04, 0xe9, 0x2d,
            0x03, 0x40, 0x2b, 0x12, 0xe1, 0xf3, 0x31, 0x02, 0xd3, 0x17, 0x46, 0x12, 0x62, 0xff,
            0x5d, 0x46, 0x0f, 0xf8
        ]
    );
}

#[test]
fn recovery_request_and_answer() {
    let digest = B256 { bytes: [0x11; 32] };
    let request = recovery_request(&digest, 27, &U256::from_u64(2), &U256 { hi: 3, lo: 0 });
    assert_eq!(request.len(), 128);
    assert_eq!(&request[..32], &[0x11; 32]);
    assert_eq!(&request[32..63], &[0u8; 31]);
    assert_eq!(request[63], 27);
    assert_eq!(request[95], 2);
    assert_eq!(request[111], 3);
    assert_eq!(&request[112..], &[0u8; 16]);
    let mut answer = vec![0xeeu8; 12];
    answer.extend_from_slice(&account(9).bytes);
    assert_eq!(recovered_signer(&answer), Some(account(9)));
    answer.push(0xff);
    assert_eq!(recovered_signer(&answer), Some(account(9)));
    assert_eq!(recovered_signer(&answer[..31]), None);
    assert_eq!(recovered_signer(&[]), None);
}

#[test]
fn deployed_address_depends_on_creator_and_salt_alone() {
    let this = account(0x77);
    let mut salt = B256::zero();
    salt.bytes[31] = 1;
    let expected = Address {
        bytes: [
            0x02, 0xcc, 0x08, 0xf0, 0x42, 0x71, 0xa9, 0xe4, 0x22, 0xfa, 0x43, 0xe1, 0xa6, 0x0c,
            0x2a, 0xd6, 0x2b, 0x1b, 0x9c, 0x9d,
        ],
    };
    assert_eq!(CREATE3::get_deployed(salt, this), Ok(expected));
    assert_eq!(CREATE3::get_deployed_with_creator(salt, this), Ok(expected));
    assert_ne!(CREATE3::get_deployed(B256::zero(), this), Ok(expected));
    assert_ne!(CREATE3::get_deployed(salt, account(0x78)), Ok(expected));
}

#[test]
fn proxy_code_has_the_digest_that_addresses_are_derived_from() {
    let code = CREATE3::proxy_bytecode();
    assert_eq!(code.len(), 16);
    assert_eq!(
        keccak256(&code).bytes,
        [
            33, 195, 93, 190, 27, 52, 74, 36, 136, 207, 51, 33, 214, 206, 84, 47, 142, 159, 48,
            85, 68, 255, 9, 228, 153, 58, 98, 49, 154, 73, 124, 31
        ]
    );
}

fn run_deploy(
    salt: B256,
    this: Address,
    value: U256,
    occupied: &mut Vec<Address>,
    proxy_at: Address,
) -> Result<Address, CREATE3Error> {
    let mut stage = DeployStage::Requested;
    loop {
        match CREATE3::deploy(salt, this, value, stage) {
            DeployStep::CreateProxy { salt: asked } => {
                assert_eq!(asked, salt);
                stage = if occupied.contains(&proxy_at) {
                    DeployStage::ProxyFailed
                } else {
                    occupied.push(proxy_at);
                    DeployStage::ProxyCreated { proxy: proxy_at, has_code: true }
                };
            }
            DeployStep::CallProxy { proxy, value: sent } => {
                assert_eq!(proxy, proxy_at);
                assert_eq!(sent, value);
                stage = DeployStage::ProxyCalled(true);
            }
            DeployStep::Done(result) => return result,
        }
    }
}

#[test]
fn deploy_ends_at_the_predicted_address_and_only_once() {
    let this = account(0x77);
    let mut salt = B256::zero();
    salt.bytes[31] = 1;
    let proxy_at = Address {
        bytes: [
            0xc3, 0x1c, 0xc2, 0xf1, 0x96, 0x9b, 0xaa, 0x92, 0xdd, 0x44, 0xd3, 0x75, 0x05, 0xa4,
            0x5d, 0x21, 0xc0, 0x95, 0x31, 0x4f,
        ],
    };
    let mut occupied = Vec::new();
    let predicted = CREATE3::get_deployed(salt, this).unwrap();
    let deployed = run_deploy(salt, this, U256::from_u64(5), &mut occupied, proxy_at);
    assert_eq!(deployed, Ok(predicted));
    assert_eq!(CREATE3::get_deployed(salt, this), Ok(predicted));
    let again = run_deploy(salt, this, U256::zero(), &mut occupied, proxy_at);
    assert_eq!(again, Err(CREATE3Error::DeploymentFailed));
}

#[test]
fn deploy_reports_a_failed_initialization() {
    let this = account(0x77);
    let salt = B256::zero();
    match CREATE3::deploy(salt, this, U256::zero(), DeployStage::ProxyCalled(false)) {
        DeployStep::Done(r) => assert_eq!(r, Err(CREATE3Error::InitilizationFailed)),
        _ => panic!("the deployment should be over"),
    }
    for stage in [
        DeployStage::ProxyFailed,
        DeployStage::ProxyCreated { proxy: account(5), has_code: false },
    ] {
        match CREATE3::deploy(salt, this, U256::zero(), stage) {
            DeployStep::Done(r) => assert_eq!(r, Err(CREATE3Error::DeploymentFailed)),
            _ => panic!("the deployment should be over"),
        }
    }
    match CREATE3::deploy(
        salt,
        this,
        U256::from_u64(3),
        DeployStage::ProxyCreated { proxy: account(5), has_code: true },
    ) {
        DeployStep::CallProxy { proxy, value } => {
            assert_eq!(proxy, account(5));
            assert_eq!(value, U256::from_u64(3));
        }
        _ => panic!("the proxy should be called"),
    }
    assert_eq!(CREATE3Error::DeploymentFailed.encode(), vec![0x30, 0x11, 0x64, 0x25]);
    assert_eq!(CREATE3Error::InitilizationFailed.encode(), vec![0x39, 0xf8, 0x76, 0xc9]);
}

#[test]
fn table_holds_the_last_value_written() {
    let mut t: Table<(Address, U256), U256> = Table::new(U256::zero());
    let k1 = (account(1), U256::from_u64(1));
    let k2 = (account(1), U256::from_u64(2));
    assert_eq!(t.get(&k1), U256::zero());
    t.set(k1, U256::from_u64(5));
    t.set(k2, U256::from_u64(6));
    t.set(k1, U256::from_u64(7));
    assert_eq!(t.get(&k1), U256::from_u64(7));
    assert_eq!(t.get(&k2), U256::from_u64(6));
    assert_eq!(t.len(), 2);
    let copy = t.duplicate();
    t.set(k2, U256::zero());
    assert_eq!(copy.get(&k2), U256::from_u64(6));
    assert_eq!(t.get(&k2), U256::zero());
    assert!(k1.same(&(account(1), U256::from_u64(1))));
    assert!(!k1.same(&k2));
    assert!((account(1), account(2), U256::zero()).same(&(account(1), account(2), U256::zero())));
    assert!(!(account(1), account(2), U256::zero()).same(&(account(1), account(3), U256::zero())));
}
