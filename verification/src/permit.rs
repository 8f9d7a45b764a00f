//! Typed-data digests for approvals that are signed away from the ledger,
//! and the byte strings exchanged with the signature-recovery service.

use crate::address::{address_word, word_address, Address, B256};
use crate::hash::{append, keccak, keccak256_digest};
use crate::primitives::U256;
use vstd::prelude::*;
use vstd::string::StringSliceAdditionalSpecFns;

verus! {

/// The digest of the text that names the fields of a signing domain.
pub open spec fn domain_type_hash() -> Seq<u8> {
    keccak256_digest(
        "EIP712Domain(string name,string version,uint256 chainId,address verifyingContract)".spec_bytes(),
    )
}

/// The digest of the text that names the fields of a permit.
pub open spec fn permit_type_hash() -> Seq<u8> {
    keccak256_digest(
        "Permit(address owner,address spender,uint256 value,uint256 nonce,uint256 deadline)".spec_bytes(),
    )
}

/// A chain id as a 256-bit quantity.
pub open spec fn chain_word(chain_id: u64) -> U256 {
    U256 { hi: 0, lo: chain_id as u128 }
}

/// The value that binds a signature to an asset name, a chain and a contract.
pub open spec fn domain_separator_of(name: Seq<u8>, chain_id: u64, contract: Address) -> Seq<u8> {
    keccak256_digest(
        domain_type_hash() + keccak256_digest(name) + keccak256_digest("1".spec_bytes())
            + chain_word(chain_id).be_bytes() + address_word(contract@),
    )
}

/// The fields of one permit as they are hashed: the digest of their names,
/// then owner, spender, value, nonce and deadline, each as a 32-byte word.
pub open spec fn permit_fields(
    owner: Address,
    spender: Address,
    value: U256,
    nonce: U256,
    deadline: U256,
) -> Seq<u8> {
    permit_type_hash() + address_word(owner@) + address_word(spender@) + value.be_bytes()
        + nonce.be_bytes() + deadline.be_bytes()
}

/// The digest of the fields of one permit.
pub open spec fn permit_struct_hash(
    owner: Address,
    spender: Address,
    value: U256,
    nonce: U256,
    deadline: U256,
) -> Seq<u8> {
    keccak256_digest(permit_fields(owner, spender, value, nonce, deadline))
}

/// What is hashed for a permit under one nonce is not what is hashed for
/// the same permit under another nonce.
pub proof fn lemma_permit_fields_follow_nonce(
    owner: Address,
    spender: Address,
    value: U256,
    nonce: U256,
    other: U256,
    deadline: U256,
)
    requires
        nonce != other,
    ensures
        permit_fields(owner, spender, value, nonce, deadline) != permit_fields(
            owner,
            spender,
            value,
            other,
            deadline,
        ),
{
    let head = permit_type_hash() + address_word(owner@) + address_word(spender@)
        + value.be_bytes();
    let one = permit_fields(owner, spender, value, nonce, deadline);
    let two = permit_fields(owner, spender, value, other, deadline);
    if one == two {
        let from = head.len() as int;
        assert(one.subrange(from, from + 32) =~= nonce.be_bytes());
        assert(two.subrange(from, from + 32) =~= other.be_bytes());
        nonce.lemma_be_bytes_injective(other);
    }
}

/// The digest that is signed: the bytes `0x19 0x01`, the domain separator
/// and the digest of the fields.
pub open spec fn typed_data_digest(domain_separator: Seq<u8>, struct_hash: Seq<u8>) -> Seq<u8> {
    keccak256_digest(seq![0x19u8, 0x01u8] + domain_separator + struct_hash)
}

/// The digest that the owner of a permit signs.
pub open spec fn permit_digest_of(
    domain_separator: Seq<u8>,
    owner: Address,
    spender: Address,
    value: U256,
    nonce: U256,
    deadline: U256,
) -> Seq<u8> {
    typed_data_digest(domain_separator, permit_struct_hash(owner, spender, value, nonce, deadline))
}

/// Computes the domain separator for an asset name on a chain at a contract.
pub fn domain_separator(name: &str, chain_id: u64, contract: &Address) -> (r: B256)
    ensures
        r@ == domain_separator_of(name.spec_bytes(), chain_id, *contract),
{
    let type_hash = keccak(
        "EIP712Domain(string name,string version,uint256 chainId,address verifyingContract)".as_bytes(),
    );
    let name_hash = keccak(name.as_bytes());
    let version_hash = keccak("1".as_bytes());
    let chain = U256 { hi: 0, lo: chain_id as u128 };
    let chain_bytes = chain.to_be_bytes();
    let contract_word = contract.into_word();
    let mut buffer: Vec<u8> = Vec::new();
    append(&mut buffer, type_hash.bytes.as_slice());
    append(&mut buffer, name_hash.bytes.as_slice());
    append(&mut buffer, version_hash.bytes.as_slice());
    append(&mut buffer, chain_bytes.as_slice());
    append(&mut buffer, contract_word.bytes.as_slice());
    assert(buffer@ =~= domain_type_hash() + keccak256_digest(name.spec_bytes()) + keccak256_digest(
        "1".spec_bytes(),
    ) + chain_word(chain_id).be_bytes() + address_word(contract@));
    keccak(buffer.as_slice())
}

/// Computes the digest that the owner of a permit signs.
pub fn permit_digest(
    domain_separator: &B256,
    owner: &Address,
    spender: &Address,
    value: &U256,
    nonce: &U256,
    deadline: &U256,
) -> (r: B256)
    ensures
        r@ == permit_digest_of(domain_separator@, *owner, *spender, *value, *nonce, *deadline),
{
    let type_hash = keccak(
        "Permit(address owner,address spender,uint256 value,uint256 nonce,uint256 deadline)".as_bytes(),
    );
    let owner_word = owner.into_word();
    let spender_word = spender.into_word();
    let value_bytes = value.to_be_bytes();
    let nonce_bytes = nonce.to_be_bytes();
    let deadline_bytes = deadline.to_be_bytes();
    let mut fields: Vec<u8> = Vec::new();
    append(&mut fields, type_hash.bytes.as_slice());
    append(&mut fields, owner_word.bytes.as_slice());
    append(&mut fields, spender_word.bytes.as_slice());
    append(&mut fields, value_bytes.as_slice());
    append(&mut fields, nonce_bytes.as_slice());
    append(&mut fields, deadline_bytes.as_slice());
    assert(fields@ =~= permit_type_hash() + address_word(owner@) + address_word(spender@)
        + value.be_bytes() + nonce.be_bytes() + deadline.be_bytes());
    let struct_hash = keccak(fields.as_slice());
    let mut message: Vec<u8> = Vec::new();
    message.push(0x19u8);
    message.push(0x01u8);
    append(&mut message, domain_separator.bytes.as_slice());
    append(&mut message, struct_hash.bytes.as_slice());
    assert(message@ =~= seq![0x19u8, 0x01u8] + domain_separator@ + struct_hash@);
    keccak(message.as_slice())
}

/// The request to the recovery service: the digest, then `v`, `r` and `s`,
/// each as a 32-byte word.
pub open spec fn recovery_request_of(digest: B256, v: u8, r: U256, s: U256) -> Seq<u8> {
    digest@ + (U256 { hi: 0, lo: v as u128 }).be_bytes() + r.be_bytes() + s.be_bytes()
}

/// Builds the request to the recovery service.
pub fn recovery_request(digest: &B256, v: u8, r: &U256, s: &U256) -> (request: Vec<u8>)
    ensures
        request@ == recovery_request_of(*digest, v, *r, *s),
{
    let v_word = U256 { hi: 0, lo: v as u128 };
    let v_bytes = v_word.to_be_bytes();
    let r_bytes = r.to_be_bytes();
    let s_bytes = s.to_be_bytes();
    let mut request: Vec<u8> = Vec::new();
    append(&mut request, digest.bytes.as_slice());
    append(&mut request, v_bytes.as_slice());
    append(&mut request, r_bytes.as_slice());
    append(&mut request, s_bytes.as_slice());
    assert(request@ =~= recovery_request_of(*digest, v, *r, *s));
    request
}

/// Reads the answer of the recovery service: the address in the last 20
/// bytes of its first word, or `None` where the answer is shorter than a word.
pub fn recovered_signer(answer: &[u8]) -> (r: Option<Address>)
    ensures
        answer@.len() < 32 ==> r.is_none(),
        answer@.len() >= 32 ==> r.is_some() && r.unwrap()@ == word_address(answer@),
{
    if answer.len() < 32 {
        None
    } else {
        let mut bytes = [0u8; 20];
        let mut i: usize = 0;
        while i < 20
            invariant
                i <= 20,
                answer@.len() >= 32,
                forall|j: int| 0 <= j < i ==> bytes[j] == answer@[j + 12],
            decreases 20 - i,
        {
            bytes[i] = answer[i + 12];
            i = i + 1;
        }
        let r = Address { bytes };
        assert(r@ =~= word_address(answer@));
        Some(r)
    }
}

/// What the recovery service reported: the digest it was asked about and
/// the signer it found, if any.
#[derive(Clone, Copy, Debug)]
pub struct Recovery {
    pub digest: B256,
    pub signer: Option<Address>,
}

} // verus!
