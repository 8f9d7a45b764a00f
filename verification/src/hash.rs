//! Keccak-256, and the byte strings that are hashed.

use crate::address::B256;
use vstd::prelude::*;
use vstd::string::StringSliceAdditionalSpecFns;

verus! {

/// The Keccak-256 digest of a byte string.
pub uninterp spec fn keccak256_digest(data: Seq<u8>) -> Seq<u8>;

/// Calls `stylus_sdk::crypto::keccak`, which hands the bytes to
/// `alloy_primitives::keccak256`. Trusted: the word that comes back is the
/// Keccak-256 digest of exactly the bytes given.
#[verifier::external_body]
pub(crate) fn keccak(data: &[u8]) -> (digest: B256)
    ensures
        digest@ == keccak256_digest(data@),
{
    B256 { bytes: stylus_sdk::crypto::keccak(data).0 }
}

/// The digest of a byte string.
pub fn keccak256(data: &[u8]) -> (digest: B256)
    ensures
        digest@ == keccak256_digest(data@),
{
    keccak(data)
}

/// Appends `bytes` to `buffer`.
pub fn append(buffer: &mut Vec<u8>, bytes: &[u8])
    ensures
        final(buffer)@ == old(buffer)@ + bytes@,
{
    let mut i: usize = 0;
    while i < bytes.len()
        invariant
            i <= bytes@.len(),
            buffer@ == old(buffer)@ + bytes@.subrange(0, i as int),
        decreases bytes@.len() - i,
    {
        buffer.push(bytes[i]);
        assert(bytes@.subrange(0, i + 1) =~= bytes@.subrange(0, i as int).push(bytes@[i as int]));
        assert(old(buffer)@ + bytes@.subrange(0, i + 1) =~= (old(buffer)@ + bytes@.subrange(
            0,
            i as int,
        )).push(bytes@[i as int]));
        i = i + 1;
    }
    assert(bytes@.subrange(0, bytes@.len() as int) =~= bytes@);
}

/// The first four bytes of the digest of a signature string: the selector
/// under which a call, an error or an interface is known.
pub open spec fn selector_of(signature: Seq<u8>) -> Seq<u8> {
    keccak256_digest(signature).subrange(0, 4)
}

/// The selector of a signature such as `transfer(address,uint256)`.
pub fn selector(signature: &str) -> (r: [u8; 4])
    ensures
        r@ == selector_of(signature.spec_bytes()),
{
    let digest = keccak(signature.as_bytes());
    let r = [digest.bytes[0], digest.bytes[1], digest.bytes[2], digest.bytes[3]];
    assert(r@ =~= selector_of(signature.spec_bytes()));
    r
}

} // verus!
