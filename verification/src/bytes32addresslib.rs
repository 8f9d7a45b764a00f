//! Addresses as parts of 32-byte words.

use crate::address::{address_word, word_address, Address, B256};
use vstd::prelude::*;

verus! {

/// Conversions between addresses and words.
pub struct Bytes32AddressLib;

impl Bytes32AddressLib {
    /// The address in the last 20 bytes of a word.
    pub fn from_last_20_bytes(bytes_value: B256) -> (r: Address)
        ensures
            r@ == word_address(bytes_value@),
    {
        Address::from_word(&bytes_value)
    }

    /// The word that holds twelve zero bytes and then the address.
    pub fn fill_last_12_bytes(address_value: Address) -> (r: B256)
        ensures
            r@ == address_word(address_value@),
    {
        address_value.into_word()
    }
}

/// An address that was put into a word is read back from it unchanged.
pub proof fn lemma_word_round_trip(address: Address)
    ensures
        word_address(address_word(address@)) == address@,
{
    assert(word_address(address_word(address@)) =~= address@);
}

} // verus!
