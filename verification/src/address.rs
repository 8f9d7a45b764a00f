//! Account addresses and 32-byte words, kept as big-endian bytes.

use vstd::prelude::*;
use vstd::std_specs::cmp::PartialEqSpecImpl;

verus! {

/// A 20-byte account address. The all-zero address stands for "nobody".
#[derive(Clone, Copy, Debug)]
pub struct Address {
    pub bytes: [u8; 20],
}

/// A 32-byte word: a digest, a salt or a padded value.
#[derive(Clone, Copy, Debug)]
pub struct B256 {
    pub bytes: [u8; 32],
}

impl View for Address {
    type V = Seq<u8>;

    open spec fn view(&self) -> Seq<u8> {
        self.bytes@
    }
}

impl View for B256 {
    type V = Seq<u8>;

    open spec fn view(&self) -> Seq<u8> {
        self.bytes@
    }
}

impl PartialEq for Address {
    fn eq(&self, other: &Address) -> (r: bool) {
        let mut i: usize = 0;
        while i < 20
            invariant
                i <= 20,
                forall|j: int| 0 <= j < i ==> self.bytes[j] == other.bytes[j],
            decreases 20 - i,
        {
            if self.bytes[i] != other.bytes[i] {
                return false;
            }
            i = i + 1;
        }
        assert(self.bytes =~= other.bytes);
        true
    }
}

impl PartialEqSpecImpl for Address {
    open spec fn obeys_eq_spec() -> bool {
        true
    }

    open spec fn eq_spec(&self, other: &Address) -> bool {
        *self == *other
    }
}

impl Eq for Address {

}

impl PartialEq for B256 {
    fn eq(&self, other: &B256) -> (r: bool) {
        let mut i: usize = 0;
        while i < 32
            invariant
                i <= 32,
                forall|j: int| 0 <= j < i ==> self.bytes[j] == other.bytes[j],
            decreases 32 - i,
        {
            if self.bytes[i] != other.bytes[i] {
                return false;
            }
            i = i + 1;
        }
        assert(self.bytes =~= other.bytes);
        true
    }
}

impl PartialEqSpecImpl for B256 {
    open spec fn obeys_eq_spec() -> bool {
        true
    }

    open spec fn eq_spec(&self, other: &B256) -> bool {
        *self == *other
    }
}

impl Eq for B256 {

}

/// The bytes of `word` from place 12 on: the address that a word carries.
pub open spec fn word_address(word: Seq<u8>) -> Seq<u8> {
    word.subrange(12, 32)
}

/// Twelve zero bytes followed by the bytes of an address.
pub open spec fn address_word(address: Seq<u8>) -> Seq<u8> {
    Seq::new(12, |i: int| 0u8) + address
}

/// The address that stands for "nobody": twenty zero bytes.
pub open spec fn zero_address() -> Address {
    Address { bytes: vstd::array::spec_array_fill_for_copy_type::<u8, 20>(0u8) }
}

/// The word of 32 zero bytes.
pub open spec fn zero_word() -> B256 {
    B256 { bytes: vstd::array::spec_array_fill_for_copy_type::<u8, 32>(0u8) }
}

impl B256 {
    /// The word of 32 zero bytes.
    pub fn zero() -> (r: B256)
        ensures
            r == zero_word(),
    {
        B256 { bytes: [0u8; 32] }
    }
}

impl Address {
    /// The address that stands for "nobody".
    pub fn zero() -> (r: Address)
        ensures
            r == zero_address(),
            r@ == Seq::new(20, |i: int| 0u8),
    {
        let r = Address { bytes: [0u8; 20] };
        assert(r@ =~= Seq::new(20, |i: int| 0u8));
        r
    }

    pub open spec fn is_zero_spec(&self) -> bool {
        *self == zero_address()
    }

    pub fn is_zero(&self) -> (r: bool)
        ensures
            r == self.is_zero_spec(),
            r == (self@ == Seq::new(20, |i: int| 0u8)),
    {
        assert(zero_address()@ =~= Seq::new(20, |i: int| 0u8));
        assert(self@ == zero_address()@ ==> self.bytes =~= zero_address().bytes);
        let mut i: usize = 0;
        while i < 20
            invariant
                i <= 20,
                forall|j: int| 0 <= j < i ==> self.bytes[j] == 0,
            decreases 20 - i,
        {
            if self.bytes[i] != 0 {
                assert(Seq::new(20, |i: int| 0u8)[i as int] == 0);
                return false;
            }
            i = i + 1;
        }
        assert(self@ =~= Seq::new(20, |i: int| 0u8));
        true
    }

    /// The address in the last 20 bytes of a word.
    pub fn from_word(word: &B256) -> (r: Address)
        ensures
            r@ == word_address(word@),
    {
        let mut bytes = [0u8; 20];
        let mut i: usize = 0;
        while i < 20
            invariant
                i <= 20,
                forall|j: int| 0 <= j < i ==> bytes[j] == word.bytes[j + 12],
            decreases 20 - i,
        {
            bytes[i] = word.bytes[i + 12];
            i = i + 1;
        }
        let r = Address { bytes };
        assert(r@ =~= word_address(word@));
        r
    }

    /// The address left-padded with zeros to a word.
    pub fn into_word(&self) -> (r: B256)
        ensures
            r@ == address_word(self@),
    {
        let mut bytes = [0u8; 32];
        let mut i: usize = 0;
        while i < 20
            invariant
                i <= 20,
                forall|j: int| 0 <= j < 12 ==> bytes[j] == 0,
                forall|j: int| 0 <= j < i ==> bytes[j + 12] == self.bytes[j],
            decreases 20 - i,
        {
            bytes[i + 12] = self.bytes[i];
            i = i + 1;
        }
        let r = B256 { bytes };
        assert(r@ =~= address_word(self@));
        r
    }
}

} // verus!
