//! The quantities that every ledger speaks of: unsigned 256-bit integers,
//! their bytes and their decimal digits.

use vstd::prelude::*;

verus! {

/// An unsigned 256-bit integer, kept as two 128-bit halves.
#[derive(Clone, Copy, Debug, PartialEq, Eq, Structural)]
pub struct U256 {
    pub hi: u128,
    pub lo: u128,
}

/// Two to the power of 128.
pub open spec fn pow2_128() -> nat {
    (u128::MAX as nat) + 1
}

/// The largest value a `U256` can hold.
pub open spec fn u256_max() -> nat {
    (pow2_128() * pow2_128() - 1) as nat
}

/// The sixteen bytes of a 128-bit value, the most significant first.
pub open spec fn u128_be_bytes(x: u128) -> Seq<u8> {
    Seq::new(16, |i: int| ((x >> ((8 * (15 - i)) as u128)) & 0xff) as u8)
}

/// The number that a string of bytes spells, the most significant first.
pub open spec fn be_value(bytes: Seq<u8>) -> nat
    decreases bytes.len(),
{
    if bytes.len() == 0 {
        0
    } else {
        be_value(bytes.drop_last()) * 256 + bytes.last() as nat
    }
}

/// Two hundred and fifty-six to the power of `n`.
pub open spec fn byte_scale(n: nat) -> nat
    decreases n,
{
    if n == 0 {
        1
    } else {
        256 * byte_scale((n - 1) as nat)
    }
}

/// Bytes put behind other bytes count below them.
pub proof fn lemma_be_value_concat(high: Seq<u8>, low: Seq<u8>)
    ensures
        be_value(high + low) == be_value(high) * byte_scale(low.len()) + be_value(low),
    decreases low.len(),
{
    if low.len() == 0 {
        assert(high + low =~= high);
        assert(byte_scale(0) == 1);
        assert(be_value(low) == 0);
        assert(be_value(high) * 1 == be_value(high)) by (nonlinear_arith);
    } else {
        lemma_be_value_concat(high, low.drop_last());
        assert((high + low).drop_last() =~= high + low.drop_last());
        assert((high + low).last() == low.last());
        let a = be_value(high) as int;
        let s = byte_scale((low.len() - 1) as nat) as int;
        let b = be_value(low.drop_last()) as int;
        let l = low.last() as int;
        assert(be_value(high + low) == (a * s + b) * 256 + l);
        assert(be_value(low) == b * 256 + l);
        assert(byte_scale(low.len()) == 256 * s);
        assert((a * s + b) * 256 == a * (256 * s) + b * 256) by (nonlinear_arith);
        assert(be_value(high) * byte_scale(low.len()) == a * (256 * s));
    }
}

proof fn lemma_shift_step(x: u128, s: u128)
    by (bit_vector)
    requires
        s <= 112,
    ensures
        (x >> s) == (x >> ((s + 8) as u128)) * 256 + ((x >> s) & 0xff),
        (x >> 120u128) == (x >> 120u128) & 0xff,
{
}

proof fn lemma_u128_prefix_value(x: u128, k: nat)
    requires
        1 <= k <= 16,
    ensures
        be_value(u128_be_bytes(x).subrange(0, k as int)) == x >> ((8 * (16 - k)) as u128),
    decreases k,
{
    let bytes = u128_be_bytes(x);
    let prefix = bytes.subrange(0, k as int);
    assert(prefix.drop_last() =~= bytes.subrange(0, k - 1));
    assert(prefix.last() == bytes[k - 1]);
    let s: u128 = (8 * (16 - k)) as u128;
    assert((x >> s) & 0xff <= 0xff) by (bit_vector);
    assert(bytes[k - 1] == ((x >> ((8 * (15 - (k - 1))) as u128)) & 0xff) as u8);
    assert(((8 * (15 - (k - 1))) as u128) == s);
    assert(prefix.last() as nat == (x >> s) & 0xff);
    assert(be_value(prefix) == be_value(prefix.drop_last()) * 256 + prefix.last() as nat);
    if k == 1 {
        assert(prefix.drop_last().len() == 0);
        assert(be_value(prefix.drop_last()) == 0);
        lemma_shift_step(x, 0);
    } else {
        lemma_u128_prefix_value(x, (k - 1) as nat);
        lemma_shift_step(x, s);
        assert(((s + 8) as u128) == ((8 * (16 - (k - 1))) as u128));
    }
}

/// The sixteen bytes of a 128-bit value spell that value.
pub proof fn lemma_u128_be_value(x: u128)
    ensures
        be_value(u128_be_bytes(x)) == x,
{
    lemma_u128_prefix_value(x, 16);
    assert(u128_be_bytes(x).subrange(0, 16) =~= u128_be_bytes(x));
    assert(x >> 0u128 == x) by (bit_vector);
}

/// The decimal digits of a number, the most significant first, without
/// leading zeros; zero is the single digit `0`.
pub open spec fn decimal_text(n: nat) -> Seq<char>
    decreases n,
{
    if n < 10 {
        seq![((48 + n) as u8) as char]
    } else {
        decimal_text(n / 10).push(((48 + n % 10) as u8) as char)
    }
}

/// Calls `alloy_primitives::U256::from_be_bytes` on 32 bytes and then
/// `to_string`, which writes the number through ruint's `Display`.
/// Trusted: the text is the number that the bytes spell, the most
/// significant first, in decimal digits, without sign, separators or
/// leading zeros.
#[verifier::external_body]
fn decimal(bytes: [u8; 32]) -> (r: String)
    ensures
        r@ == decimal_text(be_value(bytes@)),
{
    alloy_primitives::U256::from_be_bytes(bytes).to_string()
}

impl View for U256 {
    type V = nat;

    open spec fn view(&self) -> nat {
        self.hi as nat * pow2_128() + self.lo as nat
    }
}

impl U256 {
    /// Every value is at most `u256_max()`.
    pub proof fn lemma_bounded(self)
        ensures
            self@ <= u256_max(),
    {
        assert(self.hi as nat * pow2_128() <= (pow2_128() - 1) * pow2_128()) by (nonlinear_arith)
            requires
                self.hi as nat <= pow2_128() - 1,
        ;
        assert((pow2_128() - 1) * pow2_128() == pow2_128() * pow2_128() - pow2_128())
            by (nonlinear_arith);
    }

    /// Two values with the same number are the same value.
    pub proof fn lemma_view_injective(self, other: U256)
        requires
            self@ == other@,
        ensures
            self == other,
    {
        let p = pow2_128() as int;
        let (a, b, c, d) = (self.hi as int, self.lo as int, other.hi as int, other.lo as int);
        assert(a == c) by (nonlinear_arith)
            requires
                a * p + b == c * p + d,
                0 <= b < p,
                0 <= d < p,
                p > 0,
        ;
    }

    pub fn zero() -> (r: U256)
        ensures
            r@ == 0,
            r == (U256 { hi: 0, lo: 0 }),
    {
        U256 { hi: 0, lo: 0 }
    }

    pub fn max() -> (r: U256)
        ensures
            r@ == u256_max(),
            r == (U256 { hi: u128::MAX, lo: u128::MAX }),
    {
        proof {
            assert((pow2_128() - 1) * pow2_128() + (pow2_128() - 1) == pow2_128() * pow2_128() - 1)
                by (nonlinear_arith);
        }
        U256 { hi: u128::MAX, lo: u128::MAX }
    }

    pub fn from_u128(value: u128) -> (r: U256)
        ensures
            r@ == value,
            r == (U256 { hi: 0, lo: value }),
    {
        proof {
            assert(0 * pow2_128() == 0) by (nonlinear_arith);
        }
        U256 { hi: 0, lo: value }
    }

    pub fn from_u64(value: u64) -> (r: U256)
        ensures
            r@ == value,
            r == (U256 { hi: 0, lo: value as u128 }),
    {
        Self::from_u128(value as u128)
    }

    pub fn is_zero(&self) -> (r: bool)
        ensures
            r == (self@ == 0),
    {
        proof {
            assert(self.hi > 0 ==> self.hi as nat * pow2_128() >= pow2_128()) by (nonlinear_arith);
            assert(0 * pow2_128() == 0) by (nonlinear_arith);
        }
        self.hi == 0 && self.lo == 0
    }

    pub fn is_max(&self) -> (r: bool)
        ensures
            r == (self@ == u256_max()),
    {
        let top = Self::max();
        proof {
            if self@ == top@ {
                self.lemma_view_injective(top);
            }
        }
        self.hi == u128::MAX && self.lo == u128::MAX
    }

    pub fn lt(&self, other: &U256) -> (r: bool)
        ensures
            r == (self@ < other@),
    {
        proof {
            let p = pow2_128() as int;
            let (a, b, c, d) = (self.hi as int, self.lo as int, other.hi as int, other.lo as int);
            assert(a < c ==> a * p + b < c * p + d) by (nonlinear_arith)
                requires
                    0 <= b < p,
                    0 <= d < p,
            ;
            assert(a > c ==> a * p + b > c * p + d) by (nonlinear_arith)
                requires
                    0 <= b < p,
                    0 <= d < p,
            ;
        }
        self.hi < other.hi || (self.hi == other.hi && self.lo < other.lo)
    }

    /// The sum, or `None` where it does not fit in 256 bits.
    pub fn checked_add(&self, other: &U256) -> (r: Option<U256>)
        ensures
            r == (if self@ + other@ <= u256_max() {
                Some(U256::of_nat(self@ + other@))
            } else {
                None
            }),
            r.is_some() ==> r.unwrap()@ == self@ + other@,
    {
        let lo_room: u128 = u128::MAX - self.lo;
        let carry: u128 = if other.lo > lo_room { 1 } else { 0 };
        let lo: u128 = if other.lo > lo_room {
            other.lo - lo_room - 1
        } else {
            self.lo + other.lo
        };
        let ghost p = pow2_128() as int;
        let ghost (a, b, c, d) = (self.hi as int, self.lo as int, other.hi as int, other.lo as int);
        proof {
            assert(b + d == carry as int * p + lo as int);
            assert((a + c + carry as int) * p + lo as int == (a * p + b) + (c * p + d))
                by (nonlinear_arith)
                requires
                    b + d == carry as int * p + lo as int,
            ;
            assert(a + c + carry as int >= p ==> (a + c + carry as int) * p >= p * p)
                by (nonlinear_arith)
                requires
                    p > 0,
            ;
        }
        let hi_room: u128 = u128::MAX - self.hi;
        if other.hi > hi_room || (carry == 1 && other.hi == hi_room) {
            None
        } else {
            let hi: u128 = self.hi + other.hi + carry;
            let r = U256 { hi, lo };
            proof {
                r.lemma_bounded();
                U256::lemma_of_nat(r);
            }
            Some(r)
        }
    }

    /// The difference, or `None` where `other` is the larger.
    pub fn checked_sub(&self, other: &U256) -> (r: Option<U256>)
        ensures
            r == (if self@ >= other@ {
                Some(U256::of_nat((self@ - other@) as nat))
            } else {
                None
            }),
            r.is_some() ==> r.unwrap()@ == self@ - other@,
    {
        if self.lt(other) {
            None
        } else {
            let borrow: u128 = if self.lo < other.lo { 1 } else { 0 };
            let lo: u128 = if self.lo < other.lo {
                u128::MAX - other.lo + self.lo + 1
            } else {
                self.lo - other.lo
            };
            let ghost p = pow2_128() as int;
            let ghost (a, b, c, d) = (
                self.hi as int,
                self.lo as int,
                other.hi as int,
                other.lo as int,
            );
            proof {
                assert(b - d == lo as int - borrow as int * p);
                assert(a <= c ==> a * p + b <= c * p + b) by (nonlinear_arith)
                    requires
                        p > 0,
                ;
                assert((a - c - borrow as int) * p + lo as int == (a * p + b) - (c * p + d))
                    by (nonlinear_arith)
                    requires
                        b - d == lo as int - borrow as int * p,
                ;
            }
            let hi: u128 = self.hi - other.hi - borrow;
            let r = U256 { hi, lo };
            proof {
                U256::lemma_of_nat(r);
            }
            Some(r)
        }
    }

    /// The value in decimal digits.
    pub fn to_decimal(&self) -> (r: String)
        ensures
            r@ == decimal_text(self@),
    {
        let bytes = self.to_be_bytes();
        proof {
            self.lemma_be_bytes_value();
        }
        decimal(bytes)
    }

    /// The 32 bytes of the value, the most significant first.
    pub open spec fn be_bytes(&self) -> Seq<u8> {
        u128_be_bytes(self.hi) + u128_be_bytes(self.lo)
    }

    /// The 32 bytes of a value spell its number.
    pub proof fn lemma_be_bytes_value(self)
        ensures
            self.be_bytes().len() == 32,
            be_value(self.be_bytes()) == self@,
    {
        lemma_u128_be_value(self.hi);
        lemma_u128_be_value(self.lo);
        lemma_be_value_concat(u128_be_bytes(self.hi), u128_be_bytes(self.lo));
        reveal_with_fuel(byte_scale, 17);
        assert(byte_scale(16) == pow2_128());
    }

    /// Different values have different bytes.
    pub proof fn lemma_be_bytes_injective(self, other: U256)
        requires
            self.be_bytes() == other.be_bytes(),
        ensures
            self == other,
    {
        self.lemma_be_bytes_value();
        other.lemma_be_bytes_value();
        self.lemma_view_injective(other);
    }

    /// The value as a big-endian word.
    pub fn to_be_bytes(&self) -> (r: [u8; 32])
        ensures
            r@ == self.be_bytes(),
    {
        let mut bytes = [0u8; 32];
        let mut i: usize = 0;
        while i < 16
            invariant
                i <= 16,
                forall|j: int| 0 <= j < i ==> bytes[j] == u128_be_bytes(self.hi)[j],
                forall|j: int| 0 <= j < i ==> bytes[j + 16] == u128_be_bytes(self.lo)[j],
            decreases 16 - i,
        {
            let shift: u128 = 8 * (15 - i as u128);
            let hi = self.hi;
            let lo = self.lo;
            assert((hi >> shift) & 0xff <= 0xff) by (bit_vector);
            assert((lo >> shift) & 0xff <= 0xff) by (bit_vector);
            bytes[i] = ((hi >> shift) & 0xff) as u8;
            bytes[i + 16] = ((lo >> shift) & 0xff) as u8;
            i = i + 1;
        }
        assert(bytes@ =~= self.be_bytes());
        bytes
    }

    /// The value that stands for a number below two to the power of 256.
    pub open spec fn of_nat(n: nat) -> U256 {
        U256 { hi: (n / pow2_128()) as u128, lo: (n % pow2_128()) as u128 }
    }

    /// Different numbers that fit in 256 bits have different values.
    pub proof fn lemma_of_nat_injective(n: nat, m: nat)
        requires
            n <= u256_max(),
            m <= u256_max(),
            U256::of_nat(n) == U256::of_nat(m),
        ensures
            n == m,
    {
        let p = pow2_128() as int;
        let (a, b) = (n as int, m as int);
        assert(a == p * (a / p) + a % p && 0 <= a / p < p && 0 <= a % p < p) by (nonlinear_arith)
            requires
                0 <= a < p * p,
                p > 0,
        ;
        assert(b == p * (b / p) + b % p && 0 <= b / p < p && 0 <= b % p < p) by (nonlinear_arith)
            requires
                0 <= b < p * p,
                p > 0,
        ;
    }

    /// `of_nat` undoes the view.
    pub proof fn lemma_of_nat(v: U256)
        ensures
            U256::of_nat(v@) == v,
    {
        let p = pow2_128() as int;
        let (a, b) = (v.hi as int, v.lo as int);
        assert((a * p + b) / p == a && (a * p + b) % p == b) by (nonlinear_arith)
            requires
                0 <= b < p,
                0 <= a,
        ;
    }
}

} // verus!
