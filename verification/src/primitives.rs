//! The plain values the channel works on: 20-byte addresses, 256-bit words
//! and the two roles.

use vstd::prelude::*;

verus! {

/// Which of the two parties a channel instance stands for.
#[derive(Clone, Copy, Debug, PartialEq, Eq, Structural)]
pub enum Party {
    A,
    B,
}

impl Party {
    /// The other role.
    pub open spec fn spec_other(self) -> Party {
        match self {
            Party::A => Party::B,
            Party::B => Party::A,
        }
    }

    /// The other role.
    pub fn other(self) -> (r: Party)
        ensures
            r == self.spec_other(),
            r != self,
    {
        match self {
            Party::A => Party::B,
            Party::B => Party::A,
        }
    }
}

/// A 20-byte account address.
#[derive(Clone, Copy, Debug, PartialEq, Eq, Hash)]
pub struct Address {
    pub bytes: [u8; 20],
}

impl View for Address {
    type V = Seq<u8>;

    open spec fn view(&self) -> Seq<u8> {
        self.bytes@
    }
}

impl Address {
    /// The address made of the given bytes.
    pub fn from_bytes(bytes: [u8; 20]) -> (r: Address)
        ensures
            r@ == bytes@,
    {
        Address { bytes }
    }

    /// The 20 bytes of the address.
    pub fn to_bytes(&self) -> (r: [u8; 20])
        ensures
            r@ == self@,
    {
        self.bytes
    }

    /// Whether two addresses hold the same bytes.
    pub fn same(&self, other: &Address) -> (r: bool)
        ensures
            r == (self@ == other@),
    {
        let mut i: usize = 0;
        while i < 20
            invariant
                i <= 20,
                forall|j: int| 0 <= j < i ==> self.bytes@[j] == other.bytes@[j],
            decreases 20 - i,
        {
            if self.bytes[i] != other.bytes[i] {
                return false;
            }
            i += 1;
        }
        assert(self.bytes@ =~= other.bytes@);
        true
    }
}

/// 2^64.
pub open spec fn pow64() -> int {
    0x1_0000_0000_0000_0000
}

/// 2^128.
pub open spec fn pow128() -> int {
    0x1_0000_0000_0000_0000_0000_0000_0000_0000int
}

/// 2^192.
pub open spec fn pow192() -> int {
    0x1_0000_0000_0000_0000_0000_0000_0000_0000_0000_0000_0000_0000int
}

/// 2^256.
pub open spec fn pow256() -> int {
    0x1_0000_0000_0000_0000_0000_0000_0000_0000_0000_0000_0000_0000_0000_0000_0000_0000int
}

/// The number that four 64-bit limbs stand for, least significant limb first.
pub open spec fn limbs_value(limbs: Seq<u64>) -> nat {
    (limbs[0] + limbs[1] * pow64() + limbs[2] * pow128() + limbs[3] * pow192()) as nat
}

/// The number that eight bytes stand for, most significant byte first.
pub open spec fn be64(bytes: Seq<u8>) -> nat {
    (bytes[0] * 0x100_0000_0000_0000 + bytes[1] * 0x1_0000_0000_0000 + bytes[2] * 0x100_0000_0000
        + bytes[3] * 0x1_0000_0000 + bytes[4] * 0x100_0000 + bytes[5] * 0x1_0000 + bytes[6] * 0x100
        + bytes[7]) as nat
}

/// The number that the 32 bytes of a word stand for, most significant byte
/// first.
pub open spec fn word_value(word: Seq<u8>) -> nat {
    (be64(word.subrange(24, 32)) + be64(word.subrange(16, 24)) * pow64() + be64(
        word.subrange(8, 16),
    ) * pow128() + be64(word.subrange(0, 8)) * pow192()) as nat
}

/// The signed 128-bit number held in the low half of a 256-bit word, read as
/// two's complement.
pub open spec fn low_signed(word: nat) -> int {
    let low = word as int % pow128();
    if low < pow128() / 2 {
        low
    } else {
        low - pow128()
    }
}

/// The 256-bit two's complement word of a signed number.
pub open spec fn sign_extended(v: int) -> nat {
    if v >= 0 {
        v as nat
    } else {
        (pow256() + v) as nat
    }
}

/// An unsigned 256-bit word, held as four 64-bit limbs, least significant
/// limb first.
#[derive(Clone, Copy, Debug, PartialEq, Eq, Hash)]
pub struct U256 {
    pub limbs: [u64; 4],
}

impl View for U256 {
    type V = nat;

    open spec fn view(&self) -> nat {
        limbs_value(self.limbs@)
    }
}

/// A number below 2^64 and a multiple of 2^64 on top of it: the parts are the
/// remainder and the quotient by 2^64.
proof fn lemma_split64(x: int, low: int, high: int)
    requires
        0 <= low < pow64(),
        x == low + high * pow64(),
    ensures
        low == x % pow64(),
        high == x / pow64(),
{
    vstd::arithmetic::div_mod::lemma_fundamental_div_mod_converse(x, pow64(), high, low);
}

/// Two words that stand for the same number have the same limbs.
pub proof fn lemma_limbs_injective(a: Seq<u64>, b: Seq<u64>)
    requires
        a.len() == 4,
        b.len() == 4,
        limbs_value(a) == limbs_value(b),
    ensures
        a =~= b,
{
    let a2: int = a[2] + a[3] * pow64();
    let b2: int = b[2] + b[3] * pow64();
    let a1: int = a[1] + a2 * pow64();
    let b1: int = b[1] + b2 * pow64();
    let x: int = limbs_value(a) as int;
    assert(x == a[0] + a1 * pow64());
    assert(x == b[0] + b1 * pow64());
    lemma_split64(x, a[0] as int, a1);
    lemma_split64(x, b[0] as int, b1);
    lemma_split64(a1, a[1] as int, a2);
    lemma_split64(a1, b[1] as int, b2);
    lemma_split64(a2, a[2] as int, a[3] as int);
    lemma_split64(a2, b[2] as int, b[3] as int);
}

/// Eight bytes as one limb, most significant byte first.
fn limb_of(bytes: &[u8; 32], at: usize) -> (r: u64)
    requires
        at + 8 <= 32,
    ensures
        r == be64(bytes@.subrange(at as int, at + 8)),
{
    let b0: u64 = bytes[at] as u64;
    let b1: u64 = bytes[at + 1] as u64;
    let b2: u64 = bytes[at + 2] as u64;
    let b3: u64 = bytes[at + 3] as u64;
    let b4: u64 = bytes[at + 4] as u64;
    let b5: u64 = bytes[at + 5] as u64;
    let b6: u64 = bytes[at + 6] as u64;
    let b7: u64 = bytes[at + 7] as u64;
    let r: u64 = (b0 << 56) | (b1 << 48) | (b2 << 40) | (b3 << 32) | (b4 << 24) | (b5 << 16) | (b6
        << 8) | b7;
    assert(r == b0 * 0x100_0000_0000_0000 + b1 * 0x1_0000_0000_0000 + b2 * 0x100_0000_0000 + b3
        * 0x1_0000_0000 + b4 * 0x100_0000 + b5 * 0x1_0000 + b6 * 0x100 + b7) by (bit_vector)
        requires
            r == (b0 << 56) | (b1 << 48) | (b2 << 40) | (b3 << 32) | (b4 << 24) | (b5 << 16) | (b6
                << 8) | b7,
            b0 < 256,
            b1 < 256,
            b2 < 256,
            b3 < 256,
            b4 < 256,
            b5 < 256,
            b6 < 256,
            b7 < 256,
    ;
    proof {
        let part = bytes@.subrange(at as int, at + 8);
        assert(part[0] == b0 && part[1] == b1 && part[2] == b2 && part[3] == b3 && part[4] == b4
            && part[5] == b5 && part[6] == b6 && part[7] == b7);
    }
    r
}

impl U256 {
    /// The word that 32 bytes stand for, most significant byte first.
    pub fn from_be_bytes(bytes: &[u8; 32]) -> (r: U256)
        ensures
            r@ == word_value(bytes@),
    {
        let l0 = limb_of(bytes, 24);
        let l1 = limb_of(bytes, 16);
        let l2 = limb_of(bytes, 8);
        let l3 = limb_of(bytes, 0);
        U256 { limbs: [l0, l1, l2, l3] }
    }

    /// The word with the given limbs, least significant first.
    pub fn from_limbs(limbs: [u64; 4]) -> (r: U256)
        ensures
            r.limbs@ == limbs@,
            r@ == limbs_value(limbs@),
    {
        U256 { limbs }
    }

    /// Zero.
    pub fn zero() -> (r: U256)
        ensures
            r@ == 0,
    {
        U256 { limbs: [0, 0, 0, 0] }
    }

    /// The word that stands for `v`.
    pub fn from_u64(v: u64) -> (r: U256)
        ensures
            r@ == v,
    {
        U256 { limbs: [v, 0, 0, 0] }
    }

    /// The word that stands for `v`.
    pub fn from_u128(v: u128) -> (r: U256)
        ensures
            r@ == v,
            r.limbs[2] == 0,
            r.limbs[3] == 0,
    {
        let lo: u64 = (v & 0xffff_ffff_ffff_ffff) as u64;
        let hi: u64 = (v >> 64) as u64;
        assert(lo as u128 + (hi as u128) * 0x1_0000_0000_0000_0000 == v) by (bit_vector)
            requires
                lo == (v & 0xffff_ffff_ffff_ffff) as u64,
                hi == (v >> 64) as u64,
        ;
        U256 { limbs: [lo, hi, 0, 0] }
    }

    /// The 256-bit two's complement word of `v`: the low half holds `v`, the
    /// high half repeats its sign.
    pub fn from_i128(v: i128) -> (r: U256)
        ensures
            r@ == sign_extended(v as int),
            low_signed(r@) == v,
    {
        if v >= 0 {
            let r = U256::from_u128(v as u128);
            assert(r@ as int % pow128() == v) by {
                vstd::arithmetic::div_mod::lemma_small_mod(v as nat, pow128() as nat);
            }
            r
        } else {
            let below: u128 = (-(v + 1)) as u128;
            let raw: u128 = u128::MAX - below;
            assert(raw == v + pow128());
            let low = U256::from_u128(raw);
            let r = U256 { limbs: [low.limbs[0], low.limbs[1], u64::MAX, u64::MAX] };
            assert(r@ == raw + pow256() - pow128()) by {
                assert(low.limbs[2] == 0 && low.limbs[3] == 0);
                assert(u64::MAX * pow128() + u64::MAX * pow192() == pow256() - pow128());
            }
            assert(r@ as int % pow128() == raw) by {
                let high: int = pow128() - 1;
                assert(r@ == raw + high * pow128());
                vstd::arithmetic::div_mod::lemma_fundamental_div_mod_converse(
                    r@ as int,
                    pow128(),
                    high,
                    raw as int,
                );
            }
            r
        }
    }

    /// The low 128 bits of the word.
    pub fn low_u128(&self) -> (r: u128)
        ensures
            r == self@ as int % pow128(),
    {
        let lo: u64 = self.limbs[0];
        let hi: u64 = self.limbs[1];
        let r: u128 = (lo as u128) | ((hi as u128) << 64);
        assert(r == lo as u128 + (hi as u128) * 0x1_0000_0000_0000_0000) by (bit_vector)
            requires
                r == (lo as u128) | ((hi as u128) << 64),
        ;
        proof {
            let low: int = lo + hi * pow64();
            let high: int = self.limbs[2] + self.limbs[3] * pow64();
            assert(self@ == low + high * pow128());
            vstd::arithmetic::div_mod::lemma_fundamental_div_mod_converse(
                self@ as int,
                pow128(),
                high,
                low,
            );
        }
        r
    }

    /// The low 64 bits of the word.
    pub fn low_u64(&self) -> (r: u64)
        ensures
            r == self@ as int % pow64(),
    {
        proof {
            let high: int = self.limbs[1] + (self.limbs[2] + self.limbs[3] * pow64()) * pow64();
            lemma_split64(self@ as int, self.limbs[0] as int, high);
        }
        self.limbs[0]
    }

    /// The low 128 bits of the word, read as a signed number.
    pub fn low_i128(&self) -> (r: i128)
        ensures
            r == low_signed(self@),
    {
        let low: u128 = self.low_u128();
        if low <= 0x7fff_ffff_ffff_ffff_ffff_ffff_ffff_ffff {
            low as i128
        } else {
            let below: u128 = u128::MAX - low;
            -(below as i128) - 1
        }
    }

    /// Whether two words stand for the same number.
    pub fn same(&self, other: &U256) -> (r: bool)
        ensures
            r == (self@ == other@),
    {
        let r = self.limbs[0] == other.limbs[0] && self.limbs[1] == other.limbs[1]
            && self.limbs[2] == other.limbs[2] && self.limbs[3] == other.limbs[3];
        proof {
            if self@ == other@ {
                lemma_limbs_injective(self.limbs@, other.limbs@);
            }
        }
        r
    }
}

} // verus!
