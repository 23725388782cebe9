//! Plain values shared by every module: addresses, hashes and 256-bit words.

use vstd::prelude::*;

verus! {

/// A 20-byte account address.
pub type Address = [u8; 20];

/// A 32-byte hash.
pub type B256 = [u8; 32];

/// A 256-bit unsigned integer as four 64-bit limbs, the least significant first.
pub type U256 = [u64; 4];

/// A trie path: the nibbles packed into a word, and how many of them there are.
pub type Nibbles = (U256, u8);

/// Contract code, as the bytes that were deployed.
pub type Bytecode = Vec<u8>;

/// A trie node in its stored, encoded form.
pub type Node = Vec<u8>;

/// The hash of no bytes at all: the code hash of an account without code.
pub const KECCAK_EMPTY: B256 = [
    0xc5, 0xd2, 0x46, 0x01, 0x86, 0xf7, 0x23, 0x3c, 0x92, 0x7e, 0x7d, 0xb2, 0xdc, 0xc7, 0x03, 0xc0,
    0xe5, 0x00, 0xb6, 0x53, 0xca, 0x82, 0x27, 0x3b, 0x7b, 0xfa, 0xd8, 0x04, 0x5d, 0x85, 0xa4, 0x70,
];

/// The root hash of a trie without any entry.
pub const EMPTY_ROOT_HASH: B256 = [
    0x56, 0xe8, 0x1f, 0x17, 0x1b, 0xcc, 0x55, 0xa6, 0xff, 0x83, 0x45, 0xe6, 0x92, 0xc0, 0xf8, 0x6e,
    0x5b, 0x48, 0xe0, 0x1b, 0x99, 0x6c, 0xad, 0xc0, 0x01, 0x62, 0x2f, 0xb5, 0xe3, 0x63, 0xb4, 0x21,
];

/// The withdrawals root of a block without withdrawals.
pub const EMPTY_WITHDRAWALS: B256 = [
    0x56, 0xe8, 0x1f, 0x17, 0x1b, 0xcc, 0x55, 0xa6, 0xff, 0x83, 0x45, 0xe6, 0x92, 0xc0, 0xf8, 0x6e,
    0x5b, 0x48, 0xe0, 0x1b, 0x99, 0x6c, 0xad, 0xc0, 0x01, 0x62, 0x2f, 0xb5, 0xe3, 0x63, 0xb4, 0x21,
];

/// The ommers hash of a block without ommers.
pub const EMPTY_OMMER_ROOT_HASH: B256 = [
    0x1d, 0xcc, 0x4d, 0xe8, 0xde, 0xc7, 0x5d, 0x7a, 0xab, 0x85, 0xb5, 0x67, 0xb6, 0xcc, 0xd4, 0x1a,
    0xd3, 0x12, 0x45, 0x1b, 0x94, 0x8a, 0x74, 0x13, 0xf0, 0xa1, 0x42, 0xfd, 0x40, 0xd4, 0x93, 0x47,
];

/// The header nonce of every block since the merge.
pub const BEACON_NONCE: [u8; 8] = [0, 0, 0, 0, 0, 0, 0, 0];

/// The hash of all zeros.
pub const ZERO_HASH: B256 = [
    0, 0, 0, 0, 0, 0, 0, 0, 0, 0, 0, 0, 0, 0, 0, 0, 0, 0, 0, 0, 0, 0, 0, 0, 0, 0, 0, 0, 0, 0, 0, 0,
];

/// The integer zero.
pub const U256_ZERO: U256 = [0, 0, 0, 0];

/// How many values a 64-bit limb takes.
pub open spec fn limb_base() -> nat {
    0x1_0000_0000_0000_0000
}

/// The integer that `x` stands for.
pub open spec fn u256_value(x: U256) -> nat {
    (x[0] + limb_base() * (x[1] + limb_base() * (x[2] + limb_base() * x[3]))) as nat
}

/// Whether `x` is zero.
pub fn u256_is_zero(x: &U256) -> (r: bool)
    ensures
        r == (u256_value(*x) == 0),
        r == (*x == U256_ZERO),
{
    let r = x[0] == 0 && x[1] == 0 && x[2] == 0 && x[3] == 0;
    proof {
        if r {
            assert(*x =~= U256_ZERO);
        }
    }
    r
}

/// Whether `x` and `y` are the same integer.
pub fn u256_eq(x: &U256, y: &U256) -> (r: bool)
    ensures
        r == (*x == *y),
        r == (u256_value(*x) == u256_value(*y)),
{
    let r = x[0] == y[0] && x[1] == y[1] && x[2] == y[2] && x[3] == y[3];
    proof {
        if r {
            assert(*x =~= *y);
        } else {
            lemma_u256_value_injective(*x, *y);
        }
    }
    r
}

/// Two words that stand for the same integer are the same word.
pub proof fn lemma_u256_value_injective(x: U256, y: U256)
    ensures
        u256_value(x) == u256_value(y) <==> x == y,
{
    if u256_value(x) == u256_value(y) {
        let b = limb_base() as int;
        let (x1, y1) = (x[1] + b * (x[2] + b * x[3]), y[1] + b * (y[2] + b * y[3]));
        let (x2, y2) = (x[2] + b * x[3], y[2] + b * y[3]);
        assert(x[0] == y[0] && x1 == y1);
        assert(x[1] == y[1] && x2 == y2);
        assert(x[2] == y[2] && x[3] == y[3]);
        assert(x =~= y);
    }
}

/// The limbs of a 256-bit integer are its digits to the base of two to the power of 64.
pub proof fn law_limbs_are_digits(x: U256)
    ensures
        u256_value(x) == x[0] + x[1] * 0x1_0000_0000_0000_0000nat + x[2]
            * 0x1_0000_0000_0000_0000_0000_0000_0000_0000nat + x[3]
            * 0x1_0000_0000_0000_0000_0000_0000_0000_0000_0000_0000_0000_0000nat,
        u256_value(U256_ZERO) == 0,
{
}

/// Whether `x` and `y` are the same hash.
pub fn b256_eq(x: &B256, y: &B256) -> (r: bool)
    ensures
        r == (*x == *y),
{
    let mut i: usize = 0;
    while i < 32
        invariant
            i <= 32,
            forall|j: int| 0 <= j < i ==> x[j] == y[j],
        decreases 32 - i,
    {
        if x[i] != y[i] {
            return false;
        }
        i += 1;
    }
    assert(*x =~= *y);
    true
}

/// A copy of `bytes`.
pub fn copy_bytes(bytes: &Vec<u8>) -> (r: Vec<u8>)
    ensures
        r@ == bytes@,
{
    let r = bytes.clone();
    assert(r@ =~= bytes@);
    r
}

} // verus!
