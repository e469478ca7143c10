//! 256-bit unsigned integers and the byte form in which the device takes them.
//!
//! The device wants an integer field as the shortest big-endian byte string of its value
//! (none at all for zero). The general-purpose RLP encoder produces that string behind a
//! length prefix, so the field is the RLP item of the integer with the prefix taken off.

use vstd::prelude::*;

verus! {

/// An unsigned 256-bit integer, as four 64-bit limbs, the least significant first.
#[derive(Debug, Clone, Copy)]
pub struct U256 {
    pub limbs: [u64; 4],
}

impl View for U256 {
    type V = nat;

    /// The value of the integer.
    open spec fn view(&self) -> nat {
        (self.limbs@[0] as int + self.limbs@[1] as int * 0x1_0000_0000_0000_0000
            + self.limbs@[2] as int * 0x1_0000_0000_0000_0000_0000_0000_0000_0000
            + self.limbs@[3] as int
            * 0x1_0000_0000_0000_0000_0000_0000_0000_0000_0000_0000_0000_0000) as nat
    }
}

impl U256 {
    /// The integer zero.
    pub fn zero() -> (z: U256)
        ensures
            z@ == 0,
    {
        U256 { limbs: [0u64, 0u64, 0u64, 0u64] }
    }

    /// The integer with the value of `v`.
    pub fn from_u64(v: u64) -> (n: U256)
        ensures
            n@ == v,
    {
        U256 { limbs: [v, 0u64, 0u64, 0u64] }
    }
}

/// The shortest big-endian byte string of `n`; empty for zero.
pub open spec fn spec_be_bytes(n: nat) -> Seq<u8>
    decreases n,
{
    if n == 0 {
        Seq::empty()
    } else {
        spec_be_bytes(n / 256).push((n % 256) as u8)
    }
}

/// The RLP item of an integer whose shortest byte string has at most 55 bytes: a single
/// byte below `0x80` stands for itself, every other string follows a prefix byte of
/// `0x80` plus its length.
pub open spec fn spec_rlp_uint(n: nat) -> Seq<u8> {
    let digits = spec_be_bytes(n);
    if digits.len() == 1 && digits[0] < 0x80 {
        digits
    } else {
        seq![(0x80 + digits.len()) as u8] + digits
    }
}

/// 256 to the power of `k`.
pub open spec fn spec_pow256(k: nat) -> nat
    decreases k,
{
    if k == 0 {
        1
    } else {
        256 * spec_pow256((k - 1) as nat)
    }
}

/// An integer below `256^k` has at most `k` digits.
pub proof fn lemma_be_bytes_len(n: nat, k: nat)
    requires
        n < spec_pow256(k),
    ensures
        spec_be_bytes(n).len() <= k,
    decreases k,
{
    if n != 0 {
        assert(k != 0);
        lemma_be_bytes_len(n / 256, (k - 1) as nat);
    }
}

/// A 256-bit integer has at most 32 digits.
pub proof fn lemma_u256_digits(value: U256)
    ensures
        spec_be_bytes(value@).len() <= 32,
{
    assert(spec_pow256(8) == 0x1_0000_0000_0000_0000) by {
        reveal_with_fuel(spec_pow256, 9);
    }
    assert(spec_pow256(16) == 0x1_0000_0000_0000_0000_0000_0000_0000_0000) by {
        reveal_with_fuel(spec_pow256, 9);
    }
    assert(spec_pow256(24) == 0x1_0000_0000_0000_0000_0000_0000_0000_0000_0000_0000_0000_0000)
        by {
        reveal_with_fuel(spec_pow256, 9);
    }
    assert(spec_pow256(32)
        == 0x1_0000_0000_0000_0000_0000_0000_0000_0000_0000_0000_0000_0000_0000_0000_0000_0000)
        by {
        reveal_with_fuel(spec_pow256, 9);
    }
    lemma_be_bytes_len(value@, 32);
}

/// Calls `rlp::encode` on the integer, made into the encoder's own 256-bit type limb by
/// limb. The result is the RLP item of the integer's value: its shortest big-endian byte
/// string, alone if it is one byte below `0x80`, else behind the prefix `0x80 + length`.
#[verifier::external_body]
fn rlp_encode(value: &U256) -> (item: Vec<u8>)
    ensures
        item@ == spec_rlp_uint(value@),
{
    rlp::encode(&ethcore_bigint::prelude::U256(value.limbs)).to_vec()
}

/// Encodes an integer field for the device: the shortest big-endian byte string of the
/// value, with no length prefix; the empty string for zero.
///
/// The string is what the RLP encoder makes of the integer, less the prefix byte where
/// the encoder put one; a value below `0x80` comes from the encoder as its own single
/// byte and stays as it is.
pub fn encode_uint(value: &U256) -> (field: Vec<u8>)
    ensures
        field@ == spec_be_bytes(value@),
{
    let mut item = rlp_encode(value);
    proof {
        lemma_u256_digits(*value);
    }
    if item.len() > 0 && item[0] >= 0x80 {
        item.remove(0);
        assert(item@ =~= spec_be_bytes(value@));
    }
    item
}

} // verus!
