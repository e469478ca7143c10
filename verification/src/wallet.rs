//! The values that the driver takes from and hands to its caller: addresses, wallet
//! descriptions, transactions and signatures.

use vstd::prelude::*;
use crate::uint::U256;

verus! {

/// `raw` brought to exactly `size` bytes: cut behind the `size`-th byte, or filled up with
/// zeros.
pub open spec fn spec_fit(raw: Seq<u8>, size: nat) -> Seq<u8> {
    Seq::new(
        size,
        |i: int|
            if i < raw.len() {
                raw[i]
            } else {
                0u8
            },
    )
}

/// Calls `H160::from` on a byte slice and hands out the hash's bytes: the first twenty
/// bytes of the slice, with zeros behind them where the slice is shorter.
#[verifier::external_body]
fn h160_from_slice(raw: &[u8]) -> (bytes: [u8; 20])
    ensures
        bytes@ == spec_fit(raw@, 20),
{
    ethcore_bigint::hash::H160::from(raw).0
}

/// Calls `H256::from_slice` and hands out the hash's bytes: the first 32 bytes of the
/// slice, with zeros behind them where the slice is shorter.
#[verifier::external_body]
fn h256_from_slice(raw: &[u8]) -> (bytes: [u8; 32])
    ensures
        bytes@ == spec_fit(raw@, 32),
{
    ethcore_bigint::hash::H256::from_slice(raw).0
}

/// The address of an account: twenty bytes.
#[derive(Debug, Clone, Copy)]
pub struct Address {
    pub bytes: [u8; 20],
}

impl View for Address {
    type V = Seq<u8>;

    open spec fn view(&self) -> Seq<u8> {
        self.bytes@
    }
}

impl Address {
    /// The address made of raw bytes: their first twenty, filled up with zeros.
    pub fn from_slice(raw: &[u8]) -> (address: Address)
        ensures
            address@ == spec_fit(raw@, 20),
    {
        Address { bytes: h160_from_slice(raw) }
    }

    /// Whether two addresses are the same twenty bytes.
    pub fn same_as(&self, other: &Address) -> (same: bool)
        ensures
            same == (self@ == other@),
    {
        let mut i: usize = 0;
        while i < 20
            invariant
                i <= 20,
                forall|k: int| 0 <= k < i ==> self.bytes@[k] == other.bytes@[k],
            decreases 20 - i,
        {
            if self.bytes[i] != other.bytes[i] {
                return false;
            }
            i += 1;
        }
        assert(self@ =~= other@);
        true
    }

    /// The twenty bytes, as a fresh vector.
    pub fn to_vec(&self) -> (bytes: Vec<u8>)
        ensures
            bytes@ == self@,
    {
        let mut bytes: Vec<u8> = Vec::new();
        let mut i: usize = 0;
        while i < 20
            invariant
                i <= 20,
                bytes@ =~= self@.subrange(0, i as int),
            decreases 20 - i,
        {
            bytes.push(self.bytes[i]);
            i += 1;
        }
        assert(bytes@ =~= self@);
        bytes
    }
}

/// A signature: `r`, `s`, and the recovery id that tells which of the two possible keys
/// signed.
#[derive(Debug, Clone, Copy)]
pub struct Signature {
    pub r: [u8; 32],
    pub s: [u8; 32],
    pub v: u8,
}

impl Signature {
    /// The signature with the given recovery id, whose `r` and `s` are the first 32 bytes
    /// of `r` and `s`, filled up with zeros.
    pub fn from_rsv(r: &[u8], s: &[u8], v: u8) -> (signature: Signature)
        ensures
            signature.r@ == spec_fit(r@, 32),
            signature.s@ == spec_fit(s@, 32),
            signature.v == v,
    {
        Signature { r: h256_from_slice(r), s: h256_from_slice(s), v }
    }
}

/// What is known of a wallet that answered an address query.
#[derive(Debug, Clone)]
pub struct WalletInfo {
    /// The product name.
    pub name: String,
    /// The manufacturer.
    pub manufacturer: String,
    /// The serial number.
    pub serial: String,
    /// The address at the selected derivation path.
    pub address: Address,
}

/// What a wallet description says, as plain text and bytes.
pub struct WalletInfoView {
    pub name: Seq<char>,
    pub manufacturer: Seq<char>,
    pub serial: Seq<char>,
    pub address: Seq<u8>,
}

impl View for WalletInfo {
    type V = WalletInfoView;

    open spec fn view(&self) -> WalletInfoView {
        WalletInfoView {
            name: self.name@,
            manufacturer: self.manufacturer@,
            serial: self.serial@,
            address: self.address@,
        }
    }
}

impl WalletInfo {
    /// A copy of the description.
    pub fn duplicate(&self) -> (copy: WalletInfo)
        ensures
            copy@ == self@,
    {
        WalletInfo {
            name: self.name.clone(),
            manufacturer: self.manufacturer.clone(),
            serial: self.serial.clone(),
            address: self.address,
        }
    }
}

/// A transaction to sign.
#[derive(Debug, Clone)]
pub struct TransactionInfo {
    /// Nonce.
    pub nonce: U256,
    /// Gas limit.
    pub gas_limit: U256,
    /// Gas price.
    pub gas_price: U256,
    /// Receiver, where there is one.
    pub to: Option<Address>,
    /// Value.
    pub value: U256,
    /// Data.
    pub data: Vec<u8>,
    /// The chain id, where replay protection is wanted.
    pub network_id: Option<u64>,
}

} // verus!
