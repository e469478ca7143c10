//! Key derivation paths.

use vstd::prelude::*;

verus! {

/// Key derivation paths used on the wallet.
#[derive(Debug, Clone, Copy, PartialEq, Eq, Structural)]
pub enum KeyPath {
    /// Ethereum.
    Ethereum,
    /// Ethereum classic.
    EthereumClassic,
}

impl KeyPath {
    /// The four derivation indices of the path: `m/44'/60'/0'/0` for Ethereum,
    /// `m/44'/61'/0'/0` for Ethereum classic.
    pub open spec fn spec_derivation_path(self) -> Seq<u32> {
        match self {
            KeyPath::Ethereum => seq![0x8000_002Cu32, 0x8000_003Cu32, 0x8000_0000u32, 0u32],
            KeyPath::EthereumClassic => seq![0x8000_002Cu32, 0x8000_003Du32, 0x8000_0000u32, 0u32],
        }
    }

    /// Returns the derivation indices that every address query and sign request carries.
    pub fn derivation_path(self) -> (path: Vec<u32>)
        ensures
            path@ == self.spec_derivation_path(),
    {
        let coin: u32 = match self {
            KeyPath::Ethereum => 0x8000_003C,
            KeyPath::EthereumClassic => 0x8000_003D,
        };
        let mut path: Vec<u32> = Vec::new();
        path.push(0x8000_002C);
        path.push(coin);
        path.push(0x8000_0000);
        path.push(0);
        assert(path@ =~= self.spec_derivation_path());
        path
    }
}

} // verus!
