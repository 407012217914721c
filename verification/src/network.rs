//! The networks on which a wallet may live.

use vstd::prelude::*;

verus! {

/// A public network. Keys derived for one network are of no use on another.
#[derive(Clone, Copy, Debug, PartialEq, Eq, Structural, PartialOrd, Ord, Hash)]
pub enum PublicNetwork {
    /// The network on which the asset has value.
    Mainnet,
    /// The public test network.
    Testnet,
    /// The test network whose blocks are signed.
    Signet,
}

impl Default for PublicNetwork {
    /// A wallet that was told nothing lives on the test network, where no
    /// funds can be lost.
    fn default() -> (r: PublicNetwork)
        ensures
            r == PublicNetwork::Testnet,
    {
        PublicNetwork::Testnet
    }
}

} // verus!
