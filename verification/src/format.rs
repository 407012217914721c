//! The two ways in which a wallet may say how its keys and scripts are laid out.

use crate::purpose::Bip43;
use vstd::prelude::*;

verus! {

/// The kinds of output script that a wallet built on descriptors puts to use,
/// one flag for each kind.
#[derive(Clone, Copy, Debug, PartialEq, Eq, Structural, Hash)]
pub struct DescrVariants {
    pub bare: bool,
    pub hashed: bool,
    pub nested: bool,
    pub segwit: bool,
    pub taproot: bool,
}

/// How a wallet is laid out: by the script kinds of its descriptors, or by a
/// derivation scheme. A format is always exactly one of the two.
#[derive(Clone, Copy, Debug, PartialEq, Eq, Structural, Hash)]
pub enum WalletFormat {
    /// Laid out by descriptors of the given kinds.
    LnpBp(DescrVariants),
    /// Laid out by a derivation scheme.
    Bip43(Bip43),
}

impl Default for WalletFormat {
    /// A wallet that was told nothing is one of several signers with sorted
    /// keys and native witness scripts.
    fn default() -> (r: WalletFormat)
        ensures
            r == WalletFormat::Bip43(Bip43::Bip48Native),
            r == WalletFormat::Bip43(Bip43::multisig_segwit0()),
    {
        WalletFormat::Bip43(Bip43::Bip48Native)
    }
}

} // verus!
