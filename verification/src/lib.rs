//! A wallet model: what a wallet derives and signs with (its descriptor), and
//! the aggregate that binds a descriptor to the transactions made under it.

pub mod amount;
pub mod condition;
pub mod descriptor;
pub mod format;
pub mod network;
pub mod purpose;
pub mod signer;
pub mod wallet;

pub use crate::amount::ArithmeticError;
pub use crate::amount::Sats;
pub use crate::condition::SpendingCondition;
pub use crate::descriptor::ValidationError;
pub use crate::descriptor::WalletDescriptor;
pub use crate::format::DescrVariants;
pub use crate::format::WalletFormat;
pub use crate::network::PublicNetwork;
pub use crate::purpose::Bip43;
pub use crate::purpose::UnrecognizedPurpose;
pub use crate::signer::Signer;
pub use crate::signer::SignerSet;
pub use crate::wallet::Psbt;
pub use crate::wallet::Wallet;
pub use crate::wallet::WalletState;
