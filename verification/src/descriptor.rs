//! Wallet descriptors: what a wallet derives its keys from and who may spend.

use crate::condition::condition_views;
use crate::condition::ConditionView;
use crate::condition::SpendingCondition;
use crate::format::WalletFormat;
use crate::network::PublicNetwork;
use crate::purpose::Bip43;
use crate::signer::Signer;
use crate::signer::SignerSet;
use vstd::prelude::*;
use vstd::std_specs::cmp::PartialEqSpec;

verus! {

/// Why a descriptor could not be made of its parts.
#[derive(Clone, Copy, Debug, PartialEq, Eq, Structural, Hash)]
pub enum ValidationError {
    /// A spending condition names a signer that is not among the signers.
    UnknownSigner,
    /// A spending condition asks for more signatures than there are signers.
    InsufficientSigners,
}

/// What a descriptor says. Two descriptors that say the same are the same
/// descriptor to every user of this library.
pub struct DescriptorView {
    pub format: WalletFormat,
    pub signers: Set<Signer>,
    pub conditions: Seq<ConditionView>,
    pub network: PublicNetwork,
}

impl DescriptorView {
    /// Whether every signer that a condition names is among the signers.
    pub open spec fn names_known_signers(self) -> bool {
        forall|i: int|
            0 <= i < self.conditions.len() ==> (#[trigger] self.conditions[i]).signers.subset_of(
                self.signers,
            )
    }

    /// Whether no condition asks for more signatures than there are signers.
    pub open spec fn has_enough_signers(self) -> bool {
        forall|i: int|
            0 <= i < self.conditions.len() ==> (#[trigger] self.conditions[i]).required
                <= self.signers.len()
    }

    /// Whether the parts agree with one another.
    pub open spec fn valid(self) -> bool {
        self.names_known_signers() && self.has_enough_signers()
    }

    /// What the descriptor of a wallet says of which nothing was said yet.
    pub open spec fn unconfigured() -> DescriptorView {
        DescriptorView {
            format: WalletFormat::Bip43(Bip43::Bip48Native),
            signers: Set::empty(),
            conditions: Seq::empty(),
            network: PublicNetwork::Testnet,
        }
    }
}

/// The format, the signers, the spending conditions and the network of a
/// wallet. A descriptor is made as a whole and replaced as a whole; its parts
/// always agree with one another.
#[derive(Debug, Hash)]
pub struct WalletDescriptor {
    format: WalletFormat,
    signers: SignerSet,
    conditions: Vec<SpendingCondition>,
    network: PublicNetwork,
}

impl View for WalletDescriptor {
    type V = DescriptorView;

    closed spec fn view(&self) -> DescriptorView {
        DescriptorView {
            format: self.format,
            signers: self.signers@,
            conditions: condition_views(self.conditions@),
            network: self.network,
        }
    }
}

impl WalletDescriptor {
    /// Whether the parts of the descriptor agree with one another. They do
    /// in every descriptor that a program holds.
    #[verifier::type_invariant]
    pub open spec fn wf(&self) -> bool {
        self@.valid()
    }

    /// Makes a descriptor of its four parts, if they agree: every signer that
    /// a condition names has to be among the signers, and no condition may ask
    /// for more signatures than there are signers. The first is looked at
    /// first.
    pub fn with(
        format: WalletFormat,
        signers: SignerSet,
        conditions: Vec<SpendingCondition>,
        network: PublicNetwork,
    ) -> (r: Result<WalletDescriptor, ValidationError>)
        ensures
            ({
                let parts = DescriptorView {
                    format,
                    signers: signers@,
                    conditions: condition_views(conditions@),
                    network,
                };
                match r {
                    Ok(d) => parts.valid() && d@ == parts,
                    Err(ValidationError::UnknownSigner) => !parts.names_known_signers(),
                    Err(ValidationError::InsufficientSigners) => parts.names_known_signers()
                        && !parts.has_enough_signers(),
                }
            }),
    {
        let ghost parts = DescriptorView {
            format,
            signers: signers@,
            conditions: condition_views(conditions@),
            network,
        };
        let mut i: usize = 0;
        while i < conditions.len()
            invariant
                i <= conditions.len(),
                parts == (DescriptorView {
                    format,
                    signers: signers@,
                    conditions: condition_views(conditions@),
                    network,
                }),
                forall|k: int| 0 <= k < i ==> (#[trigger] parts.conditions[k]).signers.subset_of(parts.signers),
            decreases conditions.len() - i,
        {
            if !conditions[i].signers.is_subset(&signers) {
                assert(!parts.conditions[i as int].signers.subset_of(parts.signers));
                return Err(ValidationError::UnknownSigner);
            }
            i += 1;
        }
        let count: usize = signers.len();
        let mut j: usize = 0;
        while j < conditions.len()
            invariant
                j <= conditions.len(),
                count == parts.signers.len(),
                parts == (DescriptorView {
                    format,
                    signers: signers@,
                    conditions: condition_views(conditions@),
                    network,
                }),
                parts.names_known_signers(),
                forall|k: int| 0 <= k < j ==> (#[trigger] parts.conditions[k]).required <= count,
            decreases conditions.len() - j,
        {
            if conditions[j].required as u64 > count as u64 {
                assert(parts.conditions[j as int].required > parts.signers.len());
                return Err(ValidationError::InsufficientSigners);
            }
            j += 1;
        }
        Ok(WalletDescriptor { format, signers, conditions, network })
    }

    /// How the wallet is laid out.
    pub fn format(&self) -> (r: WalletFormat)
        ensures
            r == self@.format,
    {
        self.format
    }

    /// The signers of the wallet.
    pub fn signers(&self) -> (r: &SignerSet)
        ensures
            r@ == self@.signers,
            r.wf(),
    {
        proof {
            use_type_invariant(&self.signers);
        }
        &self.signers
    }

    /// The spending conditions of the wallet, in their order.
    pub fn conditions(&self) -> (r: &Vec<SpendingCondition>)
        ensures
            condition_views(r@) == self@.conditions,
    {
        &self.conditions
    }

    /// The network on which the wallet lives.
    pub fn network(&self) -> (r: PublicNetwork)
        ensures
            r == self@.network,
    {
        self.network
    }
}

impl Default for WalletDescriptor {
    /// The descriptor of a wallet of which nothing was said yet: no signers,
    /// no conditions, and the format and the network that stand for "none
    /// given".
    fn default() -> (r: WalletDescriptor)
        ensures
            r@ == DescriptorView::unconfigured(),
    {
        let r = WalletDescriptor {
            format: WalletFormat::default(),
            signers: SignerSet::new(),
            conditions: Vec::new(),
            network: PublicNetwork::default(),
        };
        assert(r@.conditions =~= Seq::<ConditionView>::empty());
        r
    }
}

impl Clone for WalletDescriptor {
    fn clone(&self) -> (r: WalletDescriptor)
        ensures
            r@ == self@,
    {
        proof {
            use_type_invariant(self);
        }
        let mut conditions: Vec<SpendingCondition> = Vec::new();
        let mut i: usize = 0;
        while i < self.conditions.len()
            invariant
                i <= self.conditions.len(),
                conditions.len() == i,
                forall|k: int| 0 <= k < i ==> conditions@[k]@ == self.conditions@[k]@,
            decreases self.conditions.len() - i,
        {
            conditions.push(self.conditions[i].clone());
            i += 1;
        }
        assert(condition_views(conditions@) =~= condition_views(self.conditions@));
        WalletDescriptor {
            format: self.format,
            signers: self.signers.clone(),
            conditions,
            network: self.network,
        }
    }
}

impl PartialEq for WalletDescriptor {
    fn eq(&self, other: &WalletDescriptor) -> (r: bool) {
        if self.format != other.format || self.network != other.network {
            return false;
        }
        if self.signers != other.signers {
            return false;
        }
        if self.conditions.len() != other.conditions.len() {
            assert(self@.conditions.len() != other@.conditions.len());
            return false;
        }
        let mut i: usize = 0;
        while i < self.conditions.len()
            invariant
                i <= self.conditions.len(),
                self.conditions.len() == other.conditions.len(),
                forall|k: int| 0 <= k < i ==> self.conditions@[k]@ == other.conditions@[k]@,
            decreases self.conditions.len() - i,
        {
            if self.conditions[i] != other.conditions[i] {
                assert(self@.conditions[i as int] != other@.conditions[i as int]);
                return false;
            }
            i += 1;
        }
        assert(self@.conditions =~= other@.conditions);
        true
    }
}

impl Eq for WalletDescriptor {

}

impl vstd::std_specs::cmp::PartialEqSpecImpl for WalletDescriptor {
    open spec fn obeys_eq_spec() -> bool {
        true
    }

    open spec fn eq_spec(&self, other: &WalletDescriptor) -> bool {
        self@ == other@
    }
}

/// Two descriptors are the same if and only if they have the same format,
/// the same signers, the same conditions in the same order, and the same
/// network: a change to any one of the four makes another descriptor.
pub proof fn lemma_equal_by_parts(a: WalletDescriptor, b: WalletDescriptor)
    ensures
        a.eq_spec(&b) <==> {
            &&& a@.format == b@.format
            &&& a@.signers == b@.signers
            &&& a@.conditions == b@.conditions
            &&& a@.network == b@.network
        },
{
}

} // verus!
