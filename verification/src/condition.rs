//! The conditions under which the funds of a wallet may be spent.

use crate::signer::Signer;
use crate::signer::SignerSet;
use vstd::prelude::*;

verus! {

/// What a spending condition says: which signers it names, and how many
/// signatures it asks for.
pub struct ConditionView {
    pub signers: Set<Signer>,
    pub required: u32,
}

/// One way to spend: signatures of `required` of the named signers.
#[derive(Debug, Hash)]
pub struct SpendingCondition {
    /// The signers whose signatures count.
    pub signers: SignerSet,
    /// How many signatures are asked for.
    pub required: u32,
}

impl View for SpendingCondition {
    type V = ConditionView;

    open spec fn view(&self) -> ConditionView {
        ConditionView { signers: self.signers@, required: self.required }
    }
}

impl Clone for SpendingCondition {
    fn clone(&self) -> (r: SpendingCondition)
        ensures
            r@ == self@,
            r.signers.wf(),
    {
        SpendingCondition { signers: self.signers.clone(), required: self.required }
    }
}

impl PartialEq for SpendingCondition {
    fn eq(&self, other: &SpendingCondition) -> (r: bool) {
        self.required == other.required && self.signers == other.signers
    }
}

impl Eq for SpendingCondition {

}

impl vstd::std_specs::cmp::PartialEqSpecImpl for SpendingCondition {
    open spec fn obeys_eq_spec() -> bool {
        true
    }

    open spec fn eq_spec(&self, other: &SpendingCondition) -> bool {
        self@ == other@
    }
}

/// What each condition of a sequence says, in the same order.
pub open spec fn condition_views(s: Seq<SpendingCondition>) -> Seq<ConditionView> {
    Seq::new(s.len(), |i: int| s[i]@)
}

} // verus!
