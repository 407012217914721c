//! The wallet: a descriptor together with what was done under it.

use crate::amount::Sats;
use crate::descriptor::DescriptorView;
use crate::descriptor::WalletDescriptor;
use vstd::prelude::*;

verus! {

/// A transaction on its way to being signed, or signed, kept as the bytes in
/// which it travels. The wallet looks at none of them.
#[derive(Debug, Hash)]
pub struct Psbt {
    pub bytes: Vec<u8>,
}

impl View for Psbt {
    type V = Seq<u8>;

    open spec fn view(&self) -> Seq<u8> {
        self.bytes@
    }
}

impl Clone for Psbt {
    fn clone(&self) -> (r: Psbt)
        ensures
            r@ == self@,
    {
        let bytes = self.bytes.clone();
        assert(bytes@ =~= self.bytes@);
        Psbt { bytes }
    }
}

impl PartialEq for Psbt {
    fn eq(&self, other: &Psbt) -> (r: bool) {
        let r = self.bytes == other.bytes;
        assert(r == (self.bytes@ =~= other.bytes@));
        r
    }
}

impl Eq for Psbt {

}

impl vstd::std_specs::cmp::PartialEqSpecImpl for Psbt {
    open spec fn obeys_eq_spec() -> bool {
        true
    }

    open spec fn eq_spec(&self, other: &Psbt) -> bool {
        self@ == other@
    }
}

/// The bytes of each transaction of a sequence, in the same order.
pub open spec fn psbt_views(s: Seq<Psbt>) -> Seq<Seq<u8>> {
    Seq::new(s.len(), |i: int| s[i]@)
}

/// What is known of a wallet's funds. It is worked out from the wallet's
/// history and set as a whole.
#[derive(Clone, Copy, Debug, PartialEq, Eq, Structural, Hash)]
pub struct WalletState {
    pub balance: Sats,
}

impl WalletState {
    /// The state of a wallet without history: nothing is owned.
    pub open spec fn empty() -> WalletState {
        WalletState { balance: Sats(0) }
    }
}

impl Default for WalletState {
    fn default() -> (r: WalletState)
        ensures
            r == WalletState::empty(),
    {
        WalletState { balance: Sats(0) }
    }
}

/// What a wallet holds.
pub struct WalletView {
    pub descriptor: DescriptorView,
    pub state: WalletState,
    pub history: Seq<Seq<u8>>,
    pub wip: Seq<Seq<u8>>,
}

impl WalletView {
    /// A wallet under the given descriptor under which nothing was done yet.
    pub open spec fn fresh(descriptor: DescriptorView) -> WalletView {
        WalletView {
            descriptor,
            state: WalletState::empty(),
            history: Seq::empty(),
            wip: Seq::empty(),
        }
    }
}

/// A descriptor, the state of the funds, the transactions that were made, in
/// the order in which they were made, and those that are being worked on.
///
/// State and transactions have their meaning under the descriptor only: none
/// of them outlives it.
#[derive(Debug)]
pub struct Wallet {
    descriptor: WalletDescriptor,
    state: WalletState,
    history: Vec<Psbt>,
    wip: Vec<Psbt>,
}

impl View for Wallet {
    type V = WalletView;

    closed spec fn view(&self) -> WalletView {
        WalletView {
            descriptor: self.descriptor@,
            state: self.state,
            history: psbt_views(self.history@),
            wip: psbt_views(self.wip@),
        }
    }
}

fn clone_psbts(v: &Vec<Psbt>) -> (r: Vec<Psbt>)
    ensures
        psbt_views(r@) == psbt_views(v@),
{
    let mut r: Vec<Psbt> = Vec::new();
    let mut i: usize = 0;
    while i < v.len()
        invariant
            i <= v.len(),
            r.len() == i,
            forall|k: int| 0 <= k < i ==> r@[k]@ == v@[k]@,
        decreases v.len() - i,
    {
        r.push(v[i].clone());
        i += 1;
    }
    assert(psbt_views(r@) =~= psbt_views(v@));
    r
}

fn same_psbts(a: &Vec<Psbt>, b: &Vec<Psbt>) -> (r: bool)
    ensures
        r == (psbt_views(a@) == psbt_views(b@)),
{
    if a.len() != b.len() {
        assert(psbt_views(a@).len() != psbt_views(b@).len());
        return false;
    }
    let mut i: usize = 0;
    while i < a.len()
        invariant
            i <= a.len(),
            a.len() == b.len(),
            forall|k: int| 0 <= k < i ==> a@[k]@ == b@[k]@,
        decreases a.len() - i,
    {
        if a[i] != b[i] {
            assert(psbt_views(a@)[i as int] != psbt_views(b@)[i as int]);
            return false;
        }
        i += 1;
    }
    assert(psbt_views(a@) =~= psbt_views(b@));
    true
}

impl Wallet {
    /// A wallet under the given descriptor: no funds, no transactions.
    pub fn with(descriptor: WalletDescriptor) -> (r: Wallet)
        ensures
            r@ == WalletView::fresh(descriptor@),
    {
        let r = Wallet {
            descriptor,
            state: WalletState::default(),
            history: Vec::new(),
            wip: Vec::new(),
        };
        assert(r@.history =~= Seq::<Seq<u8>>::empty());
        assert(r@.wip =~= Seq::<Seq<u8>>::empty());
        r
    }

    /// The descriptor of the wallet.
    pub fn as_descriptor(&self) -> (r: &WalletDescriptor)
        ensures
            r@ == self@.descriptor,
            r.wf(),
    {
        proof {
            use_type_invariant(&self.descriptor);
        }
        &self.descriptor
    }

    /// A copy of the descriptor of the wallet.
    pub fn to_descriptor(&self) -> (r: WalletDescriptor)
        ensures
            r@ == self@.descriptor,
            r.wf(),
    {
        let r = self.descriptor.clone();
        proof {
            use_type_invariant(&r);
        }
        r
    }

    /// Puts the wallet under another descriptor. What the wallet held under
    /// the old one goes with it, in the same step: the state is that of a
    /// wallet without history, and no transaction stays.
    pub fn set_descriptor(&mut self, descr: WalletDescriptor)
        ensures
            final(self)@ == WalletView::fresh(descr@),
    {
        self.state = WalletState::default();
        self.history.clear();
        self.wip.clear();
        self.descriptor = descr;
        assert(self@.history =~= Seq::<Seq<u8>>::empty());
        assert(self@.wip =~= Seq::<Seq<u8>>::empty());
    }

    /// What is known of the wallet's funds.
    pub fn state(&self) -> (r: &WalletState)
        ensures
            *r == self@.state,
    {
        &self.state
    }

    /// The transactions that were made, oldest first.
    pub fn history(&self) -> (r: &Vec<Psbt>)
        ensures
            psbt_views(r@) == self@.history,
    {
        &self.history
    }

    /// The transactions that are being worked on.
    pub fn wip(&self) -> (r: &Vec<Psbt>)
        ensures
            psbt_views(r@) == self@.wip,
    {
        &self.wip
    }

    /// Sets the state that was worked out from the history.
    pub fn update_state(&mut self, state: WalletState)
        ensures
            final(self)@ == (WalletView { state, ..old(self)@ }),
    {
        self.state = state;
    }

    /// Adds a transaction to the end of the history.
    pub fn push_history(&mut self, psbt: Psbt)
        ensures
            final(self)@ == (WalletView { history: old(self)@.history.push(psbt@), ..old(self)@ }),
    {
        self.history.push(psbt);
        assert(self@.history =~= old(self)@.history.push(psbt@));
    }

    /// Adds a transaction to those that are being worked on.
    pub fn push_wip(&mut self, psbt: Psbt)
        ensures
            final(self)@ == (WalletView { wip: old(self)@.wip.push(psbt@), ..old(self)@ }),
    {
        self.wip.push(psbt);
        assert(self@.wip =~= old(self)@.wip.push(psbt@));
    }
}

impl Default for Wallet {
    /// A wallet of which nothing was said yet.
    fn default() -> (r: Wallet)
        ensures
            r@ == WalletView::fresh(DescriptorView::unconfigured()),
    {
        Wallet::with(WalletDescriptor::default())
    }
}

impl Clone for Wallet {
    fn clone(&self) -> (r: Wallet)
        ensures
            r@ == self@,
    {
        Wallet {
            descriptor: self.descriptor.clone(),
            state: self.state,
            history: clone_psbts(&self.history),
            wip: clone_psbts(&self.wip),
        }
    }
}

impl PartialEq for Wallet {
    fn eq(&self, other: &Wallet) -> (r: bool) {
        self.descriptor == other.descriptor && self.state == other.state && same_psbts(
            &self.history,
            &other.history,
        ) && same_psbts(&self.wip, &other.wip)
    }
}

impl Eq for Wallet {

}

impl vstd::std_specs::cmp::PartialEqSpecImpl for Wallet {
    open spec fn obeys_eq_spec() -> bool {
        true
    }

    open spec fn eq_spec(&self, other: &Wallet) -> bool {
        self@ == other@
    }
}

} // verus!
