//! Signers, and sets of them.

use vstd::prelude::*;

verus! {

/// A party whose key takes part in a wallet, known by the fingerprint of its
/// master key. Signers are ordered by their fingerprints.
#[derive(Clone, Copy, Debug, PartialEq, Eq, Structural, PartialOrd, Ord, Hash)]
pub struct Signer {
    pub fingerprint: u32,
}

/// Whether each signer of a sequence is below all that follow it.
pub open spec fn increasing(s: Seq<Signer>) -> bool {
    forall|i: int, j: int| 0 <= i < j < s.len() ==> s[i].fingerprint < s[j].fingerprint
}

/// A set of signers. No signer is held twice, and the signers are kept in
/// ascending order, so that two sets with the same signers are alike in
/// every respect.
#[derive(Debug, Hash)]
pub struct SignerSet {
    items: Vec<Signer>,
}

impl View for SignerSet {
    type V = Set<Signer>;

    open spec fn view(&self) -> Set<Signer> {
        self.seq().to_set()
    }
}

impl SignerSet {
    /// The signers of the set in ascending order.
    pub closed spec fn seq(&self) -> Seq<Signer> {
        self.items@
    }

    /// Whether the set is in order. Every set that a program holds is.
    #[verifier::type_invariant]
    pub open spec fn wf(&self) -> bool {
        increasing(self.seq())
    }

    /// The set without signers.
    pub fn new() -> (r: SignerSet)
        ensures
            r.wf(),
            r.seq() == Seq::<Signer>::empty(),
            r@ == Set::<Signer>::empty(),
    {
        let r = SignerSet { items: Vec::new() };
        assert(r@ =~= Set::<Signer>::empty());
        r
    }

    /// How many signers the set holds.
    pub fn len(&self) -> (r: usize)
        ensures
            r == self@.len(),
            r == self.seq().len(),
    {
        proof {
            use_type_invariant(self);
            lemma_increasing_is_unique(self.seq());
            self.seq().unique_seq_to_set();
        }
        self.items.len()
    }

    /// Whether the set holds no signer.
    pub fn is_empty(&self) -> (r: bool)
        ensures
            r == (self@ == Set::<Signer>::empty()),
            r == (self.seq().len() == 0),
    {
        proof {
            if self.seq().len() == 0 {
                assert(self@ =~= Set::<Signer>::empty());
            } else {
                assert(self@.contains(self.seq()[0]));
            }
        }
        self.items.len() == 0
    }

    /// How many signers of the set are below a given one.
    fn rank(&self, signer: &Signer) -> (r: usize)
        ensures
            r <= self.seq().len(),
            forall|i: int| 0 <= i < r ==> self.seq()[i].fingerprint < signer.fingerprint,
            forall|i: int| r <= i < self.seq().len() ==> self.seq()[i].fingerprint >= signer.fingerprint,
    {
        proof {
            use_type_invariant(self);
        }
        let mut lo: usize = 0;
        let mut hi: usize = self.items.len();
        while lo < hi
            invariant
                lo <= hi <= self.items.len(),
                increasing(self.items@),
                forall|i: int| 0 <= i < lo ==> self.items@[i].fingerprint < signer.fingerprint,
                forall|i: int|
                    hi <= i < self.items.len() ==> self.items@[i].fingerprint >= signer.fingerprint,
            decreases hi - lo,
        {
            let mid: usize = lo + (hi - lo) / 2;
            if self.items[mid].fingerprint < signer.fingerprint {
                lo = mid + 1;
            } else {
                hi = mid;
            }
        }
        lo
    }

    /// Whether a signer is in the set.
    pub fn contains(&self, signer: &Signer) -> (r: bool)
        ensures
            r == self@.contains(*signer),
    {
        proof {
            use_type_invariant(self);
        }
        let k: usize = self.rank(signer);
        let r = k < self.items.len() && self.items[k].fingerprint == signer.fingerprint;
        proof {
            if r {
                assert(self.seq()[k as int] == *signer);
            }
        }
        r
    }

    /// Puts a signer into the set. Returns whether the signer is new to the
    /// set; a signer that the set holds already is not held twice.
    pub fn insert(&mut self, signer: Signer) -> (r: bool)
        ensures
            final(self).wf(),
            final(self)@ == old(self)@.insert(signer),
            r == !old(self)@.contains(signer),
    {
        proof {
            use_type_invariant(&*self);
        }
        let k: usize = self.rank(&signer);
        if k < self.items.len() && self.items[k].fingerprint == signer.fingerprint {
            proof {
                assert(self.seq()[k as int] == signer);
                assert(self@ =~= self@.insert(signer));
            }
            false
        } else {
            let ghost before = self.items@;
            let mut items: Vec<Signer> = Vec::new();
            core::mem::swap(&mut self.items, &mut items);
            items.insert(k, signer);
            self.items = items;
            proof {
                let after = self.items@;
                assert(after == before.insert(k as int, signer));
                assert forall|i: int, j: int| 0 <= i < j < after.len() implies after[i].fingerprint
                    < after[j].fingerprint by {
                    if i < k && j > k {
                        assert(after[j] == before[j - 1]);
                    }
                }
                assert forall|x: Signer| after.to_set().contains(x) <==> before.to_set().insert(
                    signer,
                ).contains(x) by {
                    if after.to_set().contains(x) {
                        let i = choose|i: int| 0 <= i < after.len() && after[i] == x;
                        if i < k {
                            assert(before[i] == x);
                        } else if i > k {
                            assert(before[i - 1] == x);
                        }
                    }
                    if before.to_set().contains(x) {
                        let i = choose|i: int| 0 <= i < before.len() && before[i] == x;
                        if i < k {
                            assert(after[i] == x);
                        } else {
                            assert(after[i + 1] == x);
                        }
                    }
                    if x == signer {
                        assert(after[k as int] == x);
                    }
                }
                assert(after.to_set() =~= before.to_set().insert(signer));
            }
            true
        }
    }

    /// Whether every signer of this set is in another set.
    pub fn is_subset(&self, other: &SignerSet) -> (r: bool)
        ensures
            r == self@.subset_of(other@),
    {
        let mut i: usize = 0;
        while i < self.items.len()
            invariant
                i <= self.items.len(),
                forall|k: int| 0 <= k < i ==> other@.contains(self.items@[k]),
            decreases self.items.len() - i,
        {
            if !other.contains(&self.items[i]) {
                proof {
                    assert(self@.contains(self.seq()[i as int]));
                }
                return false;
            }
            i += 1;
        }
        true
    }

    /// The signers of the set in ascending order.
    pub fn to_vec(&self) -> (r: Vec<Signer>)
        ensures
            r@ == self.seq(),
            increasing(r@),
    {
        proof {
            use_type_invariant(self);
        }
        let r = self.items.clone();
        assert(r@ =~= self.items@);
        r
    }
}

impl Clone for SignerSet {
    fn clone(&self) -> (r: SignerSet)
        ensures
            r.wf(),
            r.seq() == self.seq(),
            r@ == self@,
    {
        proof {
            use_type_invariant(self);
        }
        let items = self.items.clone();
        assert(items@ =~= self.items@);
        SignerSet { items }
    }
}

impl Default for SignerSet {
    fn default() -> (r: SignerSet)
        ensures
            r.wf(),
            r@ == Set::<Signer>::empty(),
    {
        SignerSet::new()
    }
}

impl PartialEq for SignerSet {
    fn eq(&self, other: &SignerSet) -> (r: bool) {
        proof {
            use_type_invariant(self);
            use_type_invariant(other);
            lemma_order_is_canonical(self.seq(), other.seq());
        }
        if self.items.len() != other.items.len() {
            return false;
        }
        let mut i: usize = 0;
        while i < self.items.len()
            invariant
                i <= self.items.len(),
                self.items.len() == other.items.len(),
                self.items@ == other.items@ <==> self@ == other@,
                forall|k: int| 0 <= k < i ==> self.items@[k] == other.items@[k],
            decreases self.items.len() - i,
        {
            if self.items[i].fingerprint != other.items[i].fingerprint {
                assert(self.items@[i as int] != other.items@[i as int]);
                return false;
            }
            i += 1;
        }
        assert(self.items@ =~= other.items@);
        true
    }
}

impl Eq for SignerSet {

}

impl vstd::std_specs::cmp::PartialEqSpecImpl for SignerSet {
    open spec fn obeys_eq_spec() -> bool {
        true
    }

    open spec fn eq_spec(&self, other: &SignerSet) -> bool {
        self@ == other@
    }
}

/// An ascending sequence holds no signer twice.
pub proof fn lemma_increasing_is_unique(s: Seq<Signer>)
    requires
        increasing(s),
    ensures
        s.no_duplicates(),
{
    assert forall|i: int, j: int| 0 <= i < s.len() && 0 <= j < s.len() && i != j implies s[i]
        != s[j] by {
        if i < j {
            assert(s[i].fingerprint < s[j].fingerprint);
        } else {
            assert(s[j].fingerprint < s[i].fingerprint);
        }
    }
}

/// The order of a set says nothing beyond its signers: two ascending
/// sequences with the same signers are the same sequence.
pub proof fn lemma_order_is_canonical(a: Seq<Signer>, b: Seq<Signer>)
    requires
        increasing(a),
        increasing(b),
    ensures
        a == b <==> a.to_set() == b.to_set(),
    decreases a.len(),
{
    if a.to_set() == b.to_set() {
        lemma_increasing_is_unique(a);
        lemma_increasing_is_unique(b);
        a.unique_seq_to_set();
        b.unique_seq_to_set();
        assert(a.len() == b.len());
        if a.len() > 0 {
            let n = a.len() - 1;
            let x = a[n];
            let y = b[n];
            // the last of each is the greatest of the set
            assert(b.to_set().contains(x));
            assert(a.to_set().contains(y));
            let i = choose|i: int| 0 <= i < b.len() && b[i] == x;
            let j = choose|j: int| 0 <= j < a.len() && a[j] == y;
            assert(x == y) by {
                if i < n {
                    assert(b[i].fingerprint < b[n].fingerprint);
                }
                if j < n {
                    assert(a[j].fingerprint < a[n].fingerprint);
                }
            }
            let a0 = a.drop_last();
            let b0 = b.drop_last();
            assert(increasing(a0));
            assert(increasing(b0));
            assert forall|z: Signer| a0.to_set().contains(z) <==> b0.to_set().contains(z) by {
                if a0.to_set().contains(z) {
                    let k = choose|k: int| 0 <= k < a0.len() && a0[k] == z;
                    assert(a[k] == z);
                    assert(a[k].fingerprint < a[n].fingerprint);
                    assert(b.to_set().contains(z));
                    let m = choose|m: int| 0 <= m < b.len() && b[m] == z;
                    assert(m != n);
                    assert(b0[m] == z);
                }
                if b0.to_set().contains(z) {
                    let k = choose|k: int| 0 <= k < b0.len() && b0[k] == z;
                    assert(b[k] == z);
                    assert(b[k].fingerprint < b[n].fingerprint);
                    assert(a.to_set().contains(z));
                    let m = choose|m: int| 0 <= m < a.len() && a[m] == z;
                    assert(m != n);
                    assert(a0[m] == z);
                }
            }
            assert(a0.to_set() =~= b0.to_set());
            lemma_order_is_canonical(a0, b0);
            assert(a =~= a0.push(x));
            assert(b =~= b0.push(y));
        } else {
            assert(a =~= b);
        }
    }
}

} // verus!
