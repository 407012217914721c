//! The purposes of hierarchical key derivation: the fixed set of derivation
//! schemes that a wallet may follow, each with its name and its path.

use vstd::prelude::*;

verus! {

/// A derivation scheme, named after the proposal that defines it.
///
/// Each scheme serves one kind of wallet, either with one signer or with
/// several, and fixes the path under which the wallet's keys are derived.
#[derive(Clone, Copy, Debug, PartialEq, Eq, Structural, PartialOrd, Ord, Hash)]
pub enum Bip43 {
    /// One signer, legacy pay-to-public-key-hash outputs.
    ///
    /// `m / 44' / coin_type' / account'`
    Bip44,
    /// Several signers, told apart by their cosigner index.
    ///
    /// `m / 45' / cosigner_index`
    Bip45,
    /// Several signers with sorted keys, witness scripts nested in script hashes.
    ///
    /// `m / 48' / coin_type' / account' / script_type'`
    Bip48Nested,
    /// Several signers with sorted keys, native witness scripts.
    ///
    /// `m / 48' / coin_type' / account' / script_type'`
    Bip48Native,
    /// One signer, witness key hashes nested in script hashes.
    ///
    /// `m / 49' / coin_type' / account'`
    Bip49,
    /// One signer, native witness key hashes.
    ///
    /// `m / 84' / coin_type' / account'`
    Bip84,
    /// One signer, taproot outputs.
    ///
    /// `m / 86' / coin_type' / account'`
    Bip86,
    /// Several signers, laid out by an output descriptor.
    ///
    /// `m / 87' / coin_type' / account'`
    Bip87,
}

/// The error of decoding a name that no derivation scheme has.
#[derive(Clone, Copy, Debug, PartialEq, Eq, Structural, Hash)]
pub struct UnrecognizedPurpose;

impl Bip43 {
    /// The scheme for one signer and legacy pay-to-public-key-hash outputs.
    #[verifier::allow_in_spec]
    pub fn singlesig_pkh() -> (r: Bip43)
        ensures
            r == Bip43::Bip44,
            !r.multisig(),
        returns
            Bip43::Bip44,
    {
        Bip43::Bip44
    }

    /// The scheme for one signer and nested witness key hashes.
    #[verifier::allow_in_spec]
    pub fn singlesig_nested0() -> (r: Bip43)
        ensures
            r == Bip43::Bip49,
            !r.multisig(),
        returns
            Bip43::Bip49,
    {
        Bip43::Bip49
    }

    /// The scheme for one signer and native witness key hashes.
    #[verifier::allow_in_spec]
    pub fn singlesig_segwit0() -> (r: Bip43)
        ensures
            r == Bip43::Bip84,
            !r.multisig(),
        returns
            Bip43::Bip84,
    {
        Bip43::Bip84
    }

    /// The scheme for one signer and taproot outputs.
    #[verifier::allow_in_spec]
    pub fn singlelsig_taproot() -> (r: Bip43)
        ensures
            r == Bip43::Bip86,
            !r.multisig(),
        returns
            Bip43::Bip86,
    {
        Bip43::Bip86
    }

    /// The scheme for several signers ordered by their cosigner index.
    #[verifier::allow_in_spec]
    pub fn multisig_ordered_sh() -> (r: Bip43)
        ensures
            r == Bip43::Bip45,
            r.multisig(),
        returns
            Bip43::Bip45,
    {
        Bip43::Bip45
    }

    /// The scheme for several signers and nested witness scripts.
    #[verifier::allow_in_spec]
    pub fn multisig_nested0() -> (r: Bip43)
        ensures
            r == Bip43::Bip48Nested,
            r.multisig(),
        returns
            Bip43::Bip48Nested,
    {
        Bip43::Bip48Nested
    }

    /// The scheme for several signers and native witness scripts.
    #[verifier::allow_in_spec]
    pub fn multisig_segwit0() -> (r: Bip43)
        ensures
            r == Bip43::Bip48Native,
            r.multisig(),
        returns
            Bip43::Bip48Native,
    {
        Bip43::Bip48Native
    }

    /// The scheme for several signers laid out by an output descriptor.
    #[verifier::allow_in_spec]
    pub fn multisig_descriptor() -> (r: Bip43)
        ensures
            r == Bip43::Bip87,
            r.multisig(),
        returns
            Bip43::Bip87,
    {
        Bip43::Bip87
    }
}

impl Bip43 {
    /// Whether the scheme serves a wallet with several signers.
    pub open spec fn multisig(self) -> bool {
        match self {
            Bip43::Bip45 | Bip43::Bip48Nested | Bip43::Bip48Native | Bip43::Bip87 => true,
            Bip43::Bip44 | Bip43::Bip49 | Bip43::Bip84 | Bip43::Bip86 => false,
        }
    }

    /// The name of the scheme.
    pub open spec fn name(self) -> Seq<char> {
        match self {
            Bip43::Bip44 => "bip44"@,
            Bip43::Bip45 => "bip45"@,
            Bip43::Bip48Nested => "bip48-nested"@,
            Bip43::Bip48Native => "bip48-native"@,
            Bip43::Bip49 => "bip49"@,
            Bip43::Bip84 => "bip84"@,
            Bip43::Bip86 => "bip86"@,
            Bip43::Bip87 => "bip87"@,
        }
    }

    /// The path of the scheme in its short form, with `h` for a hardened index.
    pub open spec fn path(self) -> Seq<char> {
        match self {
            Bip43::Bip44 => "m/44h"@,
            Bip43::Bip45 => "m/45h"@,
            Bip43::Bip48Nested => "m/48h//1h"@,
            Bip43::Bip48Native => "m/48h//2h"@,
            Bip43::Bip49 => "m/49h"@,
            Bip43::Bip84 => "m/84h"@,
            Bip43::Bip86 => "m/86h"@,
            Bip43::Bip87 => "m/87h"@,
        }
    }

    /// The scheme that a name stands for, if it is the name of one.
    pub open spec fn decode(s: Seq<char>) -> Option<Bip43> {
        if exists|p: Bip43| p.name() == s {
            Some(choose|p: Bip43| p.name() == s)
        } else {
            None
        }
    }

    /// Tells whether the scheme serves a wallet with several signers.
    pub fn is_multisig(&self) -> (r: bool)
        ensures
            r == self.multisig(),
    {
        match self {
            Bip43::Bip45 | Bip43::Bip48Nested | Bip43::Bip48Native | Bip43::Bip87 => true,
            Bip43::Bip44 | Bip43::Bip49 | Bip43::Bip84 | Bip43::Bip86 => false,
        }
    }

    fn as_name(&self) -> (r: &'static str)
        ensures
            r@ == self.name(),
    {
        match self {
            Bip43::Bip44 => "bip44",
            Bip43::Bip45 => "bip45",
            Bip43::Bip48Nested => "bip48-nested",
            Bip43::Bip48Native => "bip48-native",
            Bip43::Bip49 => "bip49",
            Bip43::Bip84 => "bip84",
            Bip43::Bip86 => "bip86",
            Bip43::Bip87 => "bip87",
        }
    }

    /// Writes the name of the scheme.
    pub fn to_string(&self) -> (r: String)
        ensures
            r@ == self.name(),
    {
        self.as_name().to_owned()
    }

    /// Writes the path of the scheme in its short form.
    pub fn to_path_string(&self) -> (r: String)
        ensures
            r@ == self.path(),
    {
        let path: &'static str = match self {
            Bip43::Bip44 => "m/44h",
            Bip43::Bip45 => "m/45h",
            Bip43::Bip48Nested => "m/48h//1h",
            Bip43::Bip48Native => "m/48h//2h",
            Bip43::Bip49 => "m/49h",
            Bip43::Bip84 => "m/84h",
            Bip43::Bip86 => "m/86h",
            Bip43::Bip87 => "m/87h",
        };
        path.to_owned()
    }

    /// Reads a scheme from its name. A text that is the name of no scheme is
    /// refused: no scheme stands in for an unknown one.
    pub fn from_name(s: &str) -> (r: Result<Bip43, UnrecognizedPurpose>)
        ensures
            r == match Bip43::decode(s@) {
                Some(p) => Ok::<Bip43, UnrecognizedPurpose>(p),
                None => Err::<Bip43, UnrecognizedPurpose>(UnrecognizedPurpose),
            },
    {
        let text = s.to_owned();
        let all = [
            Bip43::Bip44,
            Bip43::Bip45,
            Bip43::Bip48Nested,
            Bip43::Bip48Native,
            Bip43::Bip49,
            Bip43::Bip84,
            Bip43::Bip86,
            Bip43::Bip87,
        ];
        let mut i: usize = 0;
        while i < 8
            invariant
                i <= 8,
                text@ == s@,
                all@ == Bip43::members(),
                forall|k: int| 0 <= k < i ==> (#[trigger] all@[k]).name() != s@,
            decreases 8 - i,
        {
            let p = all[i];
            if text == p.to_string() {
                proof {
                    lemma_names_differ(p, choose|q: Bip43| q.name() == s@);
                }
                return Ok(p);
            }
            i += 1;
        }
        proof {
            assert forall|p: Bip43| p.name() != s@ by {
                lemma_members_are_all(p);
            }
        }
        Err(UnrecognizedPurpose)
    }

    /// The schemes, in the order of their members.
    pub open spec fn members() -> Seq<Bip43> {
        seq![
            Bip43::Bip44,
            Bip43::Bip45,
            Bip43::Bip48Nested,
            Bip43::Bip48Native,
            Bip43::Bip49,
            Bip43::Bip84,
            Bip43::Bip86,
            Bip43::Bip87,
        ]
    }

    /// What the eight constructors return, single-signer ones first.
    pub open spec fn constructed() -> Seq<Bip43> {
        seq![
            Bip43::singlesig_pkh(),
            Bip43::singlesig_nested0(),
            Bip43::singlesig_segwit0(),
            Bip43::singlelsig_taproot(),
            Bip43::multisig_ordered_sh(),
            Bip43::multisig_nested0(),
            Bip43::multisig_segwit0(),
            Bip43::multisig_descriptor(),
        ]
    }
}

/// Every scheme is among the members.
pub proof fn lemma_members_are_all(p: Bip43)
    ensures
        exists|k: int| 0 <= k < 8 && #[trigger] Bip43::members()[k] == p,
{
    let k: int = match p {
        Bip43::Bip44 => 0,
        Bip43::Bip45 => 1,
        Bip43::Bip48Nested => 2,
        Bip43::Bip48Native => 3,
        Bip43::Bip49 => 4,
        Bip43::Bip84 => 5,
        Bip43::Bip86 => 6,
        Bip43::Bip87 => 7,
    };
    assert(Bip43::members()[k] == p);
}

/// No two schemes share a name.
pub proof fn lemma_names_differ(a: Bip43, b: Bip43)
    ensures
        a.name() == b.name() <==> a == b,
{
    reveal_strlit("bip44");
    reveal_strlit("bip45");
    reveal_strlit("bip48-nested");
    reveal_strlit("bip48-native");
    reveal_strlit("bip49");
    reveal_strlit("bip84");
    reveal_strlit("bip86");
    reveal_strlit("bip87");
    if a != b && a.name().len() == b.name().len() {
        if a.name().len() == 5 {
            assert(a.name()[3] != b.name()[3] || a.name()[4] != b.name()[4]);
        } else {
            assert(a.name()[8] != b.name()[8]);
        }
    }
}

/// No two schemes share a path.
pub proof fn lemma_paths_differ(a: Bip43, b: Bip43)
    ensures
        a.path() == b.path() <==> a == b,
{
    reveal_strlit("m/44h");
    reveal_strlit("m/45h");
    reveal_strlit("m/48h//1h");
    reveal_strlit("m/48h//2h");
    reveal_strlit("m/49h");
    reveal_strlit("m/84h");
    reveal_strlit("m/86h");
    reveal_strlit("m/87h");
    if a != b && a.path().len() == b.path().len() {
        if a.path().len() == 5 {
            assert(a.path()[2] != b.path()[2] || a.path()[3] != b.path()[3]);
        } else {
            assert(a.path()[7] != b.path()[7]);
        }
    }
}

/// A scheme is read back from its own name.
pub proof fn lemma_decode_name(p: Bip43)
    ensures
        Bip43::decode(p.name()) == Some(p),
{
    let q = choose|q: Bip43| q.name() == p.name();
    lemma_names_differ(p, q);
}

/// A text is read as a scheme only if it is that scheme's name.
pub proof fn lemma_decode_is_name(s: Seq<char>)
    ensures
        match Bip43::decode(s) {
            Some(p) => p.name() == s,
            None => forall|p: Bip43| p.name() != s,
        },
{
}

/// The eight constructors give eight different schemes, and every scheme is
/// given by one of them: the four for one signer give schemes for one signer,
/// the four for several signers give schemes for several.
pub proof fn lemma_constructors_are_one_to_one()
    ensures
        Bip43::constructed().len() == 8,
        Bip43::constructed().no_duplicates(),
        forall|p: Bip43| Bip43::constructed().contains(p),
        forall|k: int| 0 <= k < 8 ==> (#[trigger] Bip43::constructed()[k]).multisig() == (k >= 4),
{
    assert forall|p: Bip43| Bip43::constructed().contains(p) by {
        let k: int = match p {
            Bip43::Bip44 => 0,
            Bip43::Bip49 => 1,
            Bip43::Bip84 => 2,
            Bip43::Bip86 => 3,
            Bip43::Bip45 => 4,
            Bip43::Bip48Nested => 5,
            Bip43::Bip48Native => 6,
            Bip43::Bip87 => 7,
        };
        assert(Bip43::constructed()[k] == p);
    }
}

} // verus!
